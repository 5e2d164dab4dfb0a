use afterglow::channel::Channel;
use afterglow::component::Entity;
use afterglow::component::Step;
use afterglow::fixtures::Data;
use afterglow::fixtures::Msg;
use afterglow::fixtures::Msg2;
use afterglow::messenger::dispatch;
use afterglow::messenger::AckBoard;

fn fresh_entity(button: bool) -> Entity<Data, Msg, Msg2> {
    Entity::new(Data { button }, Channel::new())
}

#[test]
fn toggle_message_redraws_once() {
    let mut e = fresh_entity(false);
    let mut board = AckBoard::new();
    let ticket = dispatch(Msg::Flipit, &mut e.data_tx, &mut board).unwrap();
    assert!(!board.is_signaled(ticket));
    let step = e.step_data(&mut board);
    assert_eq!(step, Step::Processed { redraw: true });
    assert_eq!(e.data, Data { button: true });
    assert!(board.is_signaled(ticket));
    assert_eq!(e.root_tx.len(), 1, "exactly one redraw signal forwarded");
}

#[test]
fn log_only_message_no_redraw() {
    let mut e = fresh_entity(false);
    let mut board = AckBoard::new();
    let ticket = dispatch(Msg2::Secret, &mut e.self_tx, &mut board).unwrap();
    let step = e.step_self(&mut board);
    assert_eq!(step, Step::Processed { redraw: false });
    assert_eq!(e.data, Data { button: false }, "state unchanged");
    assert!(board.is_signaled(ticket), "acknowledgment still arrives");
    assert_eq!(e.root_tx.len(), 0, "zero redraw signals forwarded");
}

#[test]
fn two_dispatchers_serialize() {
    let mut e = fresh_entity(false);
    let mut board = AckBoard::new();
    let first = dispatch(Msg::Flipit, &mut e.data_tx, &mut board).unwrap();
    let second = dispatch(Msg::Flipit, &mut e.data_tx, &mut board).unwrap();
    assert_ne!(first, second);
    let s1 = e.step_data(&mut board);
    let s2 = e.step_data(&mut board);
    assert_eq!(s1, Step::Processed { redraw: true });
    assert_eq!(s2, Step::Processed { redraw: true });
    assert_eq!(e.data, Data { button: false }, "both mutations applied, in order");
    assert!(board.is_signaled(first));
    assert!(board.is_signaled(second));
    assert_eq!(e.root_tx.len(), 2);
}

#[test]
fn disconnected_entity_terminates() {
    let mut e = fresh_entity(true);
    let mut board = AckBoard::new();
    e.disconnect();
    assert_eq!(e.step_data(&mut board), Step::Terminated);
    assert_eq!(e.step_self(&mut board), Step::Terminated);
    assert_eq!(e.data, Data { button: true }, "termination changes nothing");
}

#[test]
fn queued_items_drain_before_termination() {
    let mut e = fresh_entity(false);
    let mut board = AckBoard::new();
    let ticket = dispatch(Msg::Flipit, &mut e.data_tx, &mut board).unwrap();
    e.disconnect();
    assert_eq!(e.step_data(&mut board), Step::Processed { redraw: true });
    assert!(board.is_signaled(ticket));
    assert_eq!(e.step_data(&mut board), Step::Terminated);
}

#[test]
fn step_on_empty_open_queue_idles() {
    let mut e = fresh_entity(false);
    let mut board = AckBoard::new();
    assert_eq!(e.step_data(&mut board), Step::Idle);
    assert_eq!(e.step_self(&mut board), Step::Idle);
    assert_eq!(e.data, Data { button: false });
}

#[test]
fn relay_update_enqueues_without_ack() {
    let mut e = fresh_entity(false);
    let mut board = AckBoard::new();
    assert!(!e.update(Msg::Flipit), "the relay itself reports no redraw");
    assert_eq!(e.data, Data { button: false }, "nothing applied yet");
    assert_eq!(e.step_data(&mut board), Step::Processed { redraw: true });
    assert_eq!(e.data, Data { button: true });
    assert!(!board.is_signaled(0), "no dispatcher waits on a relay");
}

#[test]
fn relay_update_el_enqueues_root_message() {
    let mut e = fresh_entity(true);
    let mut board = AckBoard::new();
    assert!(!e.update_el(Msg2::Secret));
    assert_eq!(e.step_self(&mut board), Step::Processed { redraw: false });
    assert_eq!(e.data, Data { button: true });
}

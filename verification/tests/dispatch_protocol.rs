use afterglow::channel::Channel;
use afterglow::fixtures::Data;
use afterglow::fixtures::Msg;
use afterglow::fixtures::Msg2;
use afterglow::messenger::apply_envelope;
use afterglow::messenger::consume;
use afterglow::messenger::dispatch;
use afterglow::messenger::AckBoard;
use afterglow::messenger::Envelope;

#[test]
fn dispatch_enqueues_envelope_and_pending_ack() {
    let mut sender: Channel<Envelope<Msg>> = Channel::new();
    let mut board = AckBoard::new();
    let ticket = dispatch(Msg::Flipit, &mut sender, &mut board);
    assert_eq!(ticket, Some(0));
    assert_eq!(sender.len(), 1);
    assert!(!board.is_signaled(0));
}

#[test]
fn dispatch_to_dropped_receiver_returns_none() {
    let mut sender: Channel<Envelope<Msg>> = Channel::new();
    let mut board = AckBoard::new();
    sender.close();
    let ticket = dispatch(Msg::Flipit, &mut sender, &mut board);
    assert_eq!(ticket, None);
    assert_eq!(sender.len(), 0);
    assert!(!board.is_signaled(0));
}

#[test]
fn apply_envelope_applies_then_acks() {
    let mut sender: Channel<Envelope<Msg>> = Channel::new();
    let mut render_tx: Channel<bool> = Channel::new();
    let mut board = AckBoard::new();
    let mut target = Data { button: false };
    let ticket = dispatch(Msg::Flipit, &mut sender, &mut board).unwrap();
    let env = match sender.try_recv() {
        afterglow::channel::Recv::Item(env) => env,
        _ => panic!("the envelope was just queued"),
    };
    assert!(!board.is_signaled(ticket));
    let redraw = apply_envelope(env, &mut target, &mut sender, &mut render_tx, &mut board);
    assert!(redraw);
    assert_eq!(target, Data { button: true });
    assert!(board.is_signaled(ticket));
}

#[test]
fn apply_envelope_log_only_no_redraw() {
    let mut sender: Channel<Envelope<Msg2>> = Channel::new();
    let mut render_tx: Channel<bool> = Channel::new();
    let mut board = AckBoard::new();
    let mut target = Data { button: false };
    let ticket = dispatch(Msg2::Secret, &mut sender, &mut board).unwrap();
    let env = match sender.try_recv() {
        afterglow::channel::Recv::Item(env) => env,
        _ => panic!("the envelope was just queued"),
    };
    let redraw = apply_envelope(env, &mut target, &mut sender, &mut render_tx, &mut board);
    assert!(!redraw);
    assert_eq!(target, Data { button: false });
    assert!(board.is_signaled(ticket));
    assert_eq!(render_tx.len(), 0);
}

#[test]
fn consume_bridges_event_to_dispatch() {
    let mut sender: Channel<Envelope<Msg>> = Channel::new();
    let mut board = AckBoard::new();
    let ticket = consume(|_click: u8| Msg::Flipit, 3u8, &mut sender, &mut board);
    assert_eq!(ticket, Some(0));
    assert_eq!(sender.len(), 1);
    match sender.try_recv() {
        afterglow::channel::Recv::Item(env) => {
            assert!(matches!(env.msg, Msg::Flipit));
            assert_eq!(env.ack, Some(0));
        }
        _ => panic!("the converted message was queued"),
    }
}

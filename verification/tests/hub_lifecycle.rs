use afterglow::component::Step;
use afterglow::fixtures::Data;
use afterglow::fixtures::Msg;
use afterglow::fixtures::Msg2;
use afterglow::hub::HubMsg;
use afterglow::hub::HubStep;
use afterglow::hub::MessageHub;
use afterglow::hub::Vdom;
use afterglow::messenger::dispatch;
use afterglow::messenger::AckBoard;

#[test]
fn render_signal_reaches_hub_iff_true() {
    let mut hub = MessageHub::new();
    let mut root = hub.create_el_pair();
    assert!(root.send(false));
    assert!(root.send(true));
    assert_eq!(hub.mount_el_rx(&mut root), Step::Processed { redraw: false });
    assert_eq!(hub.hub_tx.len(), 0, "a false signal enqueues nothing");
    assert_eq!(hub.mount_el_rx(&mut root), Step::Processed { redraw: true });
    assert_eq!(hub.hub_tx.len(), 1, "a true signal enqueues one render request");
    assert_eq!(hub.mount_el_rx(&mut root), Step::Idle);
}

#[test]
fn hub_renders_once_per_signal() {
    let mut hub = MessageHub::new();
    hub.bind_vdom(Vdom::new());
    assert!(hub.hub_tx.send(HubMsg::Render));
    assert!(hub.hub_tx.send(HubMsg::Render));
    assert_eq!(hub.mount_hub_rx(true), HubStep::Rendered);
    assert_eq!(hub.vdom, Some(Vdom { renders: 1 }));
    assert_eq!(hub.mount_hub_rx(true), HubStep::Rendered);
    assert_eq!(hub.vdom, Some(Vdom { renders: 2 }));
    assert_eq!(hub.mount_hub_rx(true), HubStep::Idle);
    assert_eq!(hub.vdom, Some(Vdom { renders: 2 }));
}

#[test]
fn drop_discards_queued_and_unmounts_once() {
    let mut hub = MessageHub::new();
    hub.bind_vdom(Vdom::new());
    assert!(hub.hub_tx.send(HubMsg::Drop));
    assert!(hub.hub_tx.send(HubMsg::Render));
    assert_eq!(hub.mount_hub_rx(true), HubStep::Unmounted);
    assert!(hub.unmounted, "unmount invoked");
    assert_eq!(hub.vdom, None, "mount handle released");
    assert_eq!(hub.hub_tx.len(), 0, "the queued signal was discarded");
    assert_eq!(hub.mount_hub_rx(true), HubStep::Stopped, "no further redraw attempted");
    assert_eq!(hub.vdom, None);
}

#[test]
fn failed_render_stops_loop() {
    let mut hub = MessageHub::new();
    hub.bind_vdom(Vdom::new());
    assert!(hub.hub_tx.send(HubMsg::Render));
    assert!(hub.hub_tx.send(HubMsg::Render));
    assert_eq!(hub.mount_hub_rx(false), HubStep::Failed);
    assert!(hub.failed);
    assert_eq!(hub.vdom, Some(Vdom { renders: 0 }), "tree keeps its last-rendered state");
    assert_eq!(hub.mount_hub_rx(true), HubStep::Stopped, "no signal is processed any more");
    assert!(!hub.unmounted);
}

#[test]
fn disconnected_producers_unmount() {
    let mut hub = MessageHub::new();
    hub.bind_vdom(Vdom::new());
    hub.hub_tx.disconnect();
    assert_eq!(hub.mount_hub_rx(true), HubStep::Unmounted);
    assert!(hub.unmounted);
    assert_eq!(hub.vdom, None);
}

#[test]
fn full_pipeline_toggle() {
    let mut hub = MessageHub::new();
    let mut e = hub.bind_root_el::<Data, Msg, Msg2>(Data { button: false });
    let mut board = AckBoard::new();

    let ticket = dispatch(Msg::Flipit, &mut e.data_tx, &mut board).unwrap();
    assert_eq!(e.step_data(&mut board), Step::Processed { redraw: true });
    assert!(board.is_signaled(ticket), "dispatcher resumes: mutation fully applied");
    assert_eq!(e.data, Data { button: true });

    assert_eq!(hub.mount_el_rx(&mut e.root_tx), Step::Processed { redraw: true });
    assert_eq!(hub.mount_el_rx(&mut e.root_tx), Step::Idle);
    assert_eq!(hub.mount_hub_rx(true), HubStep::Rendered);
    assert_eq!(hub.vdom, Some(Vdom { renders: 1 }), "exactly one redraw pass");
    assert_eq!(hub.mount_hub_rx(true), HubStep::Idle);
}

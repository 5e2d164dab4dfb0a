//! The root coordinator: it owns the mounted tree handle, aggregates the
//! redraw signals of every entity, and serializes the actual redraw
//! passes.
//!
//! The hub's loop consumes one control message at a time and a redraw pass
//! completes within the step that consumed its signal, so two passes can
//! never overlap. A pass that the rendering host reports as failed is
//! fatal to the loop: no further signal is processed and the tree stays in
//! its last-rendered state. A drop control message — or the loss of every
//! signal producer — discards whatever is still queued, unmounts the tree
//! exactly once, and ends the loop.

use vstd::prelude::*;

use crate::channel::Channel;
use crate::channel::ChannelView;
use crate::channel::Recv;
use crate::component::Component;
use crate::component::Entity;
use crate::component::EntityView;
use crate::component::Step;
use crate::component::local_step;

verus! {

/// The mounted virtual tree, reduced to what the coordinator's logic
/// reads: how many redraw passes have completed against it. The host that
/// owns the real rendering library performs the passes; the hub counts
/// and serializes them.
#[derive(Clone, Copy, Debug, PartialEq, Eq, Structural)]
pub struct Vdom {
    /// Completed redraw passes.
    pub renders: u64,
}

impl Vdom {
    /// A freshly mounted tree: no pass has run yet.
    pub fn new() -> (v: Vdom)
        ensures
            v.renders == 0,
    {
        Vdom { renders: 0 }
    }
}

/// A control message on the hub's aggregation channel.
#[derive(Clone, Copy, Debug, PartialEq, Eq, Structural)]
pub enum HubMsg {
    /// Some component changed visible state: run one redraw pass.
    Render,
    /// Tear the tree down: discard queued signals and unmount.
    Drop,
}

/// What one advance of the hub's loop did.
#[derive(Clone, Copy, Debug, PartialEq, Eq, Structural)]
pub enum HubStep {
    /// One redraw pass ran to completion.
    Rendered,
    /// The rendering host reported an error; the loop is now stopped for
    /// good and the tree keeps its last-rendered state.
    Failed,
    /// Nothing is queued yet; the loop stays suspended.
    Idle,
    /// A drop control message arrived, or every signal producer is gone:
    /// queued signals were discarded and the tree was unmounted.
    Unmounted,
    /// The loop had already ended — by failure or by unmount — and
    /// nothing happens any more.
    Stopped,
}

/// The mathematical value of the hub.
#[verifier::ext_equal]
pub struct HubView {
    /// The mounted tree, present between mount and unmount.
    pub vdom: Option<Vdom>,
    /// The aggregation channel of redraw and drop control messages.
    pub hub_tx: ChannelView<HubMsg>,
    /// Whether a redraw pass failed, which stops the loop for good.
    pub failed: bool,
    /// Whether the final unmount has been performed.
    pub unmounted: bool,
}

/// The root coordinator of one mounted tree.
pub struct MessageHub {
    /// The mounted tree, present between mount and unmount.
    pub vdom: Option<Vdom>,
    /// The aggregation channel; every entity's redraw signals are
    /// forwarded into it.
    pub hub_tx: Channel<HubMsg>,
    /// Whether a redraw pass failed.
    pub failed: bool,
    /// Whether the final unmount has been performed.
    pub unmounted: bool,
}

impl View for MessageHub {
    type V = HubView;

    open spec fn view(&self) -> HubView {
        HubView {
            vdom: self.vdom,
            hub_tx: self.hub_tx@,
            failed: self.failed,
            unmounted: self.unmounted,
        }
    }
}

impl HubView {
    /// Whether the loop has ended for good, by failure or by unmount.
    pub open spec fn finished(self) -> bool {
        self.failed || self.unmounted
    }

    /// Completed redraw passes, zero once the tree is gone.
    pub open spec fn passes(self) -> int {
        match self.vdom {
            Some(v) => v.renders as int,
            None => 0,
        }
    }
}

/// The hub after the final teardown: queued signals discarded, channel
/// closed, tree unmounted.
pub open spec fn hub_torn_down(h: HubView) -> HubView {
    HubView {
        vdom: None,
        hub_tx: ChannelView {
            queue: Seq::empty(),
            sender_live: h.hub_tx.sender_live,
            receiver_live: false,
        },
        failed: h.failed,
        unmounted: true,
    }
}

/// One advance of the hub's aggregation loop, as a value. `render_ok` is
/// the outcome the rendering host reports for the pass, if one runs.
pub open spec fn hub_step(h: HubView, render_ok: bool) -> (HubView, HubStep) {
    if h.finished() {
        (h, HubStep::Stopped)
    } else {
        match h.hub_tx.receive_outcome() {
            Recv::Item(m) => match m {
                HubMsg::Render => {
                    if render_ok {
                        (
                            HubView {
                                vdom: match h.vdom {
                                    Some(v) => Some(Vdom { renders: (v.renders + 1) as u64 }),
                                    None => None,
                                },
                                hub_tx: h.hub_tx.received(),
                                failed: false,
                                unmounted: false,
                            },
                            HubStep::Rendered,
                        )
                    } else {
                        (
                            HubView {
                                vdom: h.vdom,
                                hub_tx: h.hub_tx.received(),
                                failed: true,
                                unmounted: false,
                            },
                            HubStep::Failed,
                        )
                    }
                },
                HubMsg::Drop => (hub_torn_down(HubView { hub_tx: h.hub_tx.received(), ..h }), HubStep::Unmounted),
            },
            Recv::Empty => (h, HubStep::Idle),
            Recv::Disconnected => (hub_torn_down(h), HubStep::Unmounted),
        }
    }
}

/// One advance of a forwarding loop: take the oldest redraw signal of one
/// entity and pass a render request on to the hub's aggregation channel
/// exactly when the signal is `true`.
pub open spec fn forward_step(h: HubView, root: ChannelView<bool>) -> (
    HubView,
    ChannelView<bool>,
    Step,
) {
    match root.receive_outcome() {
        Recv::Item(flag) => (
            if flag {
                HubView { hub_tx: h.hub_tx.sent(HubMsg::Render), ..h }
            } else {
                h
            },
            root.received(),
            Step::Processed { redraw: flag },
        ),
        Recv::Empty => (h, root, Step::Idle),
        Recv::Disconnected => (h, root, Step::Terminated),
    }
}

impl MessageHub {
    /// A hub with nothing mounted yet and an empty aggregation channel.
    pub fn new() -> (h: MessageHub)
        ensures
            h@ == (HubView {
                vdom: None,
                hub_tx: ChannelView { queue: Seq::empty(), sender_live: true, receiver_live: true },
                failed: false,
                unmounted: false,
            }),
    {
        let h = MessageHub { vdom: None, hub_tx: Channel::new(), failed: false, unmounted: false };
        proof {
            assert(h@ =~= HubView {
                vdom: None,
                hub_tx: ChannelView { queue: Seq::empty(), sender_live: true, receiver_live: true },
                failed: false,
                unmounted: false,
            });
        }
        h
    }

    /// Create the redraw signal channel an entity will feed.
    pub fn create_el_pair(&self) -> (c: Channel<bool>)
        ensures
            c@ == (ChannelView::<bool> { queue: Seq::empty(), sender_live: true, receiver_live: true }),
    {
        Channel::new()
    }

    /// Create an entity whose redraw signals this hub will aggregate once
    /// its signal channel is handed to `mount_el_rx`.
    pub fn create_el<T: Component<Msg = M, RootMsg = C>, M, C>(&self, data: T) -> (e: Entity<
        T,
        M,
        C,
    >)
        ensures
            e@.data == data,
            e@.data_tx == (ChannelView::<crate::messenger::Envelope<M>> {
                queue: Seq::empty(),
                sender_live: true,
                receiver_live: true,
            }),
            e@.self_tx == (ChannelView::<crate::messenger::Envelope<C>> {
                queue: Seq::empty(),
                sender_live: true,
                receiver_live: true,
            }),
            e@.root_tx == (ChannelView::<bool> { queue: Seq::empty(), sender_live: true, receiver_live: true }),
    {
        Entity::new(data, self.create_el_pair())
    }

    /// Bind a mounted tree to the hub, so render requests can be served.
    pub fn bind_vdom(&mut self, vdom: Vdom)
        ensures
            final(self)@ == (HubView { vdom: Some(vdom), ..old(self)@ }),
    {
        self.vdom = Some(vdom);
        proof {
            assert(self@ =~= HubView { vdom: Some(vdom), ..old(self)@ });
        }
    }

    /// Mount a root entity: create the physical mount and the root
    /// entity whose redraw signals feed this hub's aggregation channel.
    pub fn bind_root_el<T: Component<Msg = M, RootMsg = C>, M, C>(&mut self, data: T) -> (e:
        Entity<T, M, C>)
        ensures
            final(self)@ == (HubView { vdom: Some(Vdom { renders: 0 }), ..old(self)@ }),
            e@.data == data,
            e@.data_tx == (ChannelView::<crate::messenger::Envelope<M>> {
                queue: Seq::empty(),
                sender_live: true,
                receiver_live: true,
            }),
            e@.self_tx == (ChannelView::<crate::messenger::Envelope<C>> {
                queue: Seq::empty(),
                sender_live: true,
                receiver_live: true,
            }),
            e@.root_tx == (ChannelView::<bool> { queue: Seq::empty(), sender_live: true, receiver_live: true }),
    {
        let root_tx = self.create_el_pair();
        let e = Entity::new(data, root_tx);
        self.bind_vdom(Vdom::new());
        e
    }

    /// Forward one redraw signal of one entity into the aggregation
    /// channel: `true` becomes a render request, `false` is ignored, and
    /// a drained, disconnected signal channel ends this forwarding loop.
    pub fn mount_el_rx(&mut self, root_rx: &mut Channel<bool>) -> (r: Step)
        ensures
            final(self)@ == forward_step(old(self)@, old(root_rx)@).0,
            final(root_rx)@ == forward_step(old(self)@, old(root_rx)@).1,
            r == forward_step(old(self)@, old(root_rx)@).2,
    {
        match root_rx.try_recv() {
            Recv::Item(flag) => {
                if flag {
                    let _accepted = self.hub_tx.send(HubMsg::Render);
                }
                proof {
                    assert(self@ =~= forward_step(old(self)@, old(root_rx)@).0);
                }
                Step::Processed { redraw: flag }
            },
            Recv::Empty => Step::Idle,
            Recv::Disconnected => Step::Terminated,
        }
    }

    /// Advance the aggregation loop by one control message. A render
    /// request runs one full pass before the next message is consumed;
    /// `render_ok` is the outcome the rendering host reports for that
    /// pass. A drop message — or a channel whose every producer is gone —
    /// tears the tree down.
    pub fn mount_hub_rx(&mut self, render_ok: bool) -> (r: HubStep)
        requires
            old(self)@.vdom is Some || old(self)@.finished(),
            old(self)@.vdom matches Some(v) ==> v.renders < u64::MAX,
        ensures
            final(self)@ == hub_step(old(self)@, render_ok).0,
            r == hub_step(old(self)@, render_ok).1,
    {
        if self.failed || self.unmounted {
            return HubStep::Stopped;
        }
        match self.hub_tx.try_recv() {
            Recv::Item(m) => match m {
                HubMsg::Render => {
                    if render_ok {
                        match &mut self.vdom {
                            Some(v) => {
                                v.renders = v.renders + 1;
                            },
                            None => (),
                        }
                        proof {
                            assert(self@ =~= hub_step(old(self)@, render_ok).0);
                        }
                        HubStep::Rendered
                    } else {
                        self.failed = true;
                        proof {
                            assert(self@ =~= hub_step(old(self)@, render_ok).0);
                        }
                        HubStep::Failed
                    }
                },
                HubMsg::Drop => {
                    self.hub_tx.close();
                    self.vdom = None;
                    self.unmounted = true;
                    proof {
                        assert(self@ =~= hub_step(old(self)@, render_ok).0);
                    }
                    HubStep::Unmounted
                },
            },
            Recv::Empty => HubStep::Idle,
            Recv::Disconnected => {
                self.hub_tx.close();
                self.vdom = None;
                self.unmounted = true;
                proof {
                    assert(self@ =~= hub_step(old(self)@, render_ok).0);
                }
                HubStep::Unmounted
            },
        }
    }
}

/// Law: redraw passes are serialized. One advance of the aggregation loop
/// completes at most one pass, a pass runs exactly when a render request
/// was consumed, and the next advance starts from the state the completed
/// pass left behind — never before it.
pub proof fn lemma_redraw_passes_serialized(h: HubView, ok1: bool, ok2: bool)
    requires
        h.vdom matches Some(v) && v.renders + 1 < u64::MAX,
    ensures
        ({
            let (h1, r1) = hub_step(h, ok1);
            let (h2, r2) = hub_step(h1, ok2);
            &&& h1.passes() <= h.passes() + 1
            &&& ((r1 == HubStep::Rendered) <==> h1.passes() == h.passes() + 1)
            &&& h2.passes() <= h1.passes() + 1
            &&& ((r2 == HubStep::Rendered) <==> h2.passes() == h1.passes() + 1)
        }),
{
}

/// Law: a drop control message discards every signal still queued behind
/// it, unmounts the tree exactly once, and no later advance of the loop
/// runs another redraw pass.
pub proof fn lemma_drop_unmounts_once(h: HubView, ok1: bool, ok2: bool)
    requires
        !h.finished(),
        h.hub_tx.receiver_live,
        h.hub_tx.queue.len() > 0,
        h.hub_tx.queue.first() == HubMsg::Drop,
    ensures
        ({
            let (h1, r1) = hub_step(h, ok1);
            let (h2, r2) = hub_step(h1, ok2);
            &&& r1 == HubStep::Unmounted
            &&& h1.unmounted
            &&& h1.vdom is None
            &&& h1.hub_tx.queue.len() == 0
            &&& (h2, r2) == (h1, HubStep::Stopped)
        }),
{
}

/// Law: a redraw signal reaches the hub's aggregation channel if and only
/// if the mutation the entity applied reported one. With the entity's
/// signal channel drained, one consumption step followed by one
/// forwarding step enqueues exactly one render request when the mutation
/// reported `true`, and nothing at all when it reported `false`.
pub proof fn lemma_redraw_reaches_hub<T: Component<Msg = M, RootMsg = C>, M, C>(
    h: HubView,
    e: EntityView<T, M, C>,
    board: Seq<bool>,
)
    requires
        e.data_tx.receiver_live,
        e.data_tx.queue.len() > 0,
        e.root_tx.can_send(),
        e.root_tx.queue.len() == 0,
        h.hub_tx.can_send(),
    ensures
        ({
            let (e1, b1, r1) = local_step(e, board);
            let (h1, root1, r2) = forward_step(h, e1.root_tx);
            let redraw = e.data.needs_redraw(e.data_tx.queue.first().msg);
            &&& (redraw ==> {
                &&& h1.hub_tx.queue == h.hub_tx.queue.push(HubMsg::Render)
                &&& root1.queue.len() == 0
                &&& r2 == (Step::Processed { redraw: true })
            })
            &&& (!redraw ==> {
                &&& h1.hub_tx.queue == h.hub_tx.queue
                &&& r2 == Step::Idle
            })
        }),
{
    let (e1, b1, r1) = local_step(e, board);
    if e.data.needs_redraw(e.data_tx.queue.first().msg) {
        assert(e1.root_tx.queue == e.root_tx.queue.push(true));
        assert(e1.root_tx.queue.first() == true);
        assert(e1.root_tx.received().queue =~= Seq::<bool>::empty());
    }
}

/// Law: a render request reaches the aggregation channel if and only if
/// the signal the forwarding loop consumed was `true`; a `false` signal
/// is dropped and enqueues nothing.
pub proof fn lemma_render_request_iff_signal(h: HubView, root: ChannelView<bool>)
    requires
        root.receiver_live,
        root.queue.len() > 0,
        h.hub_tx.can_send(),
    ensures
        ({
            let (h1, root1, r) = forward_step(h, root);
            &&& (root.queue.first() ==> h1.hub_tx.queue == h.hub_tx.queue.push(HubMsg::Render))
            &&& (!root.queue.first() ==> h1.hub_tx.queue == h.hub_tx.queue)
            &&& r == (Step::Processed { redraw: root.queue.first() })
        }),
{
}

} // verus!

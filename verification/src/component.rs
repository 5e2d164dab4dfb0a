//! The per-component state container and its two consumption loops.
//!
//! An `Entity` owns one piece of state exclusively: every mutation is
//! funneled through one of two inbound envelope queues — the local queue
//! for the component's own message type and the root queue for messages a
//! parent relays down. The loops are advanced one envelope at a time by
//! the step functions below, so a mutation always completes fully, with
//! its acknowledgment signaled and its redraw signal forwarded, before the
//! next one starts.

use vstd::prelude::*;

use crate::channel::Channel;
use crate::channel::ChannelView;
use crate::channel::Recv;
use crate::messenger::AckBoard;
use crate::messenger::Envelope;
use crate::messenger::acked;

verus! {

/// A state type that reacts to its associated message types.
///
/// `next`/`needs_redraw` (and their root-message counterparts) are the
/// mathematical meaning of the component; the executable methods are held
/// to them. An update that reports `true` asks for one redraw pass.
pub trait Component: Sized {
    /// Messages that mutate this component's own state.
    type Msg;

    /// Messages a parent relays down to this component.
    type RootMsg;

    /// The state after one local message was applied.
    spec fn next(self, msg: Self::Msg) -> Self;

    /// Whether one local message changes visible state.
    spec fn needs_redraw(self, msg: Self::Msg) -> bool;

    /// The state after one relayed root message was applied.
    spec fn next_root(self, msg: Self::RootMsg) -> Self;

    /// Whether one relayed root message changes visible state.
    spec fn needs_redraw_root(self, msg: Self::RootMsg) -> bool;

    /// Apply one local message, once, to completion.
    fn update(&mut self, msg: Self::Msg) -> (redraw: bool)
        ensures
            *final(self) == old(self).next(msg),
            redraw == old(self).needs_redraw(msg),
    ;

    /// Apply one relayed root message, once, to completion.
    fn update_el(&mut self, msg: Self::RootMsg) -> (redraw: bool)
        ensures
            *final(self) == old(self).next_root(msg),
            redraw == old(self).needs_redraw_root(msg),
    ;
}

/// A state that builds its own tree node. The node is a pure function of
/// the state; `M` and `C` are the message types the built node's event
/// handlers would dispatch, through the entity that owns the state.
pub trait Render<M, C>: Sized {
    /// The tree-node value handed to the rendering engine.
    type Node;

    /// The node this state renders to.
    spec fn node_of(self) -> Self::Node;

    /// Build the node for the current state.
    fn render(&self) -> (n: Self::Node)
        ensures
            n == self.node_of(),
    ;
}

/// What one advance of a consumption loop did.
#[derive(Clone, Copy, Debug, PartialEq, Eq, Structural)]
pub enum Step {
    /// One envelope was consumed and fully applied; `redraw` is what the
    /// mutation reported.
    Processed { redraw: bool },
    /// Nothing is queued, but a sender is still live: the loop stays
    /// suspended until the next envelope arrives.
    Idle,
    /// Every sending handle is gone and the queue is drained: the loop
    /// has terminated, silently and without error.
    Terminated,
}

/// The mathematical value of an entity: its state and its three channels.
#[verifier::ext_equal]
pub struct EntityView<T, M, C> {
    /// The owned component state.
    pub data: T,
    /// Inbound local-message envelopes.
    pub data_tx: ChannelView<Envelope<M>>,
    /// Inbound relayed root-message envelopes.
    pub self_tx: ChannelView<Envelope<C>>,
    /// Outbound redraw signals, towards the parent or the hub.
    pub root_tx: ChannelView<bool>,
}

/// A node of the component tree: one exclusively-owned piece of state,
/// two inbound envelope queues, and the outbound redraw signal channel.
pub struct Entity<T, M, C> {
    /// The owned component state.
    pub data: T,
    /// Inbound local-message envelopes; dispatchers send here.
    pub data_tx: Channel<Envelope<M>>,
    /// Inbound relayed root-message envelopes; the parent sends here.
    pub self_tx: Channel<Envelope<C>>,
    /// Outbound redraw signals.
    pub root_tx: Channel<bool>,
}

impl<T, M, C> View for Entity<T, M, C> {
    type V = EntityView<T, M, C>;

    open spec fn view(&self) -> EntityView<T, M, C> {
        EntityView {
            data: self.data,
            data_tx: self.data_tx@,
            self_tx: self.self_tx@,
            root_tx: self.root_tx@,
        }
    }
}

/// One advance of the local consumption loop, as a value: consume the
/// oldest local envelope, apply it, signal its acknowledgment, and
/// forward one redraw signal exactly when the mutation reported one.
pub open spec fn local_step<T: Component<Msg = M, RootMsg = C>, M, C>(
    e: EntityView<T, M, C>,
    board: Seq<bool>,
) -> (EntityView<T, M, C>, Seq<bool>, Step) {
    match e.data_tx.receive_outcome() {
        Recv::Item(env) => (
            EntityView {
                data: e.data.next(env.msg),
                data_tx: e.data_tx.received(),
                self_tx: e.self_tx,
                root_tx: if e.data.needs_redraw(env.msg) {
                    e.root_tx.sent(true)
                } else {
                    e.root_tx
                },
            },
            acked(board, env.ack),
            Step::Processed { redraw: e.data.needs_redraw(env.msg) },
        ),
        Recv::Empty => (e, board, Step::Idle),
        Recv::Disconnected => (e, board, Step::Terminated),
    }
}

/// One advance of the root consumption loop; structurally identical to
/// `local_step`, over the relayed-message queue.
pub open spec fn root_step<T: Component<Msg = M, RootMsg = C>, M, C>(
    e: EntityView<T, M, C>,
    board: Seq<bool>,
) -> (EntityView<T, M, C>, Seq<bool>, Step) {
    match e.self_tx.receive_outcome() {
        Recv::Item(env) => (
            EntityView {
                data: e.data.next_root(env.msg),
                data_tx: e.data_tx,
                self_tx: e.self_tx.received(),
                root_tx: if e.data.needs_redraw_root(env.msg) {
                    e.root_tx.sent(true)
                } else {
                    e.root_tx
                },
            },
            acked(board, env.ack),
            Step::Processed { redraw: e.data.needs_redraw_root(env.msg) },
        ),
        Recv::Empty => (e, board, Step::Idle),
        Recv::Disconnected => (e, board, Step::Terminated),
    }
}

impl<T: Component<Msg = M, RootMsg = C>, M, C> Entity<T, M, C> {
    /// Create an entity around an initial state, bound to the redraw
    /// channel its parent (or the hub) listens on. Both inbound queues
    /// start empty and open; the consumption loops are advanced with
    /// `step_data` and `step_self`.
    pub fn new(data: T, root_tx: Channel<bool>) -> (e: Entity<T, M, C>)
        ensures
            e@.data == data,
            e@.data_tx == (ChannelView::<Envelope<M>> {
                queue: Seq::empty(),
                sender_live: true,
                receiver_live: true,
            }),
            e@.self_tx == (ChannelView::<Envelope<C>> {
                queue: Seq::empty(),
                sender_live: true,
                receiver_live: true,
            }),
            e@.root_tx == root_tx@,
    {
        Entity { data, data_tx: Channel::new(), self_tx: Channel::new(), root_tx }
    }

    /// Advance the local consumption loop by one envelope: apply the
    /// mutation to completion, signal its acknowledgment, and forward one
    /// redraw signal exactly when the mutation reported one.
    pub fn step_data(&mut self, board: &mut AckBoard) -> (r: Step)
        ensures
            final(self)@ == local_step(old(self)@, old(board)@).0,
            final(board)@ == local_step(old(self)@, old(board)@).1,
            r == local_step(old(self)@, old(board)@).2,
    {
        match self.data_tx.try_recv() {
            Recv::Item(env) => {
                let redraw = self.data.update(env.msg);
                match env.ack {
                    Some(id) => board.signal(id),
                    None => (),
                }
                if redraw {
                    let _accepted = self.root_tx.send(true);
                }
                proof {
                    assert(self@ =~= local_step(old(self)@, old(board)@).0);
                }
                Step::Processed { redraw }
            },
            Recv::Empty => Step::Idle,
            Recv::Disconnected => Step::Terminated,
        }
    }

    /// Advance the root consumption loop by one envelope; structurally
    /// identical to `step_data`, over the relayed-message queue.
    pub fn step_self(&mut self, board: &mut AckBoard) -> (r: Step)
        ensures
            final(self)@ == root_step(old(self)@, old(board)@).0,
            final(board)@ == root_step(old(self)@, old(board)@).1,
            r == root_step(old(self)@, old(board)@).2,
    {
        match self.self_tx.try_recv() {
            Recv::Item(env) => {
                let redraw = self.data.update_el(env.msg);
                match env.ack {
                    Some(id) => board.signal(id),
                    None => (),
                }
                if redraw {
                    let _accepted = self.root_tx.send(true);
                }
                proof {
                    assert(self@ =~= root_step(old(self)@, old(board)@).0);
                }
                Step::Processed { redraw }
            },
            Recv::Empty => Step::Idle,
            Recv::Disconnected => Step::Terminated,
        }
    }

    /// Relay one local message into the entity's own queue without a
    /// waiting dispatcher: fire-and-forget, so no redraw is reported to
    /// the caller — the consumption loop will report it when it applies
    /// the message.
    pub fn update(&mut self, msg: M) -> (redraw: bool)
        ensures
            redraw == false,
            final(self)@ == (EntityView {
                data: old(self)@.data,
                data_tx: old(self)@.data_tx.sent(Envelope { msg: msg, ack: None }),
                self_tx: old(self)@.self_tx,
                root_tx: old(self)@.root_tx,
            }),
    {
        let _accepted = self.data_tx.send(Envelope { msg, ack: None });
        false
    }

    /// Relay one root message into the entity's own queue without a
    /// waiting dispatcher, as `update` does for local messages.
    pub fn update_el(&mut self, msg: C) -> (redraw: bool)
        ensures
            redraw == false,
            final(self)@ == (EntityView {
                data: old(self)@.data,
                data_tx: old(self)@.data_tx,
                self_tx: old(self)@.self_tx.sent(Envelope { msg: msg, ack: None }),
                root_tx: old(self)@.root_tx,
            }),
    {
        let _accepted = self.self_tx.send(Envelope { msg, ack: None });
        false
    }

    /// Drop every channel handle of this entity: nothing can be enqueued
    /// any more, and once the queues are drained both consumption loops
    /// observe disconnection and terminate.
    pub fn disconnect(&mut self)
        ensures
            final(self)@ == (EntityView {
                data: old(self)@.data,
                data_tx: ChannelView {
                    queue: old(self)@.data_tx.queue,
                    sender_live: false,
                    receiver_live: old(self)@.data_tx.receiver_live,
                },
                self_tx: ChannelView {
                    queue: old(self)@.self_tx.queue,
                    sender_live: false,
                    receiver_live: old(self)@.self_tx.receiver_live,
                },
                root_tx: ChannelView {
                    queue: old(self)@.root_tx.queue,
                    sender_live: false,
                    receiver_live: old(self)@.root_tx.receiver_live,
                },
            }),
    {
        self.data_tx.disconnect();
        self.self_tx.disconnect();
        self.root_tx.disconnect();
        proof {
            assert(self@ =~= EntityView {
                data: old(self)@.data,
                data_tx: ChannelView {
                    queue: old(self)@.data_tx.queue,
                    sender_live: false,
                    receiver_live: old(self)@.data_tx.receiver_live,
                },
                self_tx: ChannelView {
                    queue: old(self)@.self_tx.queue,
                    sender_live: false,
                    receiver_live: old(self)@.self_tx.receiver_live,
                },
                root_tx: ChannelView {
                    queue: old(self)@.root_tx.queue,
                    sender_live: false,
                    receiver_live: old(self)@.root_tx.receiver_live,
                },
            });
        }
    }
}

/// Law: a message dispatched to an entity whose channel is open is
/// applied exactly once and acknowledged exactly once. `dispatch`
/// enqueues the envelope below and creates its pending slot (see
/// `dispatched`); the consumption loop's next advance consumes the
/// envelope — so it can never be applied again — applies it to the state,
/// and signals exactly the slot it carried, leaving every other
/// dispatcher's slot untouched.
pub proof fn lemma_dispatched_message_applied_once<T: Component<Msg = M, RootMsg = C>, M, C>(
    e: EntityView<T, M, C>,
    board: Seq<bool>,
    msg: M,
)
    requires
        e.data_tx.can_send(),
        e.data_tx.queue.len() == 0,
        board.len() < usize::MAX,
    ensures
        ({
            let env = Envelope { msg: msg, ack: Some(board.len() as usize) };
            let e1 = EntityView { data_tx: e.data_tx.sent(env), ..e };
            let b1 = board.push(false);
            let (e2, b2, r) = local_step(e1, b1);
            &&& e2.data == e.data.next(msg)
            &&& e2.data_tx.queue.len() == 0
            &&& b2 == b1.update(board.len() as int, true)
            &&& b2[board.len() as int]
            &&& (forall|j: int| 0 <= j < board.len() ==> b2[j] == board[j])
            &&& r == (Step::Processed { redraw: e.data.needs_redraw(msg) })
        }),
{
    let env = Envelope { msg: msg, ack: Some(board.len() as usize) };
    let e1 = EntityView { data_tx: e.data_tx.sent(env), ..e };
    let b1 = board.push(false);
    assert(e1.data_tx.queue.first() == env);
    assert(local_step(e1, b1).0.data_tx.queue =~= Seq::<Envelope<M>>::empty());
}

/// Law: within one entity, two local mutations never interleave. The
/// second step applies its message to the fully-applied result of the
/// first: with envelopes `a` then `b` queued, the state after two
/// advances is `next(next(data, a.msg), b.msg)`, and the envelopes leave
/// the queue in arrival order.
pub proof fn lemma_local_mutations_serialize<T: Component<Msg = M, RootMsg = C>, M, C>(
    e: EntityView<T, M, C>,
    board: Seq<bool>,
)
    requires
        e.data_tx.receiver_live,
        e.data_tx.queue.len() >= 2,
    ensures
        ({
            let (e1, b1, r1) = local_step(e, board);
            let (e2, b2, r2) = local_step(e1, b1);
            &&& e1.data == e.data.next(e.data_tx.queue[0].msg)
            &&& e2.data == e.data.next(e.data_tx.queue[0].msg).next(e.data_tx.queue[1].msg)
            &&& r1 == (Step::Processed { redraw: e.data.needs_redraw(e.data_tx.queue[0].msg) })
            &&& r2 == (Step::Processed {
                redraw: e.data.next(e.data_tx.queue[0].msg).needs_redraw(e.data_tx.queue[1].msg),
            })
        }),
{
    let (e1, b1, r1) = local_step(e, board);
    assert(e1.data_tx.queue == e.data_tx.queue.drop_first());
    assert(e1.data_tx.queue[0] == e.data_tx.queue[1]);
}

/// Law: an entity whose channel handles were all dropped terminates both
/// consumption loops within one scheduling step, changing nothing: once
/// the queues are drained, each step reports `Terminated` and leaves the
/// entity, the acknowledgment board and the redraw channel as they are.
pub proof fn lemma_disconnected_entity_terminates<T: Component<Msg = M, RootMsg = C>, M, C>(
    e: EntityView<T, M, C>,
    board: Seq<bool>,
)
    requires
        !e.data_tx.sender_live,
        e.data_tx.queue.len() == 0,
        !e.self_tx.sender_live,
        e.self_tx.queue.len() == 0,
    ensures
        local_step(e, board) == (e, board, Step::Terminated),
        root_step(e, board) == (e, board, Step::Terminated),
{
}

/// Law: one local step emits a redraw signal if and only if the mutation
/// it applied reported one; a mutation that reports `false` never
/// produces a signal.
pub proof fn lemma_redraw_signal_iff_reported<T: Component<Msg = M, RootMsg = C>, M, C>(
    e: EntityView<T, M, C>,
    board: Seq<bool>,
)
    requires
        e.data_tx.receiver_live,
        e.data_tx.queue.len() > 0,
        e.root_tx.can_send(),
    ensures
        ({
            let (e1, b1, r) = local_step(e, board);
            let redraw = e.data.needs_redraw(e.data_tx.queue[0].msg);
            &&& (redraw ==> e1.root_tx.queue == e.root_tx.queue.push(true))
            &&& (!redraw ==> e1.root_tx.queue == e.root_tx.queue)
            &&& r == (Step::Processed { redraw })
        }),
{
}

} // verus!

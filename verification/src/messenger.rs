//! The message contract and the dispatch protocol.
//!
//! A message is a one-shot command that mutates exactly one target state
//! type and reports whether the visible tree must be redrawn. Dispatching
//! wraps the message in an envelope together with a single-use
//! acknowledgment slot; whoever applies the message signals that slot
//! exactly once, after the mutation has fully completed.

use vstd::prelude::*;

use crate::channel::Channel;
use crate::channel::ChannelView;

verus! {

/// A dispatch envelope: one message together with its acknowledgment slot.
/// `ack` is `None` for fire-and-forget deliveries that no dispatcher waits
/// on, such as messages a parent relays down.
pub struct Envelope<M> {
    /// The command to apply.
    pub msg: M,
    /// The acknowledgment slot to signal once the command was applied.
    pub ack: Option<usize>,
}

/// A board after signaling one slot: the slot is marked, every other slot
/// keeps its value, and a slot that was never handed out changes nothing.
pub open spec fn acked(board: Seq<bool>, ack: Option<usize>) -> Seq<bool> {
    match ack {
        Some(id) => {
            if id < board.len() {
                board.update(id as int, true)
            } else {
                board
            }
        },
        None => board,
    }
}

/// The set of acknowledgment slots of one scheduler. Each `dispatch`
/// creates one pending slot; applying the envelope signals it; the
/// dispatcher resumes once it observes the signal.
pub struct AckBoard {
    slots: Vec<bool>,
}

impl View for AckBoard {
    type V = Seq<bool>;

    closed spec fn view(&self) -> Seq<bool> {
        self.slots@
    }
}

impl AckBoard {
    /// A board with no slots handed out yet.
    pub fn new() -> (b: AckBoard)
        ensures
            b@ == Seq::<bool>::empty(),
    {
        let b = AckBoard { slots: Vec::new() };
        proof {
            assert(b@ =~= Seq::<bool>::empty());
        }
        b
    }

    /// Hand out a fresh pending slot.
    pub fn create(&mut self) -> (id: usize)
        ensures
            id as int == old(self)@.len(),
            final(self)@ == old(self)@.push(false),
    {
        let id = self.slots.len();
        self.slots.push(false);
        id
    }

    /// Signal one slot. A slot that was never handed out is ignored.
    pub fn signal(&mut self, id: usize)
        ensures
            final(self)@ == acked(old(self)@, Some(id)),
    {
        if id < self.slots.len() {
            self.slots.set(id, true);
        }
    }

    /// Whether the slot was signaled already: the dispatcher's await.
    pub fn is_signaled(&self, id: usize) -> (b: bool)
        ensures
            b == (id < self@.len() && self@[id as int]),
    {
        if id < self.slots.len() {
            self.slots[id]
        } else {
            false
        }
    }
}

/// A one-shot command targeting one state type.
///
/// `next` and `needs_redraw` are the mathematical meaning of the command;
/// `update` is held to them. An update may dispatch further messages
/// through `sender`, but only by enqueuing — it never consumes, so
/// re-entrant messaging cannot deadlock — and it never writes to the
/// redraw channel itself: reporting a redraw is the consumption loop's
/// job, driven by the returned flag.
pub trait Messenger: Sized {
    /// The state type this command mutates.
    type Target;

    /// The target state after this command was applied.
    spec fn next(self, target: Self::Target) -> Self::Target;

    /// Whether applying this command changes visible state.
    spec fn needs_redraw(self, target: Self::Target) -> bool;

    /// Apply the command to the target, once.
    fn update(
        self,
        target: &mut Self::Target,
        sender: &mut Channel<Envelope<Self>>,
        render_tx: &mut Channel<bool>,
    ) -> (redraw: bool)
        ensures
            *final(target) == self.next(*old(target)),
            redraw == self.needs_redraw(*old(target)),
            old(sender)@.queue.is_prefix_of(final(sender)@.queue),
            final(sender)@.sender_live == old(sender)@.sender_live,
            final(sender)@.receiver_live == old(sender)@.receiver_live,
            final(render_tx)@ == old(render_tx)@,
    ;
}

/// What one dispatch attempt does: with the channel open, one fresh
/// pending slot is created and the envelope is queued behind everything
/// already pending; with the channel gone, nothing changes and the caller
/// is told the target is gone.
pub open spec fn dispatched<M>(
    msg: M,
    sender0: ChannelView<Envelope<M>>,
    board0: Seq<bool>,
    sender1: ChannelView<Envelope<M>>,
    board1: Seq<bool>,
    r: Option<usize>,
) -> bool {
    if sender0.can_send() {
        &&& r == Some(board0.len() as usize)
        &&& board1 == board0.push(false)
        &&& sender1 == sender0.sent(Envelope { msg: msg, ack: Some(board0.len() as usize) })
    } else {
        &&& r == None::<usize>
        &&& board1 == board0
        &&& sender1 == sender0
    }
}

/// Schedule delivery of `msg` into `sender`'s channel as a dispatch
/// envelope. The message is delivered at most once: if the receiving end
/// is already gone the send fails and `None` says that no acknowledgment
/// will ever come.
pub fn dispatch<M>(msg: M, sender: &mut Channel<Envelope<M>>, board: &mut AckBoard) -> (r: Option<
    usize,
>)
    ensures
        dispatched(msg, old(sender)@, old(board)@, final(sender)@, final(board)@, r),
{
    if sender.can_send() {
        let id = board.create();
        let accepted = sender.send(Envelope { msg, ack: Some(id) });
        Some(id)
    } else {
        None
    }
}

/// The event bridge: convert one captured external event into a message
/// with the caller-supplied pure function, then dispatch it. This is the
/// only point where external input enters the message system.
pub fn consume<E, M, F: Fn(E) -> M>(
    convert: F,
    event: E,
    sender: &mut Channel<Envelope<M>>,
    board: &mut AckBoard,
) -> (r: Option<usize>)
    requires
        call_requires(convert, (event,)),
    ensures
        exists|m: M|
            #[trigger] call_ensures(convert, (event,), m) && dispatched(
                m,
                old(sender)@,
                old(board)@,
                final(sender)@,
                final(board)@,
                r,
            ),
{
    let msg = convert(event);
    dispatch(msg, sender, board)
}

/// Process one dispatch envelope: apply the message to the target, then
/// signal the acknowledgment — each exactly once, in that order. The
/// redraw decision is handed back to the caller, which owns the redraw
/// channel.
pub fn apply_envelope<M: Messenger>(
    env: Envelope<M>,
    target: &mut M::Target,
    sender: &mut Channel<Envelope<M>>,
    render_tx: &mut Channel<bool>,
    board: &mut AckBoard,
) -> (redraw: bool)
    ensures
        *final(target) == env.msg.next(*old(target)),
        redraw == env.msg.needs_redraw(*old(target)),
        final(board)@ == acked(old(board)@, env.ack),
        old(sender)@.queue.is_prefix_of(final(sender)@.queue),
        final(sender)@.sender_live == old(sender)@.sender_live,
        final(sender)@.receiver_live == old(sender)@.receiver_live,
        final(render_tx)@ == old(render_tx)@,
{
    let redraw = env.msg.update(target, sender, render_tx);
    match env.ack {
        Some(id) => board.signal(id),
        None => (),
    }
    redraw
}

/// Law: signaling an acknowledgment marks exactly the one slot that the
/// envelope carried; every other dispatcher's slot is untouched, and a
/// signaled slot stays signaled.
pub proof fn lemma_ack_exactly_once(board: Seq<bool>, id: usize)
    requires
        id < board.len(),
    ensures
        acked(board, Some(id)).len() == board.len(),
        acked(board, Some(id))[id as int],
        forall|j: int| 0 <= j < board.len() && j != id ==> acked(board, Some(id))[j] == board[j],
{
}

} // verus!

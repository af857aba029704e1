//! The batched hand-over of results: a worker gathers accepted paths in a
//! bounded buffer and sends the buffer across an unbounded channel whenever
//! it is full and once more when its work ends.

use crossbeam_channel::{Receiver, Sender};
use vstd::prelude::*;

verus! {

/// `crossbeam_channel::Sender`, carried through as an opaque value.
#[verifier::external_type_specification]
#[verifier::external_body]
#[verifier::reject_recursive_types(T)]
pub struct ExSender<T>(Sender<T>);

/// `crossbeam_channel::Receiver`, carried through as an opaque value.
#[verifier::external_type_specification]
#[verifier::external_body]
#[verifier::reject_recursive_types(T)]
pub struct ExReceiver<T>(Receiver<T>);

/// Whether the channel behind a sending end takes any number of messages,
/// so that sending into it never waits.
pub uninterp spec fn is_unbounded(sender: Sender<Vec<String>>) -> bool;

/// The batches that have been handed to the channel through a sending end,
/// in the order of sending.
pub uninterp spec fn handed_over(sender: Sender<Vec<String>>) -> Seq<Seq<Seq<char>>>;

/// Calls `crossbeam_channel::unbounded`. Trusted: the channel is unbounded,
/// and nothing has been handed over through its sending end.
#[verifier::external_body]
fn make_unbounded() -> (ends: (Sender<Vec<String>>, Receiver<Vec<String>>))
    ensures
        is_unbounded(ends.0),
        handed_over(ends.0) == Seq::<Seq<Seq<char>>>::empty(),
{
    crossbeam_channel::unbounded()
}

/// Calls `Clone::clone` of `crossbeam_channel::Sender`. Trusted: the new
/// sending end belongs to the same channel, so it is unbounded exactly if
/// the given one is; nothing has been handed over through it, and the given
/// one is as it was.
#[verifier::external_body]
fn clone_sender(sender: &Sender<Vec<String>>) -> (copy: Sender<Vec<String>>)
    ensures
        is_unbounded(copy) == is_unbounded(*sender),
        handed_over(copy) == Seq::<Seq<Seq<char>>>::empty(),
{
    sender.clone()
}

/// Calls `crossbeam_channel::Sender::send` and lets go of its result.
/// Trusted: the batch has been handed over through the sending end, which
/// stays a sending end of the same unbounded channel. Nothing is claimed of
/// the receiving end: the message reaches it unless it is gone, in which
/// case the message is dropped. The call does not unwind. A bounded channel
/// is left out: sending into it waits for room.
#[verifier::external_body]
fn send_batch(sender: &mut Sender<Vec<String>>, batch: Vec<String>)
    requires
        is_unbounded(*old(sender)),
    ensures
        is_unbounded(*final(sender)),
        handed_over(*final(sender)) == handed_over(*old(sender)).push(batch.deep_view()),
    opens_invariants none
    no_unwind
{
    let _ = sender.send(batch);
}

/// An unbounded channel for batches of results: the sending end for the
/// workers, the receiving end for the assembler.
pub fn result_channel() -> (ends: (Sender<Vec<String>>, Receiver<Vec<String>>))
    ensures
        is_unbounded(ends.0),
        handed_over(ends.0) == Seq::<Seq<Seq<char>>>::empty(),
{
    make_unbounded()
}

/// One more sending end of the same channel, for one more worker.
pub fn share_sender(sender: &Sender<Vec<String>>) -> (copy: Sender<Vec<String>>)
    ensures
        is_unbounded(copy) == is_unbounded(*sender),
        handed_over(copy) == Seq::<Seq<Seq<char>>>::empty(),
{
    clone_sender(sender)
}

/// Number of paths that a batch holds before it is sent.
pub const BATCH_SIZE: usize = 256;

/// What a worker has gathered so far: the batches it has handed to its
/// sender, in the order of sending, and the paths that wait in its buffer.
pub struct BatchState {
    pub sent: Seq<Seq<Seq<char>>>,
    pub pending: Seq<Seq<char>>,
}

impl BatchState {
    /// Nothing sent, nothing waiting.
    pub open spec fn empty() -> BatchState {
        BatchState { sent: Seq::empty(), pending: Seq::empty() }
    }

    /// The buffer never reaches capacity between two calls, and no batch
    /// that was sent is empty or over capacity.
    pub open spec fn wf(self) -> bool {
        &&& self.pending.len() < BATCH_SIZE
        &&& forall|i: int|
            0 <= i < self.sent.len() ==> 0 < (#[trigger] self.sent[i]).len() <= BATCH_SIZE
    }

    /// Every path gathered so far, in the order of gathering.
    pub open spec fn collected(self) -> Seq<Seq<char>> {
        self.sent.flatten() + self.pending
    }

    /// The state after the buffer, if it holds anything, has been sent.
    pub open spec fn flushed(self) -> BatchState {
        if self.pending.len() == 0 {
            self
        } else {
            BatchState { sent: self.sent.push(self.pending), pending: Seq::empty() }
        }
    }

    /// The state after one more path: it joins the buffer, and a buffer that
    /// has reached capacity is sent at once.
    pub open spec fn pushed(self, item: Seq<char>) -> BatchState {
        if self.pending.len() + 1 >= BATCH_SIZE {
            BatchState { sent: self.sent.push(self.pending.push(item)), pending: Seq::empty() }
        } else {
            BatchState { sent: self.sent, pending: self.pending.push(item) }
        }
    }

    /// The state of a fresh batch after the paths of `items`, one after the
    /// other.
    pub open spec fn after(items: Seq<Seq<char>>) -> BatchState
        decreases items.len(),
    {
        if items.len() == 0 {
            BatchState::empty()
        } else {
            BatchState::after(items.drop_last()).pushed(items.last())
        }
    }
}

/// A worker's private buffer of accepted paths, with the sending end of the
/// unbounded channel that takes the full buffers.
pub struct ResultBatch {
    batch: Vec<String>,
    sender: Sender<Vec<String>>,
}

impl View for ResultBatch {
    type V = BatchState;

    closed spec fn view(&self) -> BatchState {
        BatchState { sent: handed_over(self.sender), pending: self.batch.deep_view() }
    }
}

impl ResultBatch {
    #[verifier::type_invariant]
    spec fn sends_without_waiting(self) -> bool {
        is_unbounded(self.sender)
    }

    /// The sending end that the batch sends through.
    pub closed spec fn sender(self) -> Sender<Vec<String>> {
        self.sender
    }

    /// What a batch counts as sent is what was handed over through its
    /// sending end.
    pub proof fn lemma_sent_is_what_was_handed_over(self)
        ensures
            handed_over(self.sender()) == self@.sent,
    {
    }

    /// An empty batch that sends through `sender`, which must belong to an
    /// unbounded channel.
    pub fn new(sender: Sender<Vec<String>>) -> (fresh: ResultBatch)
        requires
            is_unbounded(sender),
        ensures
            fresh.sender() == sender,
            fresh@ == (BatchState { sent: handed_over(sender), pending: Seq::empty() }),
    {
        let fresh = ResultBatch { batch: Vec::with_capacity(BATCH_SIZE), sender };
        assert(fresh.batch.deep_view() =~= Seq::empty());
        fresh
    }

    /// Number of paths that wait in the buffer.
    pub fn pending_len(&self) -> (n: usize)
        ensures
            n == self@.pending.len(),
    {
        self.batch.len()
    }

    /// Adds a path, and sends the buffer if that fills it.
    pub fn push(&mut self, item: String)
        ensures
            final(self)@ == old(self)@.pushed(item@),
            old(self)@.wf() ==> final(self)@.wf(),
            is_unbounded(final(self).sender()),
            handed_over(final(self).sender()) == final(self)@.sent,
            final(self)@.sent == old(self)@.sent ==> final(self).sender() == old(self).sender(),
    {
        proof {
            use_type_invariant(&*self);
        }
        let mut batch: Vec<String> = Vec::new();
        core::mem::swap(&mut self.batch, &mut batch);
        batch.push(item);
        assert(batch.deep_view() =~= old(self).batch.deep_view().push(item@));
        self.batch = batch;
        if self.batch.len() >= BATCH_SIZE {
            self.flush();
        }
    }

    /// Sends the buffer if it holds anything, and starts an empty one.
    pub fn flush(&mut self)
        ensures
            final(self)@ == old(self)@.flushed(),
            old(self)@.wf() ==> final(self)@.wf(),
            is_unbounded(final(self).sender()),
            handed_over(final(self).sender()) == final(self)@.sent,
            final(self)@.sent == old(self)@.sent ==> final(self).sender() == old(self).sender(),
    {
        proof {
            use_type_invariant(&*self);
        }
        if !self.batch.is_empty() {
            let mut batch = Vec::with_capacity(BATCH_SIZE);
            core::mem::swap(&mut self.batch, &mut batch);
            send_batch(&mut self.sender, batch);
            assert(self.batch.deep_view() =~= Seq::empty());
        }
    }
}

/// Pushing loses nothing and repeats nothing: what has been gathered grows
/// by the new path at its end, wherever the batch boundary falls.
pub proof fn lemma_push_keeps_every_path(state: BatchState, item: Seq<char>)
    ensures
        state.pushed(item).collected() == state.collected().push(item),
        state.wf() ==> state.pushed(item).wf(),
{
    state.sent.lemma_flatten_push(state.pending.push(item));
    assert(state.pushed(item).collected() =~= state.collected().push(item));
}

/// Flushing loses nothing and repeats nothing, and leaves the buffer empty.
pub proof fn lemma_flush_keeps_every_path(state: BatchState)
    ensures
        state.flushed().collected() == state.collected(),
        state.flushed().pending.len() == 0,
        state.wf() ==> state.flushed().wf(),
{
    state.sent.lemma_flatten_push(state.pending);
    assert(state.flushed().collected() =~= state.collected());
}

/// After any number of pushes into a fresh batch, every batch that was sent
/// is full, their number is the number of paths divided by the capacity, and
/// the rest waits in the buffer.
pub proof fn lemma_batches_are_cut_at_capacity(items: Seq<Seq<char>>)
    ensures
        BatchState::after(items).wf(),
        BatchState::after(items).collected() == items,
        BatchState::after(items).sent.len() == items.len() / (BATCH_SIZE as nat),
        BatchState::after(items).pending.len() == items.len() % (BATCH_SIZE as nat),
        forall|i: int|
            0 <= i < BatchState::after(items).sent.len() ==> (
            #[trigger] BatchState::after(items).sent[i]).len() == BATCH_SIZE,
    decreases items.len(),
{
    if items.len() == 0 {
        assert(BatchState::empty().collected() =~= items);
    } else {
        let before = BatchState::after(items.drop_last());
        lemma_batches_are_cut_at_capacity(items.drop_last());
        lemma_push_keeps_every_path(before, items.last());
        assert(items.drop_last().push(items.last()) =~= items);
    }
}

/// A worker that pushes `items` and then flushes has handed over exactly
/// `items`, in order: the batches it sent, laid end to end, are the paths it
/// gathered, and nothing is left behind.
pub proof fn lemma_flushed_batches_hold_every_path(items: Seq<Seq<char>>)
    ensures
        BatchState::after(items).flushed().sent.flatten() == items,
        BatchState::after(items).flushed().pending.len() == 0,
        BatchState::after(items).flushed().wf(),
{
    lemma_batches_are_cut_at_capacity(items);
    lemma_flush_keeps_every_path(BatchState::after(items));
    assert(BatchState::after(items).flushed().collected() =~= BatchState::after(
        items,
    ).flushed().sent.flatten());
}

} // verus!

//! The queue of instructions that wait to run inside the interpreter.

use std::collections::VecDeque;
use vstd::prelude::*;

verus! {

/// The instruction at the head of `pending`, if there is one.
pub open spec fn head<T>(pending: Seq<T>) -> Option<T> {
    if pending.len() > 0 {
        Some(pending[0])
    } else {
        None
    }
}

/// `pending` without its head; unchanged when empty.
pub open spec fn without_head<T>(pending: Seq<T>) -> Seq<T> {
    if pending.len() > 0 {
        pending.subrange(1, pending.len() as int)
    } else {
        pending
    }
}

/// `pending` without its first `count` instructions; nothing is left where it
/// holds no more than that.
pub open spec fn without_first<T>(pending: Seq<T>, count: nat) -> Seq<T> {
    if count <= pending.len() {
        pending.subrange(count as int, pending.len() as int)
    } else {
        Seq::empty()
    }
}

/// An unbounded first-in, first-out queue of deferred instructions.
///
/// Any thread may enqueue; the session thread alone drains, one instruction per
/// iteration of its loop. The queue itself is sequential: whoever shares it puts
/// it behind a lock, and the order in which the lock was taken is the order of
/// the queue. `T` is the instruction, typically a boxed closure that takes the
/// interpreter's context.
#[derive(Debug)]
pub struct InstructionQueue<T> {
    pending: VecDeque<T>,
}

impl<T> View for InstructionQueue<T> {
    type V = Seq<T>;

    closed spec fn view(&self) -> Seq<T> {
        self.pending@
    }
}

impl<T> InstructionQueue<T> {
    /// An empty queue.
    pub fn new() -> (queue: Self)
        ensures
            queue@ == Seq::<T>::empty(),
    {
        InstructionQueue { pending: VecDeque::new() }
    }

    /// Appends `instruction` to the tail.
    pub fn enqueue(&mut self, instruction: T)
        ensures
            final(self)@ == old(self)@.push(instruction),
    {
        self.pending.push_back(instruction);
    }

    /// Removes and returns the head; `None`, and no change, when the queue is
    /// empty.
    pub fn drain_one(&mut self) -> (instruction: Option<T>)
        ensures
            instruction == head(old(self)@),
            final(self)@ == without_head(old(self)@),
    {
        self.pending.pop_front()
    }

    /// Drops the first `count` pending instructions without running them, or all
    /// of them where there are no more than that.
    pub fn discard_first(&mut self, count: usize)
        ensures
            final(self)@ == without_first(old(self)@, count as nat),
    {
        if count < self.pending.len() {
            let kept = self.pending.split_off(count);
            self.pending = kept;
        } else {
            self.pending.clear();
        }
    }

    /// Drops every pending instruction without running it, and says how many
    /// there were.
    pub fn discard_all(&mut self) -> (dropped: usize)
        ensures
            final(self)@ == Seq::<T>::empty(),
            dropped == old(self)@.len(),
    {
        let dropped = self.pending.len();
        self.pending.clear();
        dropped
    }

    /// Number of pending instructions.
    pub fn len(&self) -> (n: usize)
        ensures
            n == self@.len(),
    {
        self.pending.len()
    }

    /// Whether nothing is pending.
    pub fn is_empty(&self) -> (empty: bool)
        ensures
            empty == (self@.len() == 0),
    {
        self.pending.len() == 0
    }
}

/// Posts `func` for execution inside the interpreter: appends it to the tail of
/// `queue`.
pub fn queue_python_instruction<T>(queue: &mut InstructionQueue<T>, func: T)
    ensures
        final(queue)@ == old(queue)@.push(func),
{
    queue.enqueue(func);
}

/// One call on an [`InstructionQueue`], as the lock around it orders them.
pub enum QueueCall<T> {
    /// A producer's call of [`InstructionQueue::enqueue`] with this instruction.
    Enqueue(T),
    /// The consumer's call of [`InstructionQueue::drain_one`].
    Drain,
}

/// What is pending after `calls`, made in this order on a queue that held
/// `pending`.
pub open spec fn pending_after<T>(pending: Seq<T>, calls: Seq<QueueCall<T>>) -> Seq<T>
    decreases calls.len(),
{
    if calls.len() == 0 {
        pending
    } else {
        let before = pending_after(pending, calls.drop_last());
        match calls.last() {
            QueueCall::Enqueue(instruction) => before.push(instruction),
            QueueCall::Drain => without_head(before),
        }
    }
}

/// The instructions that the enqueue calls among `calls` brought, in call order.
pub open spec fn enqueued<T>(calls: Seq<QueueCall<T>>) -> Seq<T>
    decreases calls.len(),
{
    if calls.len() == 0 {
        Seq::empty()
    } else {
        let before = enqueued(calls.drop_last());
        match calls.last() {
            QueueCall::Enqueue(instruction) => before.push(instruction),
            QueueCall::Drain => before,
        }
    }
}

/// The instructions that the drain calls among `calls` returned, in call order.
pub open spec fn drained<T>(pending: Seq<T>, calls: Seq<QueueCall<T>>) -> Seq<T>
    decreases calls.len(),
{
    if calls.len() == 0 {
        Seq::empty()
    } else {
        let before = drained(pending, calls.drop_last());
        match calls.last() {
            QueueCall::Enqueue(_) => before,
            QueueCall::Drain => match head(pending_after(pending, calls.drop_last())) {
                Some(instruction) => before.push(instruction),
                None => before,
            },
        }
    }
}

/// First in, first out, each instruction once. However enqueues and drains
/// interleave, what the drains returned, followed by what is still pending, is
/// what was pending at the start followed by what was enqueued, in that order.
pub proof fn lemma_drains_follow_enqueue_order<T>(pending: Seq<T>, calls: Seq<QueueCall<T>>)
    ensures
        drained(pending, calls) + pending_after(pending, calls) == pending + enqueued(calls),
    decreases calls.len(),
{
    if calls.len() == 0 {
        assert(Seq::<T>::empty() + pending =~= pending + Seq::<T>::empty());
    } else {
        let earlier = calls.drop_last();
        lemma_drains_follow_enqueue_order(pending, earlier);
        let d = drained(pending, earlier);
        let q = pending_after(pending, earlier);
        let e = enqueued(earlier);
        assert(d + q == pending + e);
        match calls.last() {
            QueueCall::Enqueue(instruction) => {
                assert(d + q.push(instruction) =~= (d + q).push(instruction));
                assert(pending + e.push(instruction) =~= (pending + e).push(instruction));
            },
            QueueCall::Drain => {
                if q.len() > 0 {
                    assert(d.push(q[0]) + q.subrange(1, q.len() as int) =~= d + q);
                }
            },
        }
    }
}

/// Each producer's own order is kept. Let `from_producer` tell the instructions
/// of one producer from the others. On a queue that starts empty, the drains
/// return that producer's instructions in the order in which it enqueued them,
/// and those not yet returned are still pending, in that order too.
pub proof fn lemma_producer_order_kept<T>(
    calls: Seq<QueueCall<T>>,
    from_producer: spec_fn(T) -> bool,
)
    ensures
        drained(Seq::empty(), calls).filter(from_producer) + pending_after(
            Seq::empty(),
            calls,
        ).filter(from_producer) == enqueued(calls).filter(from_producer),
{
    let d = drained(Seq::<T>::empty(), calls);
    let q = pending_after(Seq::<T>::empty(), calls);
    lemma_drains_follow_enqueue_order(Seq::<T>::empty(), calls);
    assert(Seq::<T>::empty() + enqueued(calls) =~= enqueued(calls));
    Seq::filter_distributes_over_add(d, q, from_producer);
}

} // verus!

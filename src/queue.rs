use std::collections::VecDeque;
use vstd::prelude::*;

use crate::signal::{Signal, SignalResult, SignallableData};

verus! {

#[derive(Debug, Clone, Copy, PartialEq, Eq, Structural)]
pub enum ThreadSafeQueueError {
    /// The state behind the queue was poisoned.
    MutexPoison,
    /// The queue was signalled to stop.
    StatusNotOk,
}

impl ThreadSafeQueueError {
    pub fn message(&self) -> (r: String)
        ensures
            *self == ThreadSafeQueueError::MutexPoison ==> r@ == "The queue mutex was poisoned."@,
            *self == ThreadSafeQueueError::StatusNotOk ==> r@ == "The status is not OK."@,
    {
        match self {
            ThreadSafeQueueError::MutexPoison => String::from_str("The queue mutex was poisoned."),
            ThreadSafeQueueError::StatusNotOk => String::from_str("The status is not OK."),
        }
    }
}

/// A first-in first-out queue with a sticky shutdown flag.
///
/// Enqueueing never waits. Dequeueing waits until an item is there or the flag
/// is set; once the flag is set it refuses even while items remain.
pub struct ThreadSafeQueue<T> {
    queue: SignallableData<VecDeque<T>>,
}

impl<T> ThreadSafeQueue<T> {
    /// The queued items, front first.
    pub closed spec fn items(&self) -> Seq<T> {
        self.queue.value()@
    }

    /// Whether a blocking dequeue would have to wait for another party.
    pub open spec fn waits(&self) -> bool {
        self.items().len() == 0 && !self.signalled() && !self.poisoned()
    }

    /// What a dequeue on this state gives.
    pub open spec fn dequeue_outcome(&self) -> Result<T, ThreadSafeQueueError> {
        if self.poisoned() {
            Err(ThreadSafeQueueError::MutexPoison)
        } else if self.signalled() {
            Err(ThreadSafeQueueError::StatusNotOk)
        } else {
            Ok(self.items()[0])
        }
    }

    pub fn new() -> (r: Self)
        ensures
            r.items() == Seq::<T>::empty(),
            !r.signalled(),
            !r.poisoned(),
    {
        ThreadSafeQueue { queue: SignallableData::new(VecDeque::new()) }
    }

    /// Records that a holder of the queue terminated abnormally while holding it.
    pub fn mark_poisoned(&mut self)
        ensures
            final(self).poisoned(),
            final(self).items() == old(self).items(),
            final(self).signalled() == old(self).signalled(),
    {
        self.queue.mark_poisoned();
    }

    /// Whether a holder of the queue terminated abnormally while holding it.
    pub fn is_poisoned(&self) -> (r: bool)
        ensures
            r == self.poisoned(),
    {
        self.queue.is_poisoned()
    }

    /// Whether a blocking dequeue must wait before it can decide.
    pub fn must_wait(&self) -> (r: bool)
        ensures
            r == self.waits(),
    {
        let is_empty = self.elements() == 0;
        is_empty && !self.queue.is_signalled() && !self.queue.is_poisoned()
    }

    /// Takes the front item. Refuses with `StatusNotOk` once the flag is set,
    /// even while items remain. An empty queue with a clear flag would wait for
    /// another party, and is excluded.
    pub fn dequeue(&mut self) -> (r: Result<T, ThreadSafeQueueError>)
        requires
            !old(self).waits(),
        ensures
            final(self).signalled() == old(self).signalled(),
            final(self).poisoned() == old(self).poisoned(),
            r == old(self).dequeue_outcome(),
            old(self).poisoned() ==> r == Err::<T, ThreadSafeQueueError>(
                ThreadSafeQueueError::MutexPoison,
            ) && final(self).items() == old(self).items(),
            !old(self).poisoned() && old(self).signalled() ==> r == Err::<T, ThreadSafeQueueError>(
                ThreadSafeQueueError::StatusNotOk,
            ) && final(self).items() == old(self).items(),
            !old(self).poisoned() && !old(self).signalled() ==> r == Ok::<T, ThreadSafeQueueError>(
                old(self).items()[0],
            ) && final(self).items() == old(self).items().drop_first(),
            !old(self).poisoned() && !old(self).signalled() ==> (r matches Ok(x) && op_step(
                old(self).items(),
                QueueOp::Dequeue,
            ) == (seq![x], final(self).items())),
    {
        match self.queue.lock() {
            Err(_) => Err(ThreadSafeQueueError::MutexPoison),
            Ok(g) => {
                if g.is_signalled() {
                    Err(ThreadSafeQueueError::StatusNotOk)
                } else {
                    match g.data.pop_front() {
                        Some(item) => Ok(item),
                        None => Err(ThreadSafeQueueError::StatusNotOk),
                    }
                }
            },
        }
    }

    /// The number of queued items; 0 when the state is poisoned.
    pub fn elements(&self) -> (r: usize)
        ensures
            !self.poisoned() ==> r == self.items().len(),
            self.poisoned() ==> r == 0,
    {
        if self.queue.is_poisoned() {
            0
        } else {
            self.queue.value_ref().len()
        }
    }

    /// Takes the front item without waiting; `None` when empty or poisoned.
    /// The flag does not stop it.
    pub fn try_dequeue(&mut self) -> (r: Option<T>)
        ensures
            final(self).signalled() == old(self).signalled(),
            final(self).poisoned() == old(self).poisoned(),
            old(self).poisoned() || old(self).items().len() == 0 ==> r == None::<T>
                && final(self).items() == old(self).items(),
            !old(self).poisoned() && old(self).items().len() > 0 ==> r == Some(old(self).items()[0])
                && final(self).items() == old(self).items().drop_first(),
    {
        match self.queue.lock() {
            Err(_) => None,
            Ok(g) => g.data.pop_front(),
        }
    }

    /// Takes the front item, waiting at most `dur` for one. While the queue is
    /// held here nothing else can fill it, so an empty queue gives `Ok(None)`.
    /// The flag does not stop it.
    pub fn try_dequeue_timeout(&mut self, dur: std::time::Duration) -> (r: Result<
        Option<T>,
        ThreadSafeQueueError,
    >)
        ensures
            final(self).signalled() == old(self).signalled(),
            final(self).poisoned() == old(self).poisoned(),
            old(self).poisoned() ==> r == Err::<Option<T>, ThreadSafeQueueError>(
                ThreadSafeQueueError::MutexPoison,
            ) && final(self).items() == old(self).items(),
            !old(self).poisoned() && old(self).items().len() == 0 ==> r == Ok::<
                Option<T>,
                ThreadSafeQueueError,
            >(None) && final(self).items() == old(self).items(),
            !old(self).poisoned() && old(self).items().len() > 0 ==> r == Ok::<
                Option<T>,
                ThreadSafeQueueError,
            >(Some(old(self).items()[0])) && final(self).items() == old(self).items().drop_first(),
    {
        match self.queue.lock() {
            Err(_) => Err(ThreadSafeQueueError::MutexPoison),
            Ok(g) => Ok(g.data.pop_front()),
        }
    }

    /// Appends `data` at the back. Never waits, and works whatever the flag;
    /// fails only on a poisoned state.
    pub fn enqueue(&mut self, data: T) -> (r: Result<(), ThreadSafeQueueError>)
        ensures
            final(self).signalled() == old(self).signalled(),
            final(self).poisoned() == old(self).poisoned(),
            old(self).poisoned() ==> r == Err::<(), ThreadSafeQueueError>(
                ThreadSafeQueueError::MutexPoison,
            ) && final(self).items() == old(self).items(),
            !old(self).poisoned() ==> r == Ok::<(), ThreadSafeQueueError>(())
                && final(self).items() == old(self).items().push(data),
            !old(self).poisoned() ==> op_step(old(self).items(), QueueOp::Enqueue(data)) == (
                Seq::<T>::empty(),
                final(self).items(),
            ),
    {
        match self.queue.lock() {
            Err(_) => Err(ThreadSafeQueueError::MutexPoison),
            Ok(g) => {
                g.data.push_back(data);
                Ok(())
            },
        }
    }
}

impl<T> Signal for ThreadSafeQueue<T> {
    closed spec fn signalled(&self) -> bool {
        self.queue.signalled()
    }

    closed spec fn poisoned(&self) -> bool {
        self.queue.poisoned()
    }

    open spec fn agrees_except_signal(&self, other: &Self) -> bool {
        self.items() == other.items() && self.poisoned() == other.poisoned()
    }

    fn is_signalled(&self) -> (r: bool) {
        self.queue.is_signalled()
    }

    fn wait_for_signal(&self) -> (r: Result<(), SignalResult>) {
        self.queue.wait_for_signal()
    }

    fn set_signal(&mut self, value: bool) -> (r: bool) {
        self.queue.set_signal(value)
    }
}

/// One operation on a queue, for stating what runs of them do.
pub enum QueueOp<T> {
    Enqueue(T),
    Dequeue,
}

/// What one operation does to the items `items` of a healthy, unsignalled
/// queue: what it takes out, and the items after it, as `enqueue` and
/// `dequeue` state. A dequeue on an empty queue would wait, and takes nothing.
pub open spec fn op_step<T>(items: Seq<T>, op: QueueOp<T>) -> (Seq<T>, Seq<T>) {
    match op {
        QueueOp::Enqueue(x) => (Seq::empty(), items.push(x)),
        QueueOp::Dequeue => if items.len() > 0 {
            (seq![items[0]], items.drop_first())
        } else {
            (Seq::empty(), items)
        },
    }
}

/// What a run of operations takes out, in order, and the items left after it.
pub open spec fn run_ops<T>(items: Seq<T>, ops: Seq<QueueOp<T>>) -> (Seq<T>, Seq<T>)
    decreases ops.len(),
{
    if ops.len() == 0 {
        (Seq::empty(), items)
    } else {
        let (out, rest) = op_step(items, ops[0]);
        let (more, left) = run_ops(rest, ops.drop_first());
        (out + more, left)
    }
}

/// The items a run of operations puts in, in order.
pub open spec fn enqueued<T>(ops: Seq<QueueOp<T>>) -> Seq<T>
    decreases ops.len(),
{
    if ops.len() == 0 {
        Seq::empty()
    } else {
        match ops[0] {
            QueueOp::Enqueue(x) => seq![x] + enqueued(ops.drop_first()),
            QueueOp::Dequeue => enqueued(ops.drop_first()),
        }
    }
}

/// First in, first out: over any run of enqueues and dequeues on a queue that
/// is not signalled, what comes out, followed by what is left, is what was
/// there followed by what went in, in the order it went in.
pub proof fn lemma_fifo<T>(items: Seq<T>, ops: Seq<QueueOp<T>>)
    ensures
        run_ops(items, ops).0 + run_ops(items, ops).1 == items + enqueued(ops),
    decreases ops.len(),
{
    if ops.len() > 0 {
        let (out, rest) = op_step(items, ops[0]);
        lemma_fifo(rest, ops.drop_first());
        match ops[0] {
            QueueOp::Enqueue(x) => {
                assert(items.push(x) + enqueued(ops.drop_first()) =~= items + (seq![x] + enqueued(
                    ops.drop_first(),
                )));
            },
            QueueOp::Dequeue => {
                if items.len() > 0 {
                    assert(items =~= seq![items[0]] + items.drop_first());
                }
            },
        }
        let (more, left) = run_ops(rest, ops.drop_first());
        assert(out + more + left =~= out + (more + left));
        assert(items + enqueued(ops) =~= out + (rest + enqueued(ops.drop_first())));
    } else {
        assert(run_ops(items, ops).0 + run_ops(items, ops).1 =~= items + enqueued(ops));
    }
}

/// Setting the flag releases a waiting dequeue with `StatusNotOk`, even while
/// items remain, and leaves the items in place.
pub proof fn lemma_signal_releases_dequeue<T>(before: ThreadSafeQueue<T>, after: ThreadSafeQueue<T>)
    requires
        !before.poisoned(),
        after.signalled(),
        before.agrees_except_signal(&after),
    ensures
        !after.waits(),
        after.dequeue_outcome() == Err::<T, ThreadSafeQueueError>(ThreadSafeQueueError::StatusNotOk),
        after.items() == before.items(),
{
}

} // verus!

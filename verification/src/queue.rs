//! The bounded FIFO delivery queue.
//!
//! The queue decouples ingestion latency from downstream consumption. Enqueue
//! never blocks: it succeeds immediately while the queue is below capacity and
//! fails immediately with a backpressure signal once the queue is full, so the
//! ingestion path's latency is independent of downstream health. Dequeue hands
//! records out in acceptance order (FIFO). Waiting for a non-empty queue, and
//! any locking around concurrent use, live outside the library: every
//! operation here returns at once.

use vstd::prelude::*;

use crate::record::MachineStatusRecord;

verus! {

/// The queue is saturated: the record was not buffered and the caller
/// should retry later.
#[derive(Clone, Copy, Debug, PartialEq, Eq, Structural)]
pub struct BackpressureError {}

/// What enqueueing a record does to the queue's contents: the record is
/// appended when the queue is below capacity, else nothing changes.
pub open spec fn enqueue_model(
    s: Seq<MachineStatusRecord>,
    capacity: int,
    r: MachineStatusRecord,
) -> Seq<MachineStatusRecord> {
    if s.len() < capacity {
        s.push(r)
    } else {
        s
    }
}

/// What dequeueing does to the queue's contents: the oldest record leaves
/// first; an empty queue is unchanged.
pub open spec fn dequeue_model(s: Seq<MachineStatusRecord>) -> Seq<MachineStatusRecord> {
    if s.len() == 0 {
        s
    } else {
        s.drop_first()
    }
}

/// A bounded, ordered buffer of accepted records awaiting delivery.
pub struct DeliveryQueue {
    items: Vec<MachineStatusRecord>,
    capacity: usize,
}

impl View for DeliveryQueue {
    type V = Seq<MachineStatusRecord>;

    closed spec fn view(&self) -> Seq<MachineStatusRecord> {
        self.items@
    }
}

impl DeliveryQueue {
    /// The configured capacity: the queue never holds more records than this.
    pub closed spec fn spec_capacity(&self) -> int {
        self.capacity as int
    }

    /// The queue never holds more records than its capacity.
    pub closed spec fn wf(&self) -> bool {
        self@.len() <= self.spec_capacity()
    }

    /// An empty queue with the given capacity.
    pub fn new(capacity: usize) -> (q: DeliveryQueue)
        ensures
            q@ == Seq::<MachineStatusRecord>::empty(),
            q.spec_capacity() == capacity as int,
            q.wf(),
    {
        DeliveryQueue { items: Vec::new(), capacity }
    }

    /// How many records are waiting.
    pub fn len(&self) -> (n: usize)
        ensures
            n == self@.len(),
    {
        self.items.len()
    }

    /// The configured capacity.
    pub fn capacity(&self) -> (n: usize)
        ensures
            n == self.spec_capacity(),
    {
        self.capacity
    }

    /// Whether the queue is saturated: the next enqueue would be refused.
    pub fn is_full(&self) -> (full: bool)
        ensures
            full == (self@.len() >= self.spec_capacity()),
    {
        self.items.len() >= self.capacity
    }

    /// Non-blocking enqueue: appends the record and succeeds while the queue
    /// is below capacity; once full, fails immediately with a backpressure
    /// signal and leaves the queue unchanged — it never waits for room.
    pub fn try_enqueue(&mut self, r: MachineStatusRecord) -> (res: Result<
        (),
        BackpressureError,
    >)
        requires
            old(self).wf(),
        ensures
            final(self).wf(),
            final(self).spec_capacity() == old(self).spec_capacity(),
            final(self)@ == enqueue_model(old(self)@, old(self).spec_capacity(), r),
            res is Ok <==> old(self)@.len() < old(self).spec_capacity(),
    {
        if self.items.len() < self.capacity {
            self.items.push(r);
            Ok(())
        } else {
            Err(BackpressureError {})
        }
    }

    /// Dequeue the oldest record, or `None` when the queue is empty. Records
    /// leave in the order they were enqueued.
    pub fn dequeue(&mut self) -> (res: Option<MachineStatusRecord>)
        requires
            old(self).wf(),
        ensures
            final(self).wf(),
            final(self).spec_capacity() == old(self).spec_capacity(),
            final(self)@ == dequeue_model(old(self)@),
            match res {
                Some(r) => old(self)@.len() > 0 && r == old(self)@[0],
                None => old(self)@.len() == 0,
            },
    {
        if self.items.len() == 0 {
            None
        } else {
            Some(self.items.remove(0))
        }
    }
}

/// Records enqueued in order `a`, `b`, `c` into a queue with room for them
/// leave the queue in order `a`, `b`, `c`: the first three dequeues after
/// draining what was already buffered return exactly `a`, then `b`, then `c`.
pub proof fn lemma_fifo_order(
    s: Seq<MachineStatusRecord>,
    capacity: int,
    a: MachineStatusRecord,
    b: MachineStatusRecord,
    c: MachineStatusRecord,
)
    requires
        s.len() + 3 <= capacity,
    ensures
        ({
            let after = enqueue_model(enqueue_model(enqueue_model(s, capacity, a), capacity, b), capacity, c);
            &&& after.len() == s.len() + 3
            &&& after[s.len() as int] == a
            &&& after[s.len() as int + 1] == b
            &&& after[s.len() as int + 2] == c
            &&& forall|i: int| 0 <= i < s.len() ==> after[i] == s[i]
            &&& ({
                let drained = after.skip(s.len() as int);
                &&& drained[0] == a
                &&& dequeue_model(drained)[0] == b
                &&& dequeue_model(dequeue_model(drained))[0] == c
            })
        }),
{
}

} // verus!

//! The scancode queue: a bounded event channel between interrupt context
//! (producer) and task context (consumer), plus its wake signal.
//!
//! The producer side never blocks and never panics: a push onto a full queue
//! drops the newest byte and counts it. At most one consumer interest is
//! registered at a time; a successful push takes that interest and hands it
//! back to the caller so the woken task can be marked ready. The consumer
//! polls with the classic race-free pattern: check, register interest,
//! check again, then suspend.

use vstd::prelude::*;

use crate::task::TaskId;

verus! {

/// How many scancodes the queue holds before it starts dropping.
pub const SCANCODE_QUEUE_CAPACITY: usize = 100;

/// Mathematical model of the scancode queue.
#[verifier::ext_equal]
pub struct QueueModel {
    /// Queued bytes, oldest first.
    pub scancodes: Seq<u8>,
    /// Fixed bound on how many bytes may be queued at once.
    pub capacity: nat,
    /// How many pushes were dropped on overflow (saturating at `u64::MAX`).
    pub dropped: nat,
    /// The consumer interest registered right now, if any.
    pub waker: Option<TaskId>,
}

impl QueueModel {
    /// Well-formedness: a positive bound that the contents never exceed.
    pub open spec fn inv(self) -> bool {
        1 <= self.capacity && self.scancodes.len() <= self.capacity
    }
}

/// The queue as created at boot: empty, nothing dropped, no interest.
pub open spec fn empty_queue(capacity: nat) -> QueueModel {
    QueueModel { scancodes: Seq::<u8>::empty(), capacity: capacity, dropped: 0, waker: None }
}

/// Whether a push finds room.
pub open spec fn spec_push_accepted(q: QueueModel) -> bool {
    q.scancodes.len() < q.capacity
}

/// The dropped-event counter after one more drop (saturating).
pub open spec fn sat_inc(d: nat) -> nat {
    if d < u64::MAX { d + 1 } else { d }
}

/// The queue after a push: appended when there is room, else unchanged but
/// for the drop counter. A successful push consumes the registered interest.
pub open spec fn spec_push(q: QueueModel, scancode: u8) -> QueueModel {
    if spec_push_accepted(q) {
        QueueModel {
            scancodes: q.scancodes.push(scancode),
            capacity: q.capacity,
            dropped: q.dropped,
            waker: None,
        }
    } else {
        QueueModel {
            scancodes: q.scancodes,
            capacity: q.capacity,
            dropped: sat_inc(q.dropped),
            waker: q.waker,
        }
    }
}

/// The interest a push fires: the registered one, on success only.
pub open spec fn spec_push_woken(q: QueueModel) -> Option<TaskId> {
    if spec_push_accepted(q) {
        q.waker
    } else {
        None
    }
}

/// What a pop returns: the oldest byte, if any.
pub open spec fn spec_pop_result(q: QueueModel) -> Option<u8> {
    if q.scancodes.len() == 0 {
        None
    } else {
        Some(q.scancodes[0])
    }
}

/// The queue after a pop: the oldest byte removed, if there was one.
pub open spec fn spec_pop(q: QueueModel) -> QueueModel {
    if q.scancodes.len() == 0 {
        q
    } else {
        QueueModel {
            scancodes: q.scancodes.skip(1),
            capacity: q.capacity,
            dropped: q.dropped,
            waker: q.waker,
        }
    }
}

/// What a consumer poll returns and leaves behind: the oldest byte when one
/// is queued; otherwise nothing, with the consumer's interest registered.
pub open spec fn spec_poll(q: QueueModel, id: TaskId) -> (Option<u8>, QueueModel) {
    if q.scancodes.len() > 0 {
        (spec_pop_result(q), spec_pop(q))
    } else {
        (
            None,
            QueueModel {
                scancodes: q.scancodes,
                capacity: q.capacity,
                dropped: q.dropped,
                waker: Some(id),
            },
        )
    }
}

/// The queue after a whole run of pushes, first byte first.
pub open spec fn spec_push_all(q: QueueModel, s: Seq<u8>) -> QueueModel
    decreases s.len(),
{
    if s.len() == 0 {
        q
    } else {
        spec_push_all(spec_push(q, s[0]), s.skip(1))
    }
}

/// The bytes a full drain of the queue returns, in pop order.
pub open spec fn spec_drain(q: QueueModel) -> Seq<u8>
    decreases q.scancodes.len(),
{
    if q.scancodes.len() == 0 {
        Seq::<u8>::empty()
    } else {
        seq![q.scancodes[0]] + spec_drain(spec_pop(q))
    }
}

/// The bounded producer-side queue with its wake signal.
pub struct ScancodeQueue {
    items: Vec<u8>,
    capacity: usize,
    dropped: u64,
    waker: Option<TaskId>,
}

impl View for ScancodeQueue {
    type V = QueueModel;

    closed spec fn view(&self) -> QueueModel {
        QueueModel {
            scancodes: self.items@,
            capacity: self.capacity as nat,
            dropped: self.dropped as nat,
            waker: self.waker,
        }
    }
}

impl ScancodeQueue {
    /// Well-formedness of the running queue.
    pub open spec fn wf(&self) -> bool {
        self@.inv()
    }

    /// Creates the queue, exactly once at boot, before interrupts are
    /// unmasked; it lives for the kernel's lifetime and is never destroyed.
    pub fn new(capacity: usize) -> (q: ScancodeQueue)
        requires
            1 <= capacity,
        ensures
            q.wf(),
            q@ == empty_queue(capacity as nat),
    {
        let q = ScancodeQueue { items: Vec::new(), capacity: capacity, dropped: 0, waker: None };
        proof {
            assert(q@ =~= empty_queue(capacity as nat));
        }
        q
    }

    /// Producer side, run in interrupt context: a non-blocking insert that
    /// never panics. Returns whether the byte was queued, and the consumer
    /// interest to fire (taken from the queue on success).
    pub fn push(&mut self, scancode: u8) -> (r: (bool, Option<TaskId>))
        requires
            old(self).wf(),
        ensures
            final(self).wf(),
            final(self)@ == spec_push(old(self)@, scancode),
            r.0 == spec_push_accepted(old(self)@),
            r.1 == spec_push_woken(old(self)@),
    {
        if self.items.len() < self.capacity {
            self.items.push(scancode);
            let woken = self.waker;
            self.waker = None;
            proof {
                assert(self@ =~= spec_push(old(self)@, scancode));
            }
            (true, woken)
        } else {
            if self.dropped < u64::MAX {
                self.dropped = self.dropped + 1;
            }
            proof {
                assert(self@ =~= spec_push(old(self)@, scancode));
            }
            (false, None)
        }
    }

    /// Removes and returns the oldest byte, if any.
    pub fn pop(&mut self) -> (r: Option<u8>)
        requires
            old(self).wf(),
        ensures
            final(self).wf(),
            final(self)@ == spec_pop(old(self)@),
            r == spec_pop_result(old(self)@),
    {
        if self.items.len() > 0 {
            let b = self.items.remove(0);
            proof {
                assert(self.items@ =~= old(self)@.scancodes.skip(1));
                assert(self@ =~= spec_pop(old(self)@));
            }
            Some(b)
        } else {
            None
        }
    }

    /// Consumer side: returns the oldest byte if one is queued; otherwise
    /// registers `id`'s interest and returns nothing, so the caller suspends.
    ///
    /// Registration is followed by a re-check, so a push that lands between
    /// the first check and the registration cannot be missed.
    pub fn poll_next(&mut self, id: TaskId) -> (r: Option<u8>)
        requires
            old(self).wf(),
        ensures
            final(self).wf(),
            final(self)@ == spec_poll(old(self)@, id).1,
            r == spec_poll(old(self)@, id).0,
    {
        let first = self.pop();
        if first.is_some() {
            return first;
        }
        self.waker = Some(id);
        let second = self.pop();
        if second.is_some() {
            self.waker = None;
            return second;
        }
        None
    }

    /// How many bytes are queued.
    pub fn len(&self) -> (r: usize)
        ensures
            r == self@.scancodes.len(),
    {
        self.items.len()
    }

    /// The queued bytes, oldest first.
    pub fn contents(&self) -> (r: &Vec<u8>)
        ensures
            r@ == self@.scancodes,
    {
        &self.items
    }

    /// The fixed bound.
    pub fn capacity(&self) -> (r: usize)
        ensures
            r == self@.capacity,
    {
        self.capacity
    }

    /// How many pushes were dropped on overflow so far.
    pub fn dropped_count(&self) -> (r: u64)
        ensures
            r == self@.dropped,
    {
        self.dropped
    }

    /// The consumer interest registered right now, if any.
    pub fn registered_waker(&self) -> (r: Option<TaskId>)
        ensures
            r == self@.waker,
    {
        self.waker
    }
}

/// Pushes that stay within capacity are all accepted: they append in order
/// and drop nothing.
pub proof fn lemma_pushes_within_capacity(q: QueueModel, s: Seq<u8>)
    requires
        q.inv(),
        q.scancodes.len() + s.len() <= q.capacity,
    ensures
        spec_push_all(q, s).scancodes == q.scancodes + s,
        spec_push_all(q, s).capacity == q.capacity,
        spec_push_all(q, s).dropped == q.dropped,
    decreases s.len(),
{
    if s.len() == 0 {
        assert(q.scancodes + s =~= q.scancodes);
    } else {
        let q1 = spec_push(q, s[0]);
        lemma_pushes_within_capacity(q1, s.skip(1));
        assert(q.scancodes.push(s[0]) + s.skip(1) =~= q.scancodes + s);
    }
}

/// A run of pushes lands as the concatenation of its two halves, pushed in turn.
pub proof fn lemma_push_all_append(q: QueueModel, s1: Seq<u8>, s2: Seq<u8>)
    ensures
        spec_push_all(q, s1 + s2) == spec_push_all(spec_push_all(q, s1), s2),
    decreases s1.len(),
{
    if s1.len() == 0 {
        assert(s1 + s2 =~= s2);
    } else {
        let q1 = spec_push(q, s1[0]);
        assert((s1 + s2).skip(1) =~= s1.skip(1) + s2);
        lemma_push_all_append(q1, s1.skip(1), s2);
    }
}

/// A full drain returns exactly the queued bytes, oldest first.
pub proof fn lemma_drain_yields_contents(q: QueueModel)
    ensures
        spec_drain(q) == q.scancodes,
    decreases q.scancodes.len(),
{
    if q.scancodes.len() == 0 {
        assert(spec_drain(q) =~= q.scancodes);
    } else {
        lemma_drain_yields_contents(spec_pop(q));
        assert(seq![q.scancodes[0]] + q.scancodes.skip(1) =~= q.scancodes);
    }
}

/// Law: any run of pushes that does not exceed capacity, drained through the
/// consumer path, yields exactly the pushed bytes in push order.
pub proof fn lemma_fifo_round_trip(capacity: nat, s: Seq<u8>)
    requires
        1 <= capacity,
        s.len() <= capacity,
    ensures
        spec_push_all(empty_queue(capacity), s).scancodes == s,
        spec_drain(spec_push_all(empty_queue(capacity), s)) == s,
        spec_push_all(empty_queue(capacity), s).dropped == 0,
{
    lemma_pushes_within_capacity(empty_queue(capacity), s);
    assert(Seq::<u8>::empty() + s =~= s);
    lemma_drain_yields_contents(spec_push_all(empty_queue(capacity), s));
}

/// Law: pushing one byte more than capacity drops that newest byte and
/// leaves the oldest `capacity` bytes intact and in order.
pub proof fn lemma_overflow_drops_newest(capacity: nat, s: Seq<u8>)
    requires
        1 <= capacity,
        s.len() == capacity + 1,
    ensures
        spec_push_all(empty_queue(capacity), s).scancodes == s.take(capacity as int),
        spec_push_all(empty_queue(capacity), s).dropped == 1,
{
    let kept = s.take(capacity as int);
    let last = seq![s[capacity as int]];
    assert(s =~= kept + last);
    lemma_push_all_append(empty_queue(capacity), kept, last);
    lemma_pushes_within_capacity(empty_queue(capacity), kept);
    let q1 = spec_push_all(empty_queue(capacity), kept);
    assert(Seq::<u8>::empty() + kept =~= kept);
    assert(q1.scancodes.len() == capacity);
    let q2 = spec_push(q1, last[0]);
    assert(spec_push_all(q1, last) == spec_push_all(q2, last.skip(1)));
    assert(last.skip(1).len() == 0);
    assert(spec_push_all(q2, last.skip(1)) == q2);
}

/// Law: no missed wakeup. Interest registered while the queue is empty is
/// fired by the very next successful push, and the woken consumer's next
/// poll observes the pushed byte.
pub proof fn lemma_wake_registered_before_push_fires(q: QueueModel, id: TaskId, scancode: u8)
    requires
        q.inv(),
        q.scancodes.len() == 0,
        q.waker == Some(id),
    ensures
        spec_push_accepted(q),
        spec_push_woken(q) == Some(id),
        spec_poll(spec_push(q, scancode), id).0 == Some(scancode),
{
}

} // verus!

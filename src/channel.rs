//! The bounded FIFO channel between the trigger listener and the dispatcher.
//!
//! A send into a full channel is refused and hands the trigger back: the
//! listener then waits for a free slot and does not read the socket
//! meanwhile. Nothing is dropped and nothing is reordered.
use vstd::prelude::*;

verus! {

pub struct TriggerChannel {
    items: Vec<usize>,
    capacity: usize,
}

/// What a send does to the queued triggers, and whether it was taken.
pub open spec fn send_spec(q: Seq<usize>, capacity: nat, id: usize) -> (Seq<usize>, bool) {
    if q.len() < capacity {
        (q.push(id), true)
    } else {
        (q, false)
    }
}

/// The queue after sending each of `ids` in turn, and how many were taken.
pub open spec fn send_all(q: Seq<usize>, capacity: nat, ids: Seq<usize>) -> (Seq<usize>, nat)
    decreases ids.len(),
{
    if ids.len() == 0 {
        (q, 0)
    } else {
        let (q1, taken) = send_all(q, capacity, ids.drop_last());
        let (q2, ok) = send_spec(q1, capacity, ids.last());
        (q2, if ok { taken + 1 } else { taken })
    }
}

impl View for TriggerChannel {
    type V = Seq<usize>;

    closed spec fn view(&self) -> Seq<usize> {
        self.items@
    }
}

impl TriggerChannel {
    pub closed spec fn spec_capacity(&self) -> nat {
        self.capacity as nat
    }

    pub closed spec fn wf(&self) -> bool {
        self.items@.len() <= self.capacity
    }

    pub fn new(capacity: usize) -> (r: TriggerChannel)
        ensures
            r.wf(),
            r@.len() == 0,
            r.spec_capacity() == capacity,
    {
        TriggerChannel { items: Vec::new(), capacity }
    }

    pub fn capacity(&self) -> (r: usize)
        ensures
            r == self.spec_capacity(),
    {
        self.capacity
    }

    pub fn len(&self) -> (r: usize)
        ensures
            r == self@.len(),
    {
        self.items.len()
    }

    /// Queues a trigger where there is room; otherwise leaves the channel as
    /// it is and hands the trigger back, for the sender to retry once a slot
    /// is free.
    pub fn try_send(&mut self, id: usize) -> (r: Result<(), usize>)
        requires
            old(self).wf(),
        ensures
            final(self).wf(),
            final(self).spec_capacity() == old(self).spec_capacity(),
            (final(self)@, r is Ok) == send_spec(old(self)@, old(self).spec_capacity(), id),
            r matches Err(back) ==> back == id,
    {
        if self.items.len() < self.capacity {
            self.items.push(id);
            Ok(())
        } else {
            Err(id)
        }
    }

    /// Takes the oldest queued trigger, if any.
    pub fn recv(&mut self) -> (r: Option<usize>)
        requires
            old(self).wf(),
        ensures
            final(self).wf(),
            final(self).spec_capacity() == old(self).spec_capacity(),
            old(self)@.len() == 0 ==> r is None && final(self)@ == old(self)@,
            old(self)@.len() > 0 ==> r == Some(old(self)@[0]) && final(self)@ == old(self)@.drop_first(),
    {
        if self.items.len() == 0 {
            None
        } else {
            Some(self.items.remove(0))
        }
    }
}

/// Sending one more trigger than the capacity into an empty channel takes
/// the first `capacity` triggers, in order, and refuses the last one
/// without dropping or changing anything queued.
pub proof fn law_overfull_send_is_refused(capacity: nat, ids: Seq<usize>)
    requires
        ids.len() == capacity + 1,
    ensures
        send_all(Seq::empty(), capacity, ids.drop_last()) == (ids.drop_last(), capacity),
        send_spec(ids.drop_last(), capacity, ids.last()) == (ids.drop_last(), false),
        send_all(Seq::empty(), capacity, ids) == (ids.drop_last(), capacity),
{
    lemma_send_all_fits(capacity, ids.drop_last());
}

proof fn lemma_send_all_fits(capacity: nat, ids: Seq<usize>)
    requires
        ids.len() <= capacity,
    ensures
        send_all(Seq::empty(), capacity, ids) == (ids, ids.len()),
    decreases ids.len(),
{
    if ids.len() > 0 {
        lemma_send_all_fits(capacity, ids.drop_last());
        assert(ids.drop_last().push(ids.last()) =~= ids);
    } else {
        assert(ids =~= Seq::<usize>::empty());
    }
}

/// Triggers leave the channel in the order they were sent: two triggers
/// sent into an empty channel come out first `a`, then `b`.
pub proof fn law_fifo_order(capacity: nat, a: usize, b: usize)
    requires
        capacity >= 2,
    ensures
        ({
            let (q1, ok1) = send_spec(Seq::empty(), capacity, a);
            let (q2, ok2) = send_spec(q1, capacity, b);
            ok1 && ok2 && q2 == seq![a, b] && q2[0] == a && q2.drop_first()[0] == b
        }),
{
    assert(Seq::<usize>::empty().push(a).push(b) =~= seq![a, b]);
}

} // verus!

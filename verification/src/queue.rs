//! The delivery queue: a priority collection of packets ordered by ascending
//! release time. `peek` and `pop` always yield a packet whose release time is
//! minimal among all queued packets; packets with equal release times leave
//! in insertion order.

use vstd::prelude::*;
use vstd::seq_lib::group_to_multiset_ensures;
use crate::packet::Packet;

verus! {

/// Sorted with the latest release time first, so the earliest due packet is
/// at the end.
pub open spec fn time_sorted(s: Seq<Packet>) -> bool {
    forall|i: int, j: int|
        0 <= i <= j < s.len() ==> (#[trigger] s[i]).exit_time >= (#[trigger] s[j]).exit_time
}

/// Every queued packet's buffer is well formed.
pub open spec fn buffers_wf(s: Seq<Packet>) -> bool {
    forall|i: int| 0 <= i < s.len() ==> (#[trigger] s[i]).data.wf()
}

/// Where a packet joins a queue sorted latest-first: after every packet due
/// strictly later, before every packet due no later. Packets with equal
/// release times thus keep their insertion order.
pub open spec fn insertion_point(s: Seq<Packet>, p: Packet) -> int
    decreases s.len(),
{
    if s.len() == 0 {
        0
    } else if s[0].exit_time > p.exit_time {
        1 + insertion_point(s.drop_first(), p)
    } else {
        0
    }
}

proof fn lemma_insertion_point_is_first(s: Seq<Packet>, p: Packet, i: int)
    requires
        0 <= i <= s.len(),
        forall|k: int| 0 <= k < i ==> (#[trigger] s[k]).exit_time > p.exit_time,
        i < s.len() ==> s[i].exit_time <= p.exit_time,
    ensures
        insertion_point(s, p) == i,
    decreases s.len(),
{
    if s.len() == 0 {
    } else if s[0].exit_time > p.exit_time {
        assert(i >= 1);
        lemma_insertion_point_is_first(s.drop_first(), p, i - 1);
    } else {
        assert(i == 0);
    }
}

/// A time-ordered collection of packets.
pub struct Queue {
    items: Vec<Packet>,
}

impl Queue {
    /// The queued packets; the earliest due packet is last.
    pub closed spec fn view(self) -> Seq<Packet> {
        self.items@
    }

    /// Holds of every queue at all times: the packets stand sorted with the
    /// latest release time first, and their buffers are well formed.
    #[verifier::type_invariant]
    pub open spec fn wf(self) -> bool {
        time_sorted(self@) && buffers_wf(self@)
    }

    /// An empty queue.
    pub fn new() -> (r: Queue)
        ensures
            r@ == Seq::<Packet>::empty(),
    {
        let r = Queue { items: Vec::new() };
        proof {
            assert(r@ =~= Seq::<Packet>::empty());
        }
        r
    }

    /// How many packets are queued.
    pub fn len(&self) -> (r: usize)
        ensures
            r == self@.len(),
    {
        self.items.len()
    }

    /// Insert a packet: the queue afterwards holds exactly the old packets
    /// plus this one, at its insertion point, so equal release times keep
    /// insertion order.
    pub fn push(&mut self, p: Packet)
        requires
            p.data.wf(),
        ensures
            final(self)@ == old(self)@.insert(insertion_point(old(self)@, p), p),
            final(self)@.len() == old(self)@.len() + 1,
            final(self)@.to_multiset() == old(self)@.to_multiset().insert(p),
    {
        proof {
            use_type_invariant(&*self);
        }
        let mut items: Vec<Packet> = Vec::new();
        core::mem::swap(&mut items, &mut self.items);
        let ghost orig = items@;
        let mut i: usize = 0;
        while i < items.len() && items[i].exit_time > p.exit_time
            invariant
                items@ == orig,
                0 <= i <= items@.len(),
                forall|k: int| 0 <= k < i ==> (#[trigger] orig[k]).exit_time > p.exit_time,
            decreases items@.len() - i,
        {
            i = i + 1;
        }
        proof {
            if i < items.len() {
                assert(orig[i as int].exit_time <= p.exit_time);
            }
            lemma_insertion_point_is_first(orig, p, i as int);
        }
        items.insert(i, p);
        proof {
            broadcast use group_to_multiset_ensures;

            assert(time_sorted(items@));
            assert(buffers_wf(items@));
        }
        core::mem::swap(&mut items, &mut self.items);
    }

    /// A reference to the earliest due packet, if any: its release time is
    /// minimal among all queued packets.
    pub fn peek(&self) -> (r: Option<&Packet>)
        ensures
            (self@.len() == 0) == r is None,
            r matches Some(p) ==> *p == self@.last() && p.data.wf() && forall|i: int|
                0 <= i < self@.len() ==> p.exit_time <= (#[trigger] self@[i]).exit_time,
    {
        proof {
            use_type_invariant(&*self);
        }
        if self.items.len() == 0 {
            None
        } else {
            let i = self.items.len() - 1;
            Some(&self.items[i])
        }
    }

    /// Remove and return the earliest due packet, if any: its release time
    /// is minimal among all queued packets, and the rest are untouched.
    pub fn pop(&mut self) -> (r: Option<Packet>)
        ensures
            (old(self)@.len() == 0) == r is None,
            r is None ==> final(self)@ == old(self)@,
            r matches Some(p) ==> p == old(self)@.last() && final(self)@ == old(self)@.drop_last()
                && p.data.wf() && forall|i: int|
                0 <= i < old(self)@.len() ==> p.exit_time <= (#[trigger] old(self)@[i]).exit_time,
    {
        proof {
            use_type_invariant(&*self);
        }
        let mut items: Vec<Packet> = Vec::new();
        core::mem::swap(&mut items, &mut self.items);
        let r = items.pop();
        core::mem::swap(&mut items, &mut self.items);
        proof {
            if old(self)@.len() > 0 {
                assert(final(self)@ =~= old(self)@.drop_last());
            } else {
                assert(final(self)@ =~= old(self)@);
            }
        }
        r
    }
}

/// Law: consecutive pops yield non-decreasing release times. Of any queue
/// holding at least two packets, the packet popped first is due no later
/// than the packet popped right after it.
pub proof fn lemma_pops_time_ordered(s: Seq<Packet>)
    requires
        time_sorted(s),
        s.len() >= 2,
    ensures
        s.last().exit_time <= s.drop_last().last().exit_time,
{
}

} // verus!

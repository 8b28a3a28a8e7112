//! Bookkeeping of the dispatcher: a global concurrency ceiling and an
//! in-flight marker per target. A task may begin only while a concurrency
//! unit is free; a target already marked in flight is skipped without any
//! change of state.

use vstd::prelude::*;

verus! {

/// No value occurs twice.
pub open spec fn distinct_seq(s: Seq<u128>) -> bool {
    forall|i: int, j: int| 0 <= i < j < s.len() ==> s[i] != s[j]
}

/// The dispatcher's shared mutable state: the concurrency ceiling and the
/// set of targets currently executing. Each running probe holds exactly
/// one concurrency unit, so the in-flight count is also the number of
/// units in use.
#[derive(Clone, Debug)]
pub struct DispatchState {
    pub capacity: usize,
    pub in_flight: Vec<u128>,
}

impl DispatchState {
    /// Well-formedness: in-flight targets are distinct and never exceed
    /// the ceiling.
    pub open spec fn wf(self) -> bool {
        &&& distinct_seq(self.in_flight@)
        &&& self.in_flight@.len() <= self.capacity
    }

    /// Whether `target` is currently marked running.
    pub open spec fn spec_in_flight(self, target: u128) -> bool {
        self.in_flight@.contains(target)
    }

    /// Fresh state with the given concurrency ceiling and nothing running.
    pub fn new(capacity: usize) -> (r: DispatchState)
        ensures
            r.wf(),
            r.capacity == capacity,
            r.in_flight@.len() == 0,
    {
        DispatchState { capacity, in_flight: Vec::new() }
    }

    /// How many probes are currently executing.
    pub fn running_count(&self) -> (r: usize)
        ensures
            r == self.in_flight@.len(),
    {
        self.in_flight.len()
    }

    /// Whether `target` is currently marked running.
    pub fn is_in_flight(&self, target: u128) -> (r: bool)
        ensures
            r == self.spec_in_flight(target),
    {
        let len = self.in_flight.len();
        let mut i: usize = 0;
        while i < len
            invariant
                i <= len,
                len == self.in_flight@.len(),
                forall|k: int| 0 <= k < i ==> self.in_flight@[k] != target,
            decreases len - i,
        {
            if self.in_flight[i] == target {
                return true;
            }
            i += 1;
        }
        assert(!self.in_flight@.contains(target));
        false
    }

    /// Try to begin a probe against `target` while holding a free
    /// concurrency unit. If the target is already in flight the attempt is
    /// abandoned and the state is left exactly as it was; otherwise the
    /// target is marked running.
    pub fn try_begin(&mut self, target: u128) -> (r: bool)
        requires
            old(self).wf(),
            old(self).in_flight@.len() < old(self).capacity,
        ensures
            final(self).wf(),
            final(self).capacity == old(self).capacity,
            r == !old(self).spec_in_flight(target),
            r ==> final(self).in_flight@ == old(self).in_flight@.push(target),
            !r ==> *final(self) == *old(self),
            final(self).spec_in_flight(target),
    {
        if self.is_in_flight(target) {
            false
        } else {
            self.in_flight.push(target);
            assert(final(self).in_flight@.last() == target);
            true
        }
    }

    /// Mark a finished probe's target as no longer running, releasing its
    /// concurrency unit.
    pub fn finish(&mut self, target: u128)
        requires
            old(self).wf(),
            old(self).spec_in_flight(target),
        ensures
            final(self).wf(),
            final(self).capacity == old(self).capacity,
            !final(self).spec_in_flight(target),
            forall|x: u128|
                x != target ==> final(self).spec_in_flight(x) == old(self).spec_in_flight(x),
            final(self).in_flight@.len() == old(self).in_flight@.len() - 1,
    {
        let len = self.in_flight.len();
        let ghost orig = self.in_flight@;
        let ghost cap = self.capacity;
        let mut i: usize = 0;
        while i < len
            invariant_except_break
                i <= len,
                len == self.in_flight@.len(),
                self.in_flight@ == orig,
                forall|k: int| 0 <= k < i ==> orig[k] != target,
            invariant
                self.capacity == cap,
                distinct_seq(orig),
                orig.len() <= cap,
                orig.contains(target),
            ensures
                self.capacity == cap,
                self.in_flight@.len() == orig.len() - 1,
                distinct_seq(self.in_flight@),
                !self.in_flight@.contains(target),
                forall|x: u128|
                    x != target ==> self.in_flight@.contains(x) == orig.contains(x),
            decreases len - i,
        {
            if self.in_flight[i] == target {
                self.in_flight.remove(i);
                proof {
                    let s = self.in_flight@;
                    assert(s =~= orig.subrange(0, i as int) + orig.subrange(
                        i + 1,
                        orig.len() as int,
                    ));
                    assert(forall|k: int|
                        0 <= k < s.len() ==> s[k] == (if k < i {
                            orig[k]
                        } else {
                            orig[k + 1]
                        }));
                    assert forall|a: int, b: int| 0 <= a < b < s.len() implies s[a] != s[b] by {
                        let a2: int = if a < i {
                            a
                        } else {
                            a + 1
                        };
                        let b2: int = if b < i {
                            b
                        } else {
                            b + 1
                        };
                        assert(s[a] == orig[a2] && s[b] == orig[b2] && a2 < b2);
                    }
                    assert forall|k: int| 0 <= k < s.len() implies s[k] != target by {
                        if k >= i {
                            assert(orig[i as int] == target && i < k + 1);
                        }
                    }
                    assert forall|x: u128| x != target implies (s.contains(x) == orig.contains(
                        x,
                    )) by {
                        if orig.contains(x) {
                            let j = choose|j: int| 0 <= j < orig.len() && orig[j] == x;
                            if j < i {
                                assert(s[j] == x);
                            } else {
                                assert(orig[i as int] == target);
                                assert(j != i);
                                assert(s[j - 1] == x);
                            }
                        }
                        if s.contains(x) {
                            let j = choose|j: int| 0 <= j < s.len() && s[j] == x;
                            if j < i {
                                assert(orig[j] == x);
                            } else {
                                assert(orig[j + 1] == x);
                            }
                        }
                    }
                }
                break ;
            }
            i += 1;
        }
    }

    /// At most `capacity` probes are ever marked running at once: the
    /// concurrency ceiling bounds simultaneous execution.
    pub proof fn lemma_bounded_concurrency(self)
        requires
            self.wf(),
        ensures
            self.in_flight@.len() <= self.capacity,
    {
    }
}

} // verus!

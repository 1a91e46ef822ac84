//! Closed integer intervals and their enumeration.

use vstd::prelude::*;

verus! {

/// A closed bound `[start, end]` on an integer dimension.
///
/// Both ends are inclusive. An interval whose `start` exceeds its `end`
/// holds no value: it is the empty domain, and a legitimate one.
#[derive(Clone, Copy, Debug)]
pub struct Interval {
    pub start: u64,
    pub end: u64,
}

/// Whether `s` grows strictly from each element to every later one.
pub open spec fn strictly_ascending(s: Seq<u64>) -> bool {
    forall|i: int, j: int| 0 <= i < j < s.len() ==> s[i] < s[j]
}

impl View for Interval {
    type V = Seq<u64>;

    /// The values of the interval, in ascending order.
    open spec fn view(&self) -> Seq<u64> {
        if self.start <= self.end {
            Seq::new((self.end - self.start + 1) as nat, |i: int| (self.start + i) as u64)
        } else {
            Seq::empty()
        }
    }
}

impl Interval {
    /// Whether `value` lies within the bounds.
    pub open spec fn contains(self, value: u64) -> bool {
        self.start <= value <= self.end
    }

    /// The interval of the values that lie in both `self` and `other`:
    /// the larger of the two starts and the smaller of the two ends.
    pub open spec fn spec_intersect(self, other: Interval) -> Interval {
        Interval {
            start: if self.start >= other.start { self.start } else { other.start },
            end: if self.end <= other.end { self.end } else { other.end },
        }
    }

    /// Intersects two intervals. The result never holds a value that either
    /// operand lacks; where the operands do not overlap it is empty.
    #[verifier::when_used_as_spec(spec_intersect)]
    pub fn intersect(self, other: Interval) -> (r: Interval)
        ensures
            r == self.spec_intersect(other),
            forall|v: u64| r.contains(v) <==> self.contains(v) && other.contains(v),
    {
        let start: u64 = if self.start >= other.start { self.start } else { other.start };
        let end: u64 = if self.end <= other.end { self.end } else { other.end };
        Interval { start, end }
    }

    /// Enumerates the interval: every integer from `start` to `end`, both
    /// included, in ascending order. An interval with `start > end` yields
    /// the empty vector.
    pub fn as_vec(self) -> (values: Vec<u64>)
        ensures
            values@ == self@,
            self.start > self.end ==> values@.len() == 0,
            self.start <= self.end ==> {
                &&& values@.len() == self.end - self.start + 1
                &&& values@.first() == self.start
                &&& values@.last() == self.end
            },
            strictly_ascending(values@),
            values@.no_duplicates(),
            forall|v: u64| values@.contains(v) <==> self.contains(v),
    {
        let mut values: Vec<u64> = Vec::new();
        if self.start > self.end {
            proof {
                self.lemma_view();
            }
            return values;
        }
        let mut next: u64 = self.start;
        loop
            invariant_except_break
                self.start <= next <= self.end,
                values@ == Seq::new((next - self.start) as nat, |i: int| (self.start + i) as u64),
            ensures
                values@ == self@,
            decreases self.end - next,
        {
            values.push(next);
            if next == self.end {
                break ;
            }
            next = next + 1;
        }
        proof {
            self.lemma_view();
        }
        values
    }

    /// What the enumeration of an interval looks like: its length, its two
    /// ends, its order, and which values occur in it.
    pub proof fn lemma_view(self)
        ensures
            self.start > self.end ==> self@.len() == 0,
            self.start <= self.end ==> {
                &&& self@.len() == self.end - self.start + 1
                &&& self@.first() == self.start
                &&& self@.last() == self.end
            },
            forall|i: int| 0 <= i < self@.len() ==> #[trigger] self@[i] == self.start + i,
            strictly_ascending(self@),
            self@.no_duplicates(),
            forall|v: u64| #[trigger] self@.contains(v) <==> self.contains(v),
    {
        assert forall|v: u64| self.contains(v) implies self@.contains(v) by {
            let i: int = v - self.start;
            assert(self@[i] == v);
        }
    }

    /// Intersection does not depend on the order of its operands.
    pub proof fn lemma_intersect_commutative(a: Interval, b: Interval)
        ensures
            a.spec_intersect(b) == b.spec_intersect(a),
    {
    }

    /// Intersection does not depend on how its operands are grouped.
    pub proof fn lemma_intersect_associative(a: Interval, b: Interval, c: Interval)
        ensures
            a.spec_intersect(b).spec_intersect(c) == a.spec_intersect(b.spec_intersect(c)),
    {
    }

    /// Narrowing a domain by `a` and then by `b` gives what narrowing it by
    /// `b` and then by `a` gives.
    pub proof fn lemma_intersect_order(domain: Interval, a: Interval, b: Interval)
        ensures
            domain.spec_intersect(a).spec_intersect(b) == domain.spec_intersect(b).spec_intersect(a),
    {
    }

    /// An intersection enumerates exactly the values that both operands
    /// enumerate, so it never holds a value that one of them lacks.
    pub proof fn lemma_intersect_view(a: Interval, b: Interval)
        ensures
            forall|v: u64|
                #[trigger] a.spec_intersect(b)@.contains(v) <==> a@.contains(v) && b@.contains(v),
    {
        a.lemma_view();
        b.lemma_view();
        a.spec_intersect(b).lemma_view();
    }
}

} // verus!

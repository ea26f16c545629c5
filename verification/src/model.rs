//! The mathematical model of bounds and intervals.
//!
//! Every bound type of the crate is viewed as a [`Limit`], every interval as
//! a [`Span`]. The bound algebra is defined here once, on the model; the
//! executable types implement it pair by pair and are verified against it.
use crate::order::{ge, gt, le, lt, same};
use vstd::prelude::*;

verus! {

/// One side of an interval: no bound at all, or a value that is excluded
/// (open) or included (closed).
pub enum Limit<V> {
    Unbounded,
    Open(V),
    Closed(V),
}

impl<V> Limit<V> {
    /// The value carried by the bound, if it has one.
    pub open spec fn value(self) -> Option<V> {
        match self {
            Limit::Unbounded => None,
            Limit::Open(v) => Some(v),
            Limit::Closed(v) => Some(v),
        }
    }

    pub open spec fn is_open(self) -> bool {
        self is Open
    }

    pub open spec fn is_closed(self) -> bool {
        self is Closed
    }

    /// The bound with its limit point included: a value-carrying bound
    /// becomes closed, the absence of a bound stays as it is.
    pub open spec fn with_limit_point(self) -> Limit<V> {
        match self {
            Limit::Unbounded => Limit::Unbounded,
            Limit::Open(v) => Limit::Closed(v),
            Limit::Closed(v) => Limit::Closed(v),
        }
    }
}

impl<V: PartialOrd> Limit<V> {
    /// The tighter of two lower bounds. `Unbounded` is the identity; of two
    /// bounds of one kind the one with the greater value wins, the first on a
    /// tie; of a closed and an open bound at the same value the open one wins.
    pub open spec fn pinch_left(self, other: Limit<V>) -> Limit<V> {
        match (self, other) {
            (Limit::Unbounded, _) => other,
            (_, Limit::Unbounded) => self,
            (Limit::Closed(x), Limit::Open(y)) => if gt(x, y) { self } else { other },
            (Limit::Open(x), Limit::Closed(y)) => if ge(x, y) { self } else { other },
            (Limit::Open(x), Limit::Open(y)) => if ge(x, y) { self } else { other },
            (Limit::Closed(x), Limit::Closed(y)) => if ge(x, y) { self } else { other },
        }
    }

    /// The tighter of two upper bounds: the mirror image of
    /// [`pinch_left`](Limit::pinch_left).
    pub open spec fn pinch_right(self, other: Limit<V>) -> Limit<V> {
        match (self, other) {
            (Limit::Unbounded, _) => other,
            (_, Limit::Unbounded) => self,
            (Limit::Closed(x), Limit::Open(y)) => if lt(x, y) { self } else { other },
            (Limit::Open(x), Limit::Closed(y)) => if le(x, y) { self } else { other },
            (Limit::Open(x), Limit::Open(y)) => if le(x, y) { self } else { other },
            (Limit::Closed(x), Limit::Closed(y)) => if le(x, y) { self } else { other },
        }
    }

    /// The looser of two lower bounds. `Unbounded` absorbs everything; of two
    /// bounds of one kind the one with the smaller value wins, the first on a
    /// tie; of a closed and an open bound at the same value the closed one
    /// wins.
    pub open spec fn unroll_left(self, other: Limit<V>) -> Limit<V> {
        match (self, other) {
            (Limit::Unbounded, _) => Limit::Unbounded,
            (_, Limit::Unbounded) => Limit::Unbounded,
            (Limit::Closed(x), Limit::Open(y)) => if le(x, y) { self } else { other },
            (Limit::Open(x), Limit::Closed(y)) => if lt(x, y) { self } else { other },
            (Limit::Open(x), Limit::Open(y)) => if le(x, y) { self } else { other },
            (Limit::Closed(x), Limit::Closed(y)) => if le(x, y) { self } else { other },
        }
    }

    /// The looser of two upper bounds: the mirror image of
    /// [`unroll_left`](Limit::unroll_left).
    pub open spec fn unroll_right(self, other: Limit<V>) -> Limit<V> {
        match (self, other) {
            (Limit::Unbounded, _) => Limit::Unbounded,
            (_, Limit::Unbounded) => Limit::Unbounded,
            (Limit::Closed(x), Limit::Open(y)) => if ge(x, y) { self } else { other },
            (Limit::Open(x), Limit::Closed(y)) => if gt(x, y) { self } else { other },
            (Limit::Open(x), Limit::Open(y)) => if ge(x, y) { self } else { other },
            (Limit::Closed(x), Limit::Closed(y)) => if ge(x, y) { self } else { other },
        }
    }

    /// Taken as a lower bound, this bound lets `v` in.
    pub open spec fn lower_admits(self, v: V) -> bool {
        match self {
            Limit::Unbounded => true,
            Limit::Open(l) => gt(v, l),
            Limit::Closed(l) => ge(v, l),
        }
    }

    /// Taken as an upper bound, this bound lets `v` in.
    pub open spec fn upper_admits(self, v: V) -> bool {
        match self {
            Limit::Unbounded => true,
            Limit::Open(r) => lt(v, r),
            Limit::Closed(r) => le(v, r),
        }
    }
}

/// The ordering rule for a pair of bounds. A pair with an `Unbounded` side is
/// always in order. Two closed bounds are out of order when the left value is
/// greater than the right one; with an open bound among them, also when the
/// two values are equal.
pub open spec fn in_order<V: PartialOrd>(left: Limit<V>, right: Limit<V>) -> bool {
    match (left, right) {
        (Limit::Unbounded, _) => true,
        (_, Limit::Unbounded) => true,
        (Limit::Closed(l), Limit::Closed(r)) => !gt(l, r),
        (Limit::Closed(l), Limit::Open(r)) => !ge(l, r),
        (Limit::Open(l), Limit::Closed(r)) => !ge(l, r),
        (Limit::Open(l), Limit::Open(r)) => !ge(l, r),
    }
}

/// An interval: a lower and an upper bound.
pub struct Span<V> {
    pub left: Limit<V>,
    pub right: Limit<V>,
}

impl<V> Span<V> {
    /// The interval without bounds: the whole value domain.
    pub open spec fn unbounded() -> Span<V> {
        Span { left: Limit::Unbounded, right: Limit::Unbounded }
    }
}

impl<V: PartialOrd> Span<V> {
    /// The bounds obey the ordering rule.
    pub open spec fn valid(self) -> bool {
        in_order(self.left, self.right)
    }

    /// The intersection: both sides pinched, and nothing where the pinched
    /// bounds are out of order.
    pub open spec fn intersect(self, other: Span<V>) -> Option<Span<V>> {
        let left = self.left.pinch_left(other.left);
        let right = self.right.pinch_right(other.right);
        if in_order(left, right) {
            Some(Span { left, right })
        } else {
            None
        }
    }

    /// The closure of the union: both sides unrolled, then closed.
    pub open spec fn union_closure(self, other: Span<V>) -> Span<V> {
        Span {
            left: self.left.unroll_left(other.left).with_limit_point(),
            right: self.right.unroll_right(other.right).with_limit_point(),
        }
    }

    pub open spec fn contains(self, v: V) -> bool {
        self.left.lower_admits(v) && self.right.upper_admits(v)
    }

    /// Both bounds are closed and `==` holds their values equal.
    pub open spec fn is_degenerate(self) -> bool {
        match (self.left, self.right) {
            (Limit::Closed(l), Limit::Closed(r)) => same(l, r),
            _ => false,
        }
    }
}

} // verus!

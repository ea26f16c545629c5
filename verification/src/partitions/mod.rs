//! Module containing interval partition utilities.
use crate::bounds;
use crate::scalar;
use crate::scalar::{is_one, may_be_quotient, may_be_sum};
use crate::Interval;
use num_traits::One;
use std::ops::{Add, Div, Sub};
use vstd::pervasive::cloned;
use vstd::prelude::*;
use vstd::std_specs::ops::{AddSpec, DivSpec, SubSpec};

pub mod declarative;
pub mod display;
pub mod integers;
pub mod uniform;

pub use self::declarative::Declarative;
pub use self::uniform::Uniform;

verus! {

/// The reason a partition is refused.
#[derive(Debug)]
pub enum PartitionError<B> {
    /// The breakpoints, handed back, do not ascend.
    IllFormedBounds(B),
}

/// Type representing a single subinterval of a partition.
#[derive(Debug, Clone, Copy, PartialEq)]
pub struct SubInterval<V: PartialOrd> {
    /// The index of the subinterval.
    pub index: usize,
    /// The interval corresponding to this subinterval.
    pub interval: Interval<bounds::Closed<V>, bounds::OpenOrClosed<V>>,
}

impl<V: PartialOrd> SubInterval<V> {
    /// The value at the left edge.
    pub open spec fn lower(&self) -> V {
        self.interval.left.0
    }

    /// The value at the right edge, be it included or not.
    pub open spec fn upper(&self) -> V {
        self.interval.right.inner()
    }
}

impl<V: PartialOrd + Clone + Add<Output = V> + Div<Output = V>> SubInterval<V> {
    /// `mid` is the sum of the two edges, each cloned first, divided by
    /// `two`.
    pub open spec fn halves(&self, two: V, mid: V) -> bool {
        exists|l: V, r: V, sum: V|
            #![trigger may_be_sum(l, r, sum)]
            {
                &&& cloned(self.lower(), l)
                &&& cloned(self.upper(), r)
                &&& may_be_sum(l, r, sum)
                &&& may_be_quotient(sum, two, mid)
            }
    }

    /// `V` admits the operations that halve the subinterval: the addition of
    /// the two edges, and the division of what comes of it by `two`.
    pub open spec fn admits_halving(&self, two: V) -> bool {
        forall|l: V, r: V|
            #![trigger l.add_req(r)]
            cloned(self.lower(), l) && cloned(self.upper(), r) ==> l.add_req(r) && forall|sum: V|
                #![trigger sum.div_req(two)]
                may_be_sum(l, r, sum) ==> sum.div_req(two)
    }
}

impl<V: PartialOrd + Clone> SubInterval<V> {
    /// The distance between the two edges: the right one less the left one,
    /// each cloned first.
    ///
    /// The subtraction must be one that `V` can carry out (for an integer:
    /// without overflow).
    pub fn width(&self) -> (w: V::Output) where V: Sub
        requires
            forall|r: V, l: V|
                #![trigger r.sub_req(l)]
                cloned(self.upper(), r) && cloned(self.lower(), l) ==> r.sub_req(l),
        ensures
            V::obeys_sub_spec() ==> exists|r: V, l: V|
                #![trigger r.sub_spec(l)]
                cloned(self.upper(), r) && cloned(self.lower(), l) && w == r.sub_spec(l),
    {
        let right = match &self.interval.right {
            bounds::OpenOrClosed::Open(right) => right.clone(),
            bounds::OpenOrClosed::Closed(right) => right.clone(),
        };

        right - self.interval.left.0.clone()
    }

    /// The sum of the two edges, each cloned first, divided by `two`: the
    /// midpoint, where `two` is the number two of `V`.
    ///
    /// The addition and the division must be ones that `V` can carry out
    /// (for an integer: without overflow, and not by zero).
    pub fn midpoint_by(&self, two: V) -> (mid: V) where V: Add<Output = V> + Div<Output = V>
        requires
            self.admits_halving(two),
        ensures
            self.halves(two, mid),
    {
        let r = match &self.interval.right {
            bounds::OpenOrClosed::Open(right) => right.clone(),
            bounds::OpenOrClosed::Closed(right) => right.clone(),
        };
        let l = self.interval.left.0.clone();
        assert(l.add_req(r));
        assert(forall|s: V| may_be_sum(l, r, s) ==> #[trigger] s.div_req(two));
        let sum = l + r;
        assert(may_be_sum(l, r, sum));

        sum / two
    }

    /// The point halfway between the two edges: their sum divided by two,
    /// where two is the sum of the multiplicative identity of `V` and itself.
    ///
    /// `V` must admit the addition of its identity to itself, whatever that
    /// identity is, and the operations that halve the subinterval by what
    /// comes of it.
    pub fn midpoint(&self) -> (mid: V) where V: Add<Output = V> + Div<Output = V> + One
        requires
            forall|one: V, other: V|
                #![trigger is_one(one), is_one(other)]
                is_one(one) && is_one(other) ==> one.add_req(other) && forall|two: V| #[trigger]
                    may_be_sum(one, other, two) ==> self.admits_halving(two),
        ensures
            exists|one: V, other: V, two: V|
                #![trigger may_be_sum(one, other, two)]
                is_one(one) && is_one(other) && may_be_sum(one, other, two) && self.halves(
                    two,
                    mid,
                ),
    {
        let one = scalar::multiplicative_identity::<V>();
        let other = scalar::multiplicative_identity::<V>();
        let two = one + other;
        let ghost sum = two;
        assert(may_be_sum(one, other, sum));
        let mid = self.midpoint_by(two);
        assert(is_one(one) && is_one(other) && may_be_sum(one, other, sum) && self.halves(
            sum,
            mid,
        ));
        mid
    }
}

/// Trait for types that represent a partitioning over an interval.
///
/// An implementor says what its lookups may return through the two relations
/// [`locates`](Partition::locates) and [`cuts`](Partition::cuts), and what
/// they need in order to run to their end through
/// [`admits_index`](Partition::admits_index) and
/// [`admits_subinterval`](Partition::admits_subinterval); the contracts of
/// the methods are stated over them. A partition that computes nothing, as one
/// of explicit breakpoints, admits every lookup.
pub trait Partition {
    /// The type associated with the overarching interval.
    type Value: PartialOrd;

    /// The number of subintervals in the partition.
    spec fn count(&self) -> nat;

    /// The partition can look `value` up: its value type admits the
    /// operations that the lookup carries out.
    spec fn admits_index(&self, value: &Self::Value) -> bool;

    /// The partition can make the subinterval `k`: its value type admits the
    /// operations that give the edges.
    spec fn admits_subinterval(&self, k: usize) -> bool;

    /// `found` is an index that [`index`](Partition::index) may return for
    /// `value`.
    spec fn locates(&self, value: &Self::Value, found: Option<usize>) -> bool;

    /// `piece` is a subinterval that [`subinterval`](Partition::subinterval)
    /// may return for `k`.
    spec fn cuts(&self, k: usize, piece: Option<SubInterval<Self::Value>>) -> bool;

    /// Return the number of subintervals in the partition.
    fn len(&self) -> (n: usize)
        ensures
            n == self.count(),
    ;

    /// Compute the index of the subinterval associated with the given value.
    fn index(&self, value: &Self::Value) -> (found: Option<usize>)
        requires
            self.admits_index(value),
        ensures
            self.locates(value, found),
    ;

    /// Return the kth subinterval of the partition.
    fn subinterval(&self, k: usize) -> (piece: Option<SubInterval<Self::Value>>)
        requires
            self.admits_subinterval(k),
        ensures
            self.cuts(k, piece),
    ;

    /// Return the subinterval to which the given value belongs: the one that
    /// `subinterval` returns for the index that `index` returns, and nothing
    /// where `index` finds none.
    ///
    /// Note: the corresponding subintervals are taken to be closed on the left
    /// and open on the right.
    fn digitise(&self, value: &Self::Value) -> (piece: Option<SubInterval<Self::Value>>)
        requires
            self.admits_index(value),
            forall|k: usize| #[trigger] self.locates(value, Some(k)) ==> self.admits_subinterval(k),
        ensures
            exists|found: Option<usize>| #[trigger]
                self.locates(value, found) && match found {
                    Some(k) => self.cuts(k, piece),
                    None => piece is None,
                },
    {
        match self.index(value) {
            Some(k) => self.subinterval(k),
            None => None,
        }
    }
}

} // verus!

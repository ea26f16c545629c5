//! Generalised types for intervals and partitions thereof.
//!
//! `intervals` is oriented towards static-typing. The bounds are all
//! unique types, and all operations between instances are exhaustively
//! implemented and verified against one mathematical model.
use crate::bounds::{
    Bound, BoundDisplay, LimitPoint, Pinch, Unroll, ValidateBounds, ValidationError, Validator,
};
use crate::model::{in_order, Span};
use crate::order::{equatable, ordered};
use crate::private::Sealed;
use crate::scalar::{is_one, is_zero};
use num_traits::{One, Zero};
use vstd::pervasive::cloned;
use vstd::prelude::*;
use vstd::std_specs::cmp::PartialEqSpec;
use vstd::std_specs::cmp::PartialEqSpecImpl;
use vstd::string::StringExecFns;

pub mod bounds;
pub mod laws;
pub mod model;
pub mod order;
pub mod partitions;
mod private;
pub mod scalar;
mod unsigned;

verus! {

pub type IntervalResult<L, R = L> = Result<Interval<L, R>, ValidationError<L, R>>;

/// Generalised type representing an interval between two points: a and b.
#[derive(Debug, Clone, Copy)]
pub struct Interval<L: Bound, R: Bound<Value = L::Value>> {
    /// The left-hand bound.
    pub left: L,
    /// The right-hand bound.
    pub right: R,
}

/// Alias for an unbounded interval.
pub type Unbounded<V> = Interval<bounds::NoBound<V>, bounds::NoBound<V>>;

/// Alias for a bounded open interval.
pub type Open<V> = Interval<bounds::Open<V>, bounds::Open<V>>;

/// Alias for a left-open interval, unbounded on the right.
pub type LeftOpen<V> = Interval<bounds::Open<V>, bounds::NoBound<V>>;

/// Alias for a right-open interval, unbounded on the left.
pub type RightOpen<V> = Interval<bounds::NoBound<V>, bounds::Open<V>>;

/// Alias for a bounded closed interval.
pub type Closed<V> = Interval<bounds::Closed<V>, bounds::Closed<V>>;

/// Alias for a left-closed interval, unbounded on the right.
pub type LeftClosed<V> = Interval<bounds::Closed<V>, bounds::NoBound<V>>;

/// Alias for a right-closed interval, unbounded on the left.
pub type RightClosed<V> = Interval<bounds::NoBound<V>, bounds::Closed<V>>;

/// Alias for a left-closed, right-open interval.
pub type LCRO<V> = Interval<bounds::Closed<V>, bounds::Open<V>>;

/// Alias for a left-open, right-closed interval.
pub type LORC<V> = Interval<bounds::Open<V>, bounds::Closed<V>>;

///////////////////////////////////////////////////////////////////////////////
// Core
///////////////////////////////////////////////////////////////////////////////
impl<L, R> Interval<L, R> where L: Bound, R: Bound<Value = L::Value> {
    /// What the interval stands for: its two bounds, as limits.
    pub open spec fn view(&self) -> Span<L::Value> {
        Span { left: self.left@, right: self.right@ }
    }

    /// The bounds are in order. An interval made with validation is valid, and
    /// so is an intersection; one made unchecked is so if its maker saw to
    /// it.
    pub open spec fn valid(&self) -> bool {
        self@.valid()
    }
}

impl<L, R, LL, RR> PartialEq<Interval<LL, RR>> for Interval<L, R> where
    L: Bound + PartialEq<LL>,
    R: Bound<Value = L::Value> + PartialEq<RR>,
    LL: Bound,
    RR: Bound<Value = LL::Value>,
 {
    fn eq(&self, rhs: &Interval<LL, RR>) -> (r: bool) {
        self.left == rhs.left && self.right == rhs.right
    }
}

impl<L, R, LL, RR> PartialEqSpecImpl<Interval<LL, RR>> for Interval<L, R> where
    L: Bound + PartialEq<LL>,
    R: Bound<Value = L::Value> + PartialEq<RR>,
    LL: Bound,
    RR: Bound<Value = LL::Value>,
 {
    open spec fn obeys_eq_spec() -> bool {
        L::obeys_eq_spec() && R::obeys_eq_spec()
    }

    open spec fn eq_spec(&self, rhs: &Interval<LL, RR>) -> bool {
        self.left.eq_spec(&rhs.left) && self.right.eq_spec(&rhs.right)
    }
}

/// The outcome of a checked construction carries the very bounds it was
/// given: in the interval, or in the error.
pub open spec fn built_from<L: Bound, R: Bound<Value = L::Value>>(
    outcome: IntervalResult<L, R>,
    left: L,
    right: R,
) -> bool {
    match outcome {
        Ok(interval) => interval.left == left && interval.right == right,
        Err(ValidationError::DecreasingBounds(l, r)) => l == left && r == right,
    }
}

impl<L, R> Interval<L, R> where
    L: Bound,
    R: Bound<Value = L::Value>,
    Validator: ValidateBounds<L, R>,
 {
    /// Construct an interval with bound validation.
    ///
    /// The bounds are accepted exactly when they are in order; a pair with a
    /// `NoBound` side always is.
    pub fn new(left: L, right: R) -> (outcome: IntervalResult<L, R>)
        ensures
            built_from(outcome, left, right),
            (left@ is Unbounded || right@ is Unbounded) ==> outcome is Ok,
            ordered::<L::Value>() ==> (outcome is Ok <==> in_order(left@, right@)),
            ordered::<L::Value>() ==> (outcome matches Ok(interval) ==> interval.valid()),
    {
        match bounds::validate(left, right) {
            Ok((left, right)) => Ok(Interval { left, right }),
            Err(ValidationError::DecreasingBounds(left, right)) => Err(
                ValidationError::DecreasingBounds(left, right),
            ),
        }
    }
}

impl<L, R> Interval<L, R> where L: Bound, R: Bound<Value = L::Value> {
    /// Construct an interval w/o bound validation.
    pub fn new_unchecked(left: L, right: R) -> (interval: Self)
        ensures
            interval.left == left,
            interval.right == right,
    {
        Interval { left, right }
    }
}

impl<L: Bound> Interval<L, bounds::NoBound<L::Value>> {
    /// Construct a left-bounded interval, unbounded on the right.
    pub fn left_bounded(left: L) -> (interval: Self)
        ensures
            interval.left == left,
            interval@.right is Unbounded,
    {
        Interval { left, right: bounds::NoBound::new() }
    }
}

impl<V: PartialOrd> LeftOpen<V> {
    /// Construct a left-open interval, unbounded on the right.
    pub fn left_open(left: V) -> (interval: Self)
        ensures
            interval.left.0 == left,
    {
        Interval { left: bounds::Open(left), right: bounds::NoBound::new() }
    }
}

impl<V: PartialOrd> LeftClosed<V> {
    /// Construct a left-closed interval, unbounded on the right.
    pub fn left_closed(left: V) -> (interval: Self)
        ensures
            interval.left.0 == left,
    {
        Interval { left: bounds::Closed(left), right: bounds::NoBound::new() }
    }
}

impl<R: Bound> Interval<bounds::NoBound<R::Value>, R> {
    /// Construct a right-bounded interval, unbounded on the left.
    pub fn right_bounded(right: R) -> (interval: Self)
        ensures
            interval.right == right,
            interval@.left is Unbounded,
    {
        Interval { left: bounds::NoBound::new(), right }
    }
}

impl<V: PartialOrd> RightOpen<V> {
    /// Construct a right-open interval, unbounded on the left.
    pub fn right_open(right: V) -> (interval: Self)
        ensures
            interval.right.0 == right,
    {
        Interval { left: bounds::NoBound::new(), right: bounds::Open(right) }
    }
}

impl<V: PartialOrd> RightClosed<V> {
    /// Construct a right-closed interval, unbounded on the left.
    pub fn right_closed(right: V) -> (interval: Self)
        ensures
            interval.right.0 == right,
    {
        Interval { left: bounds::NoBound::new(), right: bounds::Closed(right) }
    }
}

impl<V: PartialOrd> LORC<V> {
    /// Construct a left-open, right-closed interval with bound validation.
    pub fn lorc(left: V, right: V) -> (outcome: IntervalResult<bounds::Open<V>, bounds::Closed<V>>)
        ensures
            built_from(outcome, bounds::Open(left), bounds::Closed(right)),
            ordered::<V>() ==> (outcome is Ok <==> in_order(
                bounds::Open(left)@,
                bounds::Closed(right)@,
            )),
    {
        Interval::new(bounds::Open(left), bounds::Closed(right))
    }

    /// Construct a left-open, right-closed interval w/o bound validation.
    pub fn lorc_unchecked(left: V, right: V) -> (interval: Self)
        ensures
            interval.left.0 == left,
            interval.right.0 == right,
    {
        Interval::new_unchecked(bounds::Open(left), bounds::Closed(right))
    }
}

impl<V: PartialOrd> LCRO<V> {
    /// Construct a left-closed, right-open interval with bound validation.
    pub fn lcro(left: V, right: V) -> (outcome: IntervalResult<bounds::Closed<V>, bounds::Open<V>>)
        ensures
            built_from(outcome, bounds::Closed(left), bounds::Open(right)),
            ordered::<V>() ==> (outcome is Ok <==> in_order(
                bounds::Closed(left)@,
                bounds::Open(right)@,
            )),
    {
        Interval::new(bounds::Closed(left), bounds::Open(right))
    }

    /// Construct a left-closed, right-open interval w/o bound validation.
    pub fn lcro_unchecked(left: V, right: V) -> (interval: Self)
        ensures
            interval.left.0 == left,
            interval.right.0 == right,
    {
        Interval::new_unchecked(bounds::Closed(left), bounds::Open(right))
    }
}

impl<V: PartialOrd> Unbounded<V> {
    /// Construct a totally unbounded interval.
    pub fn unbounded() -> (interval: Self)
        ensures
            interval@.left is Unbounded,
            interval@.right is Unbounded,
    {
        Interval { left: bounds::NoBound::new(), right: bounds::NoBound::new() }
    }
}

impl<V: PartialOrd> Open<V> {
    /// Construct a bounded open interval with bound validation.
    pub fn open(left: V, right: V) -> (outcome: IntervalResult<bounds::Open<V>, bounds::Open<V>>)
        ensures
            built_from(outcome, bounds::Open(left), bounds::Open(right)),
            ordered::<V>() ==> (outcome is Ok <==> in_order(
                bounds::Open(left)@,
                bounds::Open(right)@,
            )),
    {
        Interval::new(bounds::Open(left), bounds::Open(right))
    }

    /// Construct a bounded open interval w/o bound validation.
    pub fn open_unchecked(left: V, right: V) -> (interval: Self)
        ensures
            interval.left.0 == left,
            interval.right.0 == right,
    {
        Interval::new_unchecked(bounds::Open(left), bounds::Open(right))
    }
}

impl<V: PartialOrd> Closed<V> {
    /// Construct a bounded closed interval with bound validation.
    pub fn closed(left: V, right: V) -> (outcome: IntervalResult<
        bounds::Closed<V>,
        bounds::Closed<V>,
    >)
        ensures
            built_from(outcome, bounds::Closed(left), bounds::Closed(right)),
            ordered::<V>() ==> (outcome is Ok <==> in_order(
                bounds::Closed(left)@,
                bounds::Closed(right)@,
            )),
    {
        Interval::new(bounds::Closed(left), bounds::Closed(right))
    }

    /// Construct a bounded closed interval w/o bound validation.
    pub fn closed_unchecked(left: V, right: V) -> (interval: Self)
        ensures
            interval.left.0 == left,
            interval.right.0 == right,
    {
        Interval::new_unchecked(bounds::Closed(left), bounds::Closed(right))
    }
}

impl<V: PartialOrd + Clone> Closed<V> {
    /// Construct a degenerate interval: [a, a].
    ///
    /// The right bound carries `value` itself, the left one its clone.
    pub fn degenerate(value: V) -> (interval: Self)
        ensures
            cloned(value, interval.left.0),
            interval.right.0 == value,
    {
        Interval::new_unchecked(bounds::Closed(value.clone()), bounds::Closed(value))
    }
}

impl<V: Zero + One + PartialOrd> Closed<V> {
    /// Construct a unit interval: [0, 1].
    ///
    /// The two values are the identities that `V` declares through
    /// `num_traits`; what they are is up to `V`.
    pub fn unit() -> (interval: Self)
        ensures
            is_zero(interval.left.0),
            is_one(interval.right.0),
    {
        Interval::closed_unchecked(scalar::additive_identity(), scalar::multiplicative_identity())
    }
}

impl<V: PartialOrd> Closed<V> {
    /// Construct a uniform partition over the interval.
    pub fn linspace(self, n_partitions: usize) -> (partition: partitions::Uniform<V>)
        ensures
            partition.size == n_partitions,
            partition.left == self.left.0,
            partition.right == self.right.0,
    {
        partitions::Uniform { size: n_partitions, left: self.left.0, right: self.right.0 }
    }
}

///////////////////////////////////////////////////////////////////////////////
// Ops
///////////////////////////////////////////////////////////////////////////////
/// Type alias to simplify intersection return types.
pub type IntersectionOf<L, R, LL, RR> = Interval<
    <L as bounds::Pinch<LL>>::Left,
    <R as bounds::Pinch<RR>>::Right,
>;

impl<L, R> Interval<L, R> where L: Bound, R: Bound<Value = L::Value> {
    /// The intersection of two intervals, or `None` where it is empty.
    ///
    /// Each side of the result is the tighter of the two bounds on that side;
    /// the pair is then validated, and an intersection whose bounds are out of
    /// order is empty. A side on which one of the two intervals has no bound
    /// is taken from the other one, whatever the value type, and with no
    /// bound at all on one side the intersection is never empty.
    pub fn intersect<LL, RR>(self, other: Interval<LL, RR>) -> (meet: Option<
        IntersectionOf<L, R, LL, RR>,
    >) where
        L: Pinch<LL>,
        R: Pinch<RR>,
        LL: Bound<Value = L::Value>,
        RR: Bound<Value = L::Value>,
        Validator: ValidateBounds<L::Left, R::Right>,

        ensures
            meet matches Some(i) ==> (i@.left == self@.left || i@.left == other@.left) && (i@.right
                == self@.right || i@.right == other@.right),
            meet matches Some(i) ==> ((self@.left is Unbounded || other@.left is Unbounded)
                ==> i@.left == self@.left.pinch_left(other@.left)) && ((self@.right is Unbounded
                || other@.right is Unbounded) ==> i@.right == self@.right.pinch_right(
                other@.right,
            )),
            (self@.left is Unbounded && other@.left is Unbounded) || (self@.right is Unbounded
                && other@.right is Unbounded) ==> meet is Some,
            ordered::<L::Value>() ==> match meet {
                Some(i) => self@.intersect(other@) == Some(i@) && i.valid(),
                None => self@.intersect(other@) is None,
            },
    {
        let left = self.left.pinch_left(other.left);
        let right = self.right.pinch_right(other.right);

        match Interval::new(left, right) {
            Ok(interval) => Some(interval),
            Err(_) => None,
        }
    }
}

/// Type alias to simplify union-closure return types.
pub type UnionClosureOf<L, R, LL, RR> = Interval<
    <<L as bounds::Unroll<LL>>::Left as bounds::LimitPoint>::WithLimit,
    <<R as bounds::Unroll<RR>>::Right as bounds::LimitPoint>::WithLimit,
>;

impl<L, R> Interval<L, R> where L: Bound, R: Bound<Value = L::Value> {
    /// The closure of the union of two intervals: the smallest closed
    /// interval that holds both.
    ///
    /// Each side of the result is the looser of the two bounds on that side,
    /// with its limit point included. A side on which one of the two
    /// intervals has no bound has none in the result, whatever the value type.
    pub fn union_closure<LL, RR>(self, other: Interval<LL, RR>) -> (hull: UnionClosureOf<
        L,
        R,
        LL,
        RR,
    >) where
        L: Unroll<LL>,
        R: Unroll<RR>,
        LL: Bound<Value = L::Value>,
        RR: Bound<Value = L::Value>,

        ensures
            (ordered::<L::Value>() || self@.left is Unbounded || other@.left is Unbounded)
                ==> hull@.left == self@.union_closure(other@).left,
            (ordered::<L::Value>() || self@.right is Unbounded || other@.right is Unbounded)
                ==> hull@.right == self@.union_closure(other@).right,
    {
        let left = self.left.unroll_left(other.left).with_limit_point();
        let right = self.right.unroll_right(other.right).with_limit_point();

        Interval::new_unchecked(left, right)
    }
}

impl<L, R> Interval<L, R> where L: Bound, R: Bound<Value = L::Value> {
    /// Returns true if the interval contains `val`.
    ///
    /// __Note__: see [Contains] for more details.
    pub fn contains(&self, val: L::Value) -> (r: bool) where Self: Contains<L, R>
        ensures
            ordered::<L::Value>() ==> r == self.span().contains(val),
    {
        Contains::contains(self, val)
    }

    /// Returns true if the interval is degenerate.
    ///
    /// A degenerate interval is bounded, where the upper and lower bounds are
    /// closed and equal.
    pub fn is_degenerate(&self) -> (r: bool)
        ensures
            r ==> self@.left is Closed && self@.right is Closed,
            equatable::<L::Value>() ==> r == self@.is_degenerate(),
    {
        match (self.left.value(), self.right.value()) {
            (Some(left), Some(right)) => {
                if self.left.is_closed() && self.right.is_closed() {
                    *left == *right
                } else {
                    false
                }
            },
            _ => false,
        }
    }
}

///////////////////////////////////////////////////////////////////////////////
// Formatting
///////////////////////////////////////////////////////////////////////////////
impl<L, R> Interval<L, R> where L: BoundDisplay, R: BoundDisplay<Value = L::Value> {
    /// The text of the interval: the text of its left side, a comma and a
    /// space, and the text of its right side.
    pub fn to_text(&self) -> (text: String)
        ensures
            exists|left: String, right: String|
                #![trigger left@, right@]
                {
                    &&& call_ensures(L::fmt_left, (&self.left,), left)
                    &&& call_ensures(R::fmt_right, (&self.right,), right)
                    &&& text@ == left@ + seq![',', ' '] + right@
                },
    {
        proof {
            reveal_strlit(", ");
        }
        let left = self.left.fmt_left();
        let right = self.right.fmt_right();
        let text = left.clone().concat(", ").concat(right.as_str());
        assert(text@ == left@ + seq![',', ' '] + right@);
        text
    }
}

///////////////////////////////////////////////////////////////////////////////
// Boundedness
///////////////////////////////////////////////////////////////////////////////
/// Marker trait for bounded intervals.
///
/// A bounded interval is defined as any such interval for which the left/right
/// limits are open or closed. Over an unsigned integer type a limit on the
/// right is enough, since zero bounds every such interval on the left.
pub trait Bounded: Sealed {

}

impl<V: PartialOrd> Sealed for Interval<bounds::Closed<V>, bounds::Closed<V>> {

}

impl<V: PartialOrd> Bounded for Interval<bounds::Closed<V>, bounds::Closed<V>> {

}

impl<V: PartialOrd> Sealed for Interval<bounds::Closed<V>, bounds::Open<V>> {

}

impl<V: PartialOrd> Bounded for Interval<bounds::Closed<V>, bounds::Open<V>> {

}

impl<V: PartialOrd> Sealed for Interval<bounds::Open<V>, bounds::Closed<V>> {

}

impl<V: PartialOrd> Bounded for Interval<bounds::Open<V>, bounds::Closed<V>> {

}

impl<V: PartialOrd> Sealed for Interval<bounds::Open<V>, bounds::Open<V>> {

}

impl<V: PartialOrd> Bounded for Interval<bounds::Open<V>, bounds::Open<V>> {

}

///////////////////////////////////////////////////////////////////////////////
// Containment
///////////////////////////////////////////////////////////////////////////////
/// Trait for intervals which can assert containment of their values.
pub trait Contains<L: Bound, R: Bound<Value = L::Value>> {
    /// The interval whose points the implementor contains.
    spec fn span(&self) -> Span<L::Value>;

    /// Returns true if the interval contains `val`: a closed bound admits its
    /// own value, an open one does not, and the absence of a bound admits
    /// everything.
    fn contains(&self, val: L::Value) -> (r: bool)
        ensures
            ordered::<L::Value>() ==> r == self.span().contains(val),
    ;
}

impl<V: PartialOrd> Contains<bounds::NoBound<V>, bounds::NoBound<V>> for Unbounded<V> {
    open spec fn span(&self) -> Span<V> {
        self@
    }

    fn contains(&self, val: V) -> bool {
        true
    }
}

impl<V: PartialOrd> Contains<bounds::Open<V>, bounds::Open<V>> for Open<V> {
    open spec fn span(&self) -> Span<V> {
        self@
    }

    fn contains(&self, val: V) -> bool {
        val > self.left.0 && val < self.right.0
    }
}

impl<V: PartialOrd> Contains<bounds::Open<V>, bounds::NoBound<V>> for LeftOpen<V> {
    open spec fn span(&self) -> Span<V> {
        self@
    }

    fn contains(&self, val: V) -> bool {
        val > self.left.0
    }
}

impl<V: PartialOrd> Contains<bounds::NoBound<V>, bounds::Open<V>> for RightOpen<V> {
    open spec fn span(&self) -> Span<V> {
        self@
    }

    fn contains(&self, val: V) -> bool {
        val < self.right.0
    }
}

impl<V: PartialOrd> Contains<bounds::Closed<V>, bounds::Closed<V>> for Closed<V> {
    open spec fn span(&self) -> Span<V> {
        self@
    }

    fn contains(&self, val: V) -> bool {
        val >= self.left.0 && val <= self.right.0
    }
}

impl<V: PartialOrd> Contains<bounds::Closed<V>, bounds::NoBound<V>> for LeftClosed<V> {
    open spec fn span(&self) -> Span<V> {
        self@
    }

    fn contains(&self, val: V) -> bool {
        val >= self.left.0
    }
}

impl<V: PartialOrd> Contains<bounds::NoBound<V>, bounds::Closed<V>> for RightClosed<V> {
    open spec fn span(&self) -> Span<V> {
        self@
    }

    fn contains(&self, val: V) -> bool {
        val <= self.right.0
    }
}

impl<V: PartialOrd> Contains<bounds::Closed<V>, bounds::Open<V>> for LCRO<V> {
    open spec fn span(&self) -> Span<V> {
        self@
    }

    fn contains(&self, val: V) -> bool {
        val >= self.left.0 && val < self.right.0
    }
}

impl<V: PartialOrd> Contains<bounds::Open<V>, bounds::Closed<V>> for LORC<V> {
    open spec fn span(&self) -> Span<V> {
        self@
    }

    fn contains(&self, val: V) -> bool {
        val > self.left.0 && val <= self.right.0
    }
}

impl<V: PartialOrd> Contains<bounds::NoBound<V>, bounds::OpenOrClosed<V>> for Interval<
    bounds::NoBound<V>,
    bounds::OpenOrClosed<V>,
> {
    open spec fn span(&self) -> Span<V> {
        self@
    }

    fn contains(&self, val: V) -> bool {
        match &self.right {
            bounds::OpenOrClosed::Open(r) => val < *r,
            bounds::OpenOrClosed::Closed(r) => val <= *r,
        }
    }
}

impl<V: PartialOrd> Contains<bounds::Open<V>, bounds::OpenOrClosed<V>> for Interval<
    bounds::Open<V>,
    bounds::OpenOrClosed<V>,
> {
    open spec fn span(&self) -> Span<V> {
        self@
    }

    fn contains(&self, val: V) -> bool {
        val > self.left.0 && match &self.right {
            bounds::OpenOrClosed::Open(r) => val < *r,
            bounds::OpenOrClosed::Closed(r) => val <= *r,
        }
    }
}

impl<V: PartialOrd> Contains<bounds::Closed<V>, bounds::OpenOrClosed<V>> for Interval<
    bounds::Closed<V>,
    bounds::OpenOrClosed<V>,
> {
    open spec fn span(&self) -> Span<V> {
        self@
    }

    fn contains(&self, val: V) -> bool {
        val >= self.left.0 && match &self.right {
            bounds::OpenOrClosed::Open(r) => val < *r,
            bounds::OpenOrClosed::Closed(r) => val <= *r,
        }
    }
}

impl<V: PartialOrd> Contains<bounds::OpenOrClosed<V>, bounds::NoBound<V>> for Interval<
    bounds::OpenOrClosed<V>,
    bounds::NoBound<V>,
> {
    open spec fn span(&self) -> Span<V> {
        self@
    }

    fn contains(&self, val: V) -> bool {
        match &self.left {
            bounds::OpenOrClosed::Open(l) => val > *l,
            bounds::OpenOrClosed::Closed(l) => val >= *l,
        }
    }
}

impl<V: PartialOrd> Contains<bounds::OpenOrClosed<V>, bounds::Open<V>> for Interval<
    bounds::OpenOrClosed<V>,
    bounds::Open<V>,
> {
    open spec fn span(&self) -> Span<V> {
        self@
    }

    fn contains(&self, val: V) -> bool {
        val < self.right.0 && match &self.left {
            bounds::OpenOrClosed::Open(l) => val > *l,
            bounds::OpenOrClosed::Closed(l) => val >= *l,
        }
    }
}

impl<V: PartialOrd> Contains<bounds::OpenOrClosed<V>, bounds::Closed<V>> for Interval<
    bounds::OpenOrClosed<V>,
    bounds::Closed<V>,
> {
    open spec fn span(&self) -> Span<V> {
        self@
    }

    fn contains(&self, val: V) -> bool {
        val <= self.right.0 && match &self.left {
            bounds::OpenOrClosed::Open(l) => val > *l,
            bounds::OpenOrClosed::Closed(l) => val >= *l,
        }
    }
}

impl<V: PartialOrd> Contains<bounds::OpenOrClosed<V>, bounds::OpenOrClosed<V>> for Interval<
    bounds::OpenOrClosed<V>,
    bounds::OpenOrClosed<V>,
> {
    open spec fn span(&self) -> Span<V> {
        self@
    }

    fn contains(&self, val: V) -> bool {
        let above_left = match &self.left {
            bounds::OpenOrClosed::Open(l) => val > *l,
            bounds::OpenOrClosed::Closed(l) => val >= *l,
        };

        above_left && match &self.right {
            bounds::OpenOrClosed::Open(r) => val < *r,
            bounds::OpenOrClosed::Closed(r) => val <= *r,
        }
    }
}

} // verus!

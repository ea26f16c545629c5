//! Module containing bound types.
use crate::model::Limit;
use crate::order::ordered;
use crate::private::Sealed;
use vstd::prelude::*;

pub mod closed;
pub mod display;
pub mod mixed;
pub mod no_bound;
pub mod open;
pub mod validation;

pub use self::closed::Closed;
pub use self::display::BoundDisplay;
pub use self::mixed::OpenOrClosed;
pub use self::no_bound::NoBound;
pub use self::open::Open;
pub use self::validation::{
    hands_back, validate, ValidateBounds, ValidationError, ValidationResult, Validator,
};

verus! {

/// Trait for types that represent upper/lower bounds.
pub trait Bound: Sealed {
    /// Underlying type associated with the bound.
    type Value: PartialOrd;

    /// What the bound stands for.
    spec fn view(&self) -> Limit<Self::Value>;

    /// Returns the value of the bound if one exists.
    fn value(&self) -> (r: Option<&Self::Value>)
        ensures
            match r {
                Some(v) => self@.value() == Some(*v),
                None => self@ is Unbounded,
            },
    ;

    /// Returns true if the bound is open.
    fn is_open(&self) -> (r: bool)
        ensures
            r == self@.is_open(),
    ;

    /// Returns true if the bound is closed.
    fn is_closed(&self) -> (r: bool)
        ensures
            r == self@.is_closed(),
    ;
}

/// Trait for bounds that can take in their limit point.
pub trait LimitPoint: Bound {
    /// Corresponding bound given inclusion of limit point.
    type WithLimit: Bound<Value = Self::Value>;

    /// Returns the corresponding bound with its limit point.
    fn with_limit_point(self) -> (r: Self::WithLimit)
        ensures
            r@ == self@.with_limit_point(),
    ;
}

/// Trait for bounds that are open or closed.
pub trait ProperBound: Bound {
    fn proper_value(&self) -> (r: &Self::Value)
        ensures
            self@.value() == Some(*r),
    ;
}

/// Trait for "pinching" bounds on the left and right.
///
/// We define the pinch operation as the logic applied at the left and
/// right boundaries of a pair of intervals when taking the intersection.
///
/// Note: [Pinch] can be seen as the inverse of [Unroll].
pub trait Pinch<T: Bound<Value = Self::Value>>: Bound {
    type Left: Bound<Value = Self::Value>;

    type Right: Bound<Value = Self::Value>;

    /// Returns the left-pinched bound: the tighter of two lower bounds.
    ///
    /// Where one of the two is `NoBound` the result is the other one, whatever
    /// the value type. Otherwise the values are compared, and the result is
    /// known as far as the comparison is.
    fn pinch_left(self, other: T) -> (r: Self::Left)
        ensures
            r@ == self@ || r@ == other@,
            (ordered::<Self::Value>() || self@ is Unbounded || other@ is Unbounded) ==> r@
                == self@.pinch_left(other@),
    ;

    /// Returns the right-pinched bound: the tighter of two upper bounds.
    fn pinch_right(self, other: T) -> (r: Self::Right)
        ensures
            r@ == self@ || r@ == other@,
            (ordered::<Self::Value>() || self@ is Unbounded || other@ is Unbounded) ==> r@
                == self@.pinch_right(other@),
    ;
}

/// Trait for "unrolling" bounds on the left and right.
///
/// We define the unroll operation as the logic applied at the left and
/// right boundaries of a pair of intervals during the union-closure operation,
/// but before inclusion of the limits.
///
/// Note: [Unroll] can be seen as the inverse of [Pinch].
pub trait Unroll<T: Bound<Value = Self::Value>>: Bound {
    type Left: LimitPoint<Value = Self::Value>;

    type Right: LimitPoint<Value = Self::Value>;

    /// Returns the left-unrolled bound: the looser of two lower bounds.
    ///
    /// Where one of the two is `NoBound` so is the result, whatever the value
    /// type. Otherwise the values are compared, and the result is known as far
    /// as the comparison is.
    fn unroll_left(self, other: T) -> (r: Self::Left)
        ensures
            r@ == self@ || r@ == other@,
            (ordered::<Self::Value>() || self@ is Unbounded || other@ is Unbounded) ==> r@
                == self@.unroll_left(other@),
    ;

    /// Returns the right-unrolled bound: the looser of two upper bounds.
    fn unroll_right(self, other: T) -> (r: Self::Right)
        ensures
            r@ == self@ || r@ == other@,
            (ordered::<Self::Value>() || self@ is Unbounded || other@ is Unbounded) ==> r@
                == self@.unroll_right(other@),
    ;
}

} // verus!

use super::{Bound, Closed, NoBound, Open, OpenOrClosed};
use crate::model::in_order;
use crate::order::ordered;
use vstd::prelude::*;

verus! {

/// The reason a pair of bounds is refused.
#[derive(Debug, Clone, Copy)]
pub enum ValidationError<L, R> {
    /// The left bound lies above the right one, or meets it at a point that
    /// one of them excludes.
    DecreasingBounds(L, R),
}

pub type ValidationResult<L, R> = Result<(L, R), ValidationError<L, R>>;

/// The verdict carries the very bounds that were judged.
pub open spec fn hands_back<L, R>(verdict: ValidationResult<L, R>, left: L, right: R) -> bool {
    match verdict {
        Ok(pair) => pair == (left, right),
        Err(ValidationError::DecreasingBounds(l, r)) => l == left && r == right,
    }
}

/// Utility type for validation of bound pairs.
pub struct Validator;

pub trait ValidateBounds<L: Bound, R: Bound<Value = L::Value>> {
    /// Accepts the pair exactly when it is in order; either way the bounds
    /// come back unchanged. A pair with a `NoBound` side is accepted whatever
    /// the value type.
    fn validate(left: L, right: R) -> (verdict: ValidationResult<L, R>)
        ensures
            hands_back(verdict, left, right),
            (left@ is Unbounded || right@ is Unbounded) ==> verdict is Ok,
            ordered::<L::Value>() ==> (verdict is Ok <==> in_order(left@, right@)),
    ;
}

/// Validate left-right bounds.
pub fn validate<L: Bound, R: Bound<Value = L::Value>>(left: L, right: R) -> (verdict:
    ValidationResult<L, R>) where Validator: ValidateBounds<L, R>
    ensures
        hands_back(verdict, left, right),
        (left@ is Unbounded || right@ is Unbounded) ==> verdict is Ok,
        ordered::<L::Value>() ==> (verdict is Ok <==> in_order(left@, right@)),
{
    Validator::validate(left, right)
}

// Unbounded cases:
impl<V: PartialOrd> ValidateBounds<NoBound<V>, NoBound<V>> for Validator {
    fn validate(left: NoBound<V>, right: NoBound<V>) -> ValidationResult<NoBound<V>, NoBound<V>> {
        Ok((left, right))
    }
}

impl<V: PartialOrd> ValidateBounds<NoBound<V>, Open<V>> for Validator {
    fn validate(left: NoBound<V>, right: Open<V>) -> ValidationResult<NoBound<V>, Open<V>> {
        Ok((left, right))
    }
}

impl<V: PartialOrd> ValidateBounds<NoBound<V>, Closed<V>> for Validator {
    fn validate(left: NoBound<V>, right: Closed<V>) -> ValidationResult<NoBound<V>, Closed<V>> {
        Ok((left, right))
    }
}

impl<V: PartialOrd> ValidateBounds<NoBound<V>, OpenOrClosed<V>> for Validator {
    fn validate(left: NoBound<V>, right: OpenOrClosed<V>) -> ValidationResult<NoBound<V>, OpenOrClosed<V>> {
        Ok((left, right))
    }
}

impl<V: PartialOrd> ValidateBounds<Open<V>, NoBound<V>> for Validator {
    fn validate(left: Open<V>, right: NoBound<V>) -> ValidationResult<Open<V>, NoBound<V>> {
        Ok((left, right))
    }
}

impl<V: PartialOrd> ValidateBounds<Closed<V>, NoBound<V>> for Validator {
    fn validate(left: Closed<V>, right: NoBound<V>) -> ValidationResult<Closed<V>, NoBound<V>> {
        Ok((left, right))
    }
}

impl<V: PartialOrd> ValidateBounds<OpenOrClosed<V>, NoBound<V>> for Validator {
    fn validate(left: OpenOrClosed<V>, right: NoBound<V>) -> ValidationResult<OpenOrClosed<V>, NoBound<V>> {
        Ok((left, right))
    }
}

// All-closed cases:
impl<V: PartialOrd> ValidateBounds<Closed<V>, Closed<V>> for Validator {
    fn validate(left: Closed<V>, right: Closed<V>) -> ValidationResult<Closed<V>, Closed<V>> {
        if left.0 > right.0 {
            Err(ValidationError::DecreasingBounds(left, right))
        } else {
            Ok((left, right))
        }
    }
}

// Mixed cases:
impl<V: PartialOrd> ValidateBounds<Closed<V>, Open<V>> for Validator {
    fn validate(left: Closed<V>, right: Open<V>) -> ValidationResult<Closed<V>, Open<V>> {
        if left.0 >= right.0 {
            Err(ValidationError::DecreasingBounds(left, right))
        } else {
            Ok((left, right))
        }
    }
}

impl<V: PartialOrd> ValidateBounds<Open<V>, Closed<V>> for Validator {
    fn validate(left: Open<V>, right: Closed<V>) -> ValidationResult<Open<V>, Closed<V>> {
        if left.0 >= right.0 {
            Err(ValidationError::DecreasingBounds(left, right))
        } else {
            Ok((left, right))
        }
    }
}

impl<V: PartialOrd> ValidateBounds<OpenOrClosed<V>, Closed<V>> for Validator {
    fn validate(left: OpenOrClosed<V>, right: Closed<V>) -> ValidationResult<OpenOrClosed<V>, Closed<V>> {
        let is_invalid = match &left {
            OpenOrClosed::Open(x) => *x >= right.0,
            OpenOrClosed::Closed(x) => *x > right.0,
        };

        if is_invalid {
            Err(ValidationError::DecreasingBounds(left, right))
        } else {
            Ok((left, right))
        }
    }
}

impl<V: PartialOrd> ValidateBounds<Closed<V>, OpenOrClosed<V>> for Validator {
    fn validate(left: Closed<V>, right: OpenOrClosed<V>) -> ValidationResult<Closed<V>, OpenOrClosed<V>> {
        let is_invalid = match &right {
            OpenOrClosed::Open(x) => left.0 >= *x,
            OpenOrClosed::Closed(x) => left.0 > *x,
        };

        if is_invalid {
            Err(ValidationError::DecreasingBounds(left, right))
        } else {
            Ok((left, right))
        }
    }
}

// All-open cases:
impl<V: PartialOrd> ValidateBounds<Open<V>, Open<V>> for Validator {
    fn validate(left: Open<V>, right: Open<V>) -> ValidationResult<Open<V>, Open<V>> {
        if left.0 >= right.0 {
            Err(ValidationError::DecreasingBounds(left, right))
        } else {
            Ok((left, right))
        }
    }
}

impl<V: PartialOrd> ValidateBounds<OpenOrClosed<V>, Open<V>> for Validator {
    fn validate(left: OpenOrClosed<V>, right: Open<V>) -> ValidationResult<OpenOrClosed<V>, Open<V>> {
        let is_invalid = match &left {
            OpenOrClosed::Open(x) => *x >= right.0,
            OpenOrClosed::Closed(x) => *x >= right.0,
        };

        if is_invalid {
            Err(ValidationError::DecreasingBounds(left, right))
        } else {
            Ok((left, right))
        }
    }
}

impl<V: PartialOrd> ValidateBounds<Open<V>, OpenOrClosed<V>> for Validator {
    fn validate(left: Open<V>, right: OpenOrClosed<V>) -> ValidationResult<Open<V>, OpenOrClosed<V>> {
        let is_invalid = match &right {
            OpenOrClosed::Open(x) => left.0 >= *x,
            OpenOrClosed::Closed(x) => left.0 >= *x,
        };

        if is_invalid {
            Err(ValidationError::DecreasingBounds(left, right))
        } else {
            Ok((left, right))
        }
    }
}

impl<V: PartialOrd> ValidateBounds<OpenOrClosed<V>, OpenOrClosed<V>> for Validator {
    fn validate(left: OpenOrClosed<V>, right: OpenOrClosed<V>) -> ValidationResult<
        OpenOrClosed<V>,
        OpenOrClosed<V>,
    > {
        let is_invalid = match (&left, &right) {
            (OpenOrClosed::Closed(x), OpenOrClosed::Closed(y)) => *x > *y,
            (OpenOrClosed::Open(x), OpenOrClosed::Open(y)) => *x >= *y,
            (OpenOrClosed::Closed(x), OpenOrClosed::Open(y)) => *x >= *y,
            (OpenOrClosed::Open(x), OpenOrClosed::Closed(y)) => *x >= *y,
        };

        if is_invalid {
            Err(ValidationError::DecreasingBounds(left, right))
        } else {
            Ok((left, right))
        }
    }
}

} // verus!

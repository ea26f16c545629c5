//! The calls into `num_traits`, and what the contracts say of the outcome of
//! an arithmetic operation on values of an arbitrary type.
use num_traits::{NumCast, One, Zero};
use std::ops::{Add, Div, Mul, Sub};
use vstd::prelude::*;
use vstd::std_specs::ops::{AddSpec, DivSpec, MulSpec, SubSpec};

verus! {

/// `sum` is a value that `a + b` may have: the sum that the specification of
/// `V` gives, where `V` has one, and any value where it has none.
pub open spec fn may_be_sum<V: Add<Output = V>>(a: V, b: V, sum: V) -> bool {
    V::obeys_add_spec() ==> sum == a.add_spec(b)
}

/// `difference` is a value that `a - b` may have.
pub open spec fn may_be_difference<V: Sub<Output = V>>(a: V, b: V, difference: V) -> bool {
    V::obeys_sub_spec() ==> difference == a.sub_spec(b)
}

/// `product` is a value that `a * b` may have.
pub open spec fn may_be_product<V: Mul<Output = V>>(a: V, b: V, product: V) -> bool {
    V::obeys_mul_spec() ==> product == a.mul_spec(b)
}

/// `quotient` is a value that `a / b` may have.
pub open spec fn may_be_quotient<V: Div<Output = V>>(a: V, b: V, quotient: V) -> bool {
    V::obeys_div_spec() ==> quotient == a.div_spec(b)
}

/// `zero` is a value that `V` gives as its additive identity.
pub closed spec fn is_zero<V: Zero>(zero: V) -> bool {
    call_ensures(self::zero::<V>, (), zero)
}

/// `one` is a value that `V` gives as its multiplicative identity.
pub closed spec fn is_one<V: One>(one: V) -> bool {
    call_ensures(self::one::<V>, (), one)
}

/// `converted` is an outcome of converting the number `n` to the type `U`:
/// a number of that type, or `None` where the conversion has no result.
pub closed spec fn converts<T: NumCast, U: NumCast>(n: T, converted: Option<U>) -> bool {
    call_ensures(cast::<T, U>, (n,), converted)
}

/// `num_traits::zero`: the additive identity of `V`. Nothing is claimed of
/// the value: it is whatever the implementation of `Zero` for `V` returns.
#[verifier::external_body]
fn zero<V: Zero>() -> V {
    num_traits::zero()
}

/// `num_traits::one`: the multiplicative identity of `V`. Nothing is claimed
/// of the value: it is whatever the implementation of `One` for `V` returns.
#[verifier::external_body]
fn one<V: One>() -> V {
    num_traits::one()
}

/// `num_traits::cast`: the number `n` converted to the type `U`, or `None`
/// where the conversion has no result. Nothing is claimed of the result: it is
/// whatever the implementations of `ToPrimitive` for `T` and of `NumCast` for
/// `U` return.
#[verifier::external_body]
fn cast<T: NumCast, U: NumCast>(n: T) -> Option<U> {
    num_traits::cast(n)
}

/// The additive identity of `V`.
pub(crate) fn additive_identity<V: Zero>() -> (zero: V)
    ensures
        is_zero(zero),
{
    self::zero()
}

/// The multiplicative identity of `V`.
pub(crate) fn multiplicative_identity<V: One>() -> (one: V)
    ensures
        is_one(one),
{
    self::one()
}

/// The number `n` converted to the type `U`.
pub(crate) fn convert<T: NumCast, U: NumCast>(n: T) -> (converted: Option<U>)
    ensures
        converts(n, converted),
{
    cast(n)
}

} // verus!

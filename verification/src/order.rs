//! The vocabulary in which the contracts of this crate speak of the order on
//! a value domain.
use vstd::prelude::*;
use vstd::std_specs::cmp::PartialEqSpec;
use vstd::std_specs::cmp::PartialOrdIs;
use vstd::std_specs::cmp::PartialOrdSpec;

verus! {

/// The comparison operators of `V` compute what their specifications say.
///
/// This holds of the primitive integers. Of a type for which it does not hold
/// (a floating-point number, for one) the contracts that are conditional on it
/// state nothing.
pub open spec fn ordered<V: PartialOrd>() -> bool {
    V::obeys_partial_cmp_spec() && equatable::<V>()
}

/// `a < b`.
pub open spec fn lt<V: PartialOrd>(a: V, b: V) -> bool {
    a.is_lt(&b)
}

/// `a <= b`.
pub open spec fn le<V: PartialOrd>(a: V, b: V) -> bool {
    a.is_le(&b)
}

/// `a > b`.
pub open spec fn gt<V: PartialOrd>(a: V, b: V) -> bool {
    a.is_gt(&b)
}

/// `a >= b`.
pub open spec fn ge<V: PartialOrd>(a: V, b: V) -> bool {
    a.is_ge(&b)
}

/// `a` and `b` compare as equal.
pub open spec fn tied<V: PartialOrd>(a: V, b: V) -> bool {
    a.is_le(&b) && a.is_ge(&b)
}

/// The order relates `a` and `b`: one is less than the other, or they compare
/// as equal.
pub open spec fn comparable<V: PartialOrd>(a: V, b: V) -> bool {
    a.partial_cmp_spec(&b) is Some
}

/// The `==` of `V` computes what its specification says.
pub open spec fn equatable<V: PartialEq>() -> bool {
    V::obeys_eq_spec()
}

/// `a == b`, as `PartialEq` decides it.
pub open spec fn same<V: PartialEq>(a: V, b: V) -> bool {
    a.eq_spec(&b)
}

/// The `==` of `V` holds of two values exactly when they are the same value.
pub open spec fn faithful_eq<V: PartialEq>() -> bool {
    forall|a: V, b: V| #[trigger] same(a, b) <==> a == b
}

/// The order on `V` is total and agrees with equality: any two values are
/// comparable, they compare as equal exactly when they are the same value,
/// `<` is the converse of `>`, and `<` is transitive.
#[verifier::opaque]
pub open spec fn total<V: PartialOrd>() -> bool {
    &&& forall|a: V, b: V| #![trigger a.partial_cmp_spec(&b)] lt(a, b) || gt(a, b) || a == b
    &&& forall|a: V, b: V| #![trigger a.partial_cmp_spec(&b)] (le(a, b) && ge(a, b)) <==> a == b
    &&& forall|a: V, b: V| #![trigger a.partial_cmp_spec(&b)] lt(a, b) <==> gt(b, a)
    &&& forall|a: V, b: V, c: V|
        #![trigger a.partial_cmp_spec(&b), b.partial_cmp_spec(&c)]
        lt(a, b) && lt(b, c) ==> lt(a, c)
}

/// What follows of three values in a total order: `<=` is `<` or equality,
/// `<` excludes its converse and equality, and `<` and `<=` chain.
pub proof fn total_order_facts<V: PartialOrd>(a: V, b: V, c: V)
    requires
        total::<V>(),
    ensures
        comparable(a, b),
        le(a, b) <==> (lt(a, b) || a == b),
        ge(a, b) <==> (gt(a, b) || a == b),
        tied(a, b) <==> a == b,
        gt(a, b) <==> lt(b, a),
        lt(a, b) ==> !lt(b, a) && a != b,
        lt(a, b) && le(b, c) ==> lt(a, c),
        le(a, b) && lt(b, c) ==> lt(a, c),
        le(a, b) && le(b, c) ==> le(a, c),
{
    reveal(total);
    assert(lt(b, a) <==> gt(a, b));
    assert(lt(b, c) || gt(b, c) || b == c);
    assert(lt(a, c) || gt(a, c) || a == c);
}

} // verus!

//! Laws of the bound algebra, proved of the model that the contracts of the
//! executable operations speak of.
use crate::bounds;
use crate::bounds::Bound;
use crate::built_from;
use crate::model::{in_order, Limit, Span};
use crate::order::{ge, gt, le, lt, total, total_order_facts};
use crate::IntervalResult;
use vstd::prelude::*;

verus! {

/// The ordering rule, spelled out: a pair of bounds is in order exactly when
/// one of them is `Unbounded`, or else neither both are closed with the left
/// value greater than the right one, nor one of them is open with the left
/// value greater than or equal to the right one.
pub proof fn in_order_rule<V: PartialOrd>(left: Limit<V>, right: Limit<V>)
    ensures
        (left is Unbounded || right is Unbounded) ==> in_order(left, right),
        left.value() matches Some(l) ==> (right.value() matches Some(r) ==> (in_order(left, right)
            <==> !((left is Closed && right is Closed && gt(l, r)) || ((left is Open
            || right is Open) && ge(l, r))))),
{
}

/// Pinching is commutative on a totally ordered value domain, on either
/// side.
pub proof fn pinch_commutes<V: PartialOrd>(a: Limit<V>, b: Limit<V>)
    requires
        total::<V>(),
    ensures
        a.pinch_left(b) == b.pinch_left(a),
        a.pinch_right(b) == b.pinch_right(a),
{
    reveal(total);
}

/// Unrolling is commutative on a totally ordered value domain, on either
/// side.
pub proof fn unroll_commutes<V: PartialOrd>(a: Limit<V>, b: Limit<V>)
    requires
        total::<V>(),
    ensures
        a.unroll_left(b) == b.unroll_left(a),
        a.unroll_right(b) == b.unroll_right(a),
{
    reveal(total);
}

/// Intersection is commutative on a totally ordered value domain, for every
/// combination of bound kinds: both orders give the same interval, or both
/// give none.
pub proof fn intersect_commutes<V: PartialOrd>(a: Span<V>, b: Span<V>)
    requires
        total::<V>(),
    ensures
        a.intersect(b) == b.intersect(a),
{
    pinch_commutes(a.left, b.left);
    pinch_commutes(a.right, b.right);
}

/// The closure of the union is commutative on a totally ordered value
/// domain.
pub proof fn union_closure_commutes<V: PartialOrd>(a: Span<V>, b: Span<V>)
    requires
        total::<V>(),
    ensures
        a.union_closure(b) == b.union_closure(a),
{
    unroll_commutes(a.left, b.left);
    unroll_commutes(a.right, b.right);
}

/// The unbounded interval is the identity of intersection: intersected with
/// it, from either side, every valid interval comes back as it is.
pub proof fn intersect_unbounded<V: PartialOrd>(x: Span<V>)
    requires
        x.valid(),
    ensures
        Span::<V>::unbounded().intersect(x) == Some(x),
        x.intersect(Span::<V>::unbounded()) == Some(x),
{
}

/// The unbounded interval absorbs every interval under the closure of the
/// union, from either side.
pub proof fn union_closure_unbounded<V: PartialOrd>(x: Span<V>)
    ensures
        Span::<V>::unbounded().union_closure(x) == Span::<V>::unbounded(),
        x.union_closure(Span::<V>::unbounded()) == Span::<V>::unbounded(),
{
}

/// The closure of the union of two valid intervals is itself valid on a
/// totally ordered value domain, which is why it is built without a check.
pub proof fn union_closure_valid<V: PartialOrd>(a: Span<V>, b: Span<V>)
    requires
        total::<V>(),
        a.valid(),
        b.valid(),
    ensures
        a.union_closure(b).valid(),
{
    reveal(total);
}

/// The facts of a total order about three values, in whatever order they are
/// taken.
proof fn every_order<V: PartialOrd>(x: V, y: V, v: V)
    requires
        total::<V>(),
    ensures
        gt(x, y) <==> lt(y, x),
        gt(x, v) <==> lt(v, x),
        gt(y, v) <==> lt(v, y),
        gt(y, x) <==> lt(x, y),
        gt(v, x) <==> lt(x, v),
        gt(v, y) <==> lt(y, v),
        ge(x, y) <==> le(y, x),
        ge(x, v) <==> le(v, x),
        ge(y, v) <==> le(v, y),
        ge(y, x) <==> le(x, y),
        ge(v, x) <==> le(x, v),
        ge(v, y) <==> le(y, v),
        le(x, y) || lt(y, x),
        le(x, v) || lt(v, x),
        le(y, v) || lt(v, y),
        !(le(x, y) && lt(y, x)),
        !(le(x, v) && lt(v, x)),
        !(le(y, v) && lt(v, y)),
        !(le(y, x) && lt(x, y)),
        !(le(v, x) && lt(x, v)),
        !(le(v, y) && lt(y, v)),
        le(x, y) && le(y, v) ==> le(x, v),
        le(y, x) && le(x, v) ==> le(y, v),
        le(v, x) && le(x, y) ==> le(v, y),
        le(v, y) && le(y, x) ==> le(v, x),
        le(x, v) && le(v, y) ==> le(x, y),
        le(y, v) && le(v, x) ==> le(y, x),
        lt(x, y) && le(y, v) ==> lt(x, v),
        lt(y, x) && le(x, v) ==> lt(y, v),
        lt(v, x) && le(x, y) ==> lt(v, y),
        lt(v, y) && le(y, x) ==> lt(v, x),
        lt(x, v) && le(v, y) ==> lt(x, y),
        lt(y, v) && le(v, x) ==> lt(y, x),
        le(x, y) && lt(y, v) ==> lt(x, v),
        le(y, x) && lt(x, v) ==> lt(y, v),
        le(v, x) && lt(x, y) ==> lt(v, y),
        le(v, y) && lt(y, x) ==> lt(v, x),
        le(x, v) && lt(v, y) ==> lt(x, y),
        le(y, v) && lt(v, x) ==> lt(y, x),
{
    total_order_facts(x, y, v);
    total_order_facts(x, v, y);
    total_order_facts(y, x, v);
    total_order_facts(y, v, x);
    total_order_facts(v, x, y);
    total_order_facts(v, y, x);
}

/// On a totally ordered value domain the intersection holds exactly the
/// values that both intervals hold; where there is none, no value lies in
/// both.
pub proof fn intersect_is_the_common_part<V: PartialOrd>(a: Span<V>, b: Span<V>, v: V)
    requires
        total::<V>(),
    ensures
        match a.intersect(b) {
            Some(meet) => meet.contains(v) <==> a.contains(v) && b.contains(v),
            None => !(a.contains(v) && b.contains(v)),
        },
{
    let left = a.left.pinch_left(b.left);
    let right = a.right.pinch_right(b.right);
    assert(left.lower_admits(v) <==> a.left.lower_admits(v) && b.left.lower_admits(v)) by {
        match (a.left.value(), b.left.value()) {
            (Some(x), Some(y)) => every_order(x, y, v),
            _ => {},
        }
    }
    assert(right.upper_admits(v) <==> a.right.upper_admits(v) && b.right.upper_admits(v)) by {
        match (a.right.value(), b.right.value()) {
            (Some(x), Some(y)) => every_order(x, y, v),
            _ => {},
        }
    }
    if !in_order(left, right) {
        match (left.value(), right.value()) {
            (Some(l), Some(r)) => every_order(l, r, v),
            _ => {},
        }
    }
}

/// On a totally ordered value domain the closure of the union holds every
/// value that one of the two intervals holds.
pub proof fn union_closure_covers<V: PartialOrd>(a: Span<V>, b: Span<V>, v: V)
    requires
        total::<V>(),
    ensures
        a.contains(v) || b.contains(v) ==> a.union_closure(b).contains(v),
{
    match (a.left.value(), b.left.value()) {
        (Some(x), Some(y)) => every_order(x, y, v),
        _ => {},
    }
    match (a.right.value(), b.right.value()) {
        (Some(x), Some(y)) => every_order(x, y, v),
        _ => {},
    }
}

/// The order on each primitive integer type is total.
pub proof fn integers_are_totally_ordered()
    ensures
        total::<u8>(),
        total::<u16>(),
        total::<u32>(),
        total::<u64>(),
        total::<u128>(),
        total::<usize>(),
        total::<i8>(),
        total::<i16>(),
        total::<i32>(),
        total::<i64>(),
        total::<i128>(),
        total::<isize>(),
{
    reveal(total);
}

/// Reading back a checked construction: the interval that it yields has the
/// limits of the bounds it was given.
pub proof fn construction_round_trip<L: Bound, R: Bound<Value = L::Value>>(
    outcome: IntervalResult<L, R>,
    left: L,
    right: R,
)
    requires
        built_from(outcome, left, right),
    ensures
        outcome matches Ok(interval) ==> interval@ == (Span { left: left@, right: right@ }),
{
}

/// Reading back a checked closed interval gives the two values, each
/// classified as closed and not open.
pub proof fn closed_round_trip<V: PartialOrd>(
    outcome: IntervalResult<bounds::Closed<V>, bounds::Closed<V>>,
    left: V,
    right: V,
)
    requires
        built_from(outcome, bounds::Closed(left), bounds::Closed(right)),
    ensures
        outcome matches Ok(interval) ==> {
            &&& interval@.left.value() == Some(left)
            &&& interval@.left.is_closed() && !interval@.left.is_open()
            &&& interval@.right.value() == Some(right)
            &&& interval@.right.is_closed() && !interval@.right.is_open()
        },
{
}

/// Reading back a checked open interval gives the two values, each
/// classified as open and not closed.
pub proof fn open_round_trip<V: PartialOrd>(
    outcome: IntervalResult<bounds::Open<V>, bounds::Open<V>>,
    left: V,
    right: V,
)
    requires
        built_from(outcome, bounds::Open(left), bounds::Open(right)),
    ensures
        outcome matches Ok(interval) ==> {
            &&& interval@.left.value() == Some(left)
            &&& interval@.left.is_open() && !interval@.left.is_closed()
            &&& interval@.right.value() == Some(right)
            &&& interval@.right.is_open() && !interval@.right.is_closed()
        },
{
}

/// Reading back a checked left-open, right-closed interval gives the two
/// values, the left one classified as open, the right one as closed.
pub proof fn lorc_round_trip<V: PartialOrd>(
    outcome: IntervalResult<bounds::Open<V>, bounds::Closed<V>>,
    left: V,
    right: V,
)
    requires
        built_from(outcome, bounds::Open(left), bounds::Closed(right)),
    ensures
        outcome matches Ok(interval) ==> {
            &&& interval@.left.value() == Some(left)
            &&& interval@.left.is_open() && !interval@.left.is_closed()
            &&& interval@.right.value() == Some(right)
            &&& interval@.right.is_closed() && !interval@.right.is_open()
        },
{
}

/// Reading back a checked left-closed, right-open interval gives the two
/// values, the left one classified as closed, the right one as open.
pub proof fn lcro_round_trip<V: PartialOrd>(
    outcome: IntervalResult<bounds::Closed<V>, bounds::Open<V>>,
    left: V,
    right: V,
)
    requires
        built_from(outcome, bounds::Closed(left), bounds::Open(right)),
    ensures
        outcome matches Ok(interval) ==> {
            &&& interval@.left.value() == Some(left)
            &&& interval@.left.is_closed() && !interval@.left.is_open()
            &&& interval@.right.value() == Some(right)
            &&& interval@.right.is_open() && !interval@.right.is_closed()
        },
{
}

} // verus!

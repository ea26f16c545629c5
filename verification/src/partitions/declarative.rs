use super::{Partition, PartitionError, SubInterval};
use crate::bounds;
use crate::order::{
    comparable, faithful_eq, ge, gt, le, lt, ordered, same, tied, total, total_order_facts,
};
use crate::Interval;
use std::cmp::Ordering;
use std::ops::Index;
use vstd::pervasive::cloned;
use vstd::prelude::*;
use vstd::std_specs::slice::into_iter_elts;

verus! {

/// Type representing an explicitly defined partition of an interval: the
/// subintervals between consecutive breakpoints.
#[derive(Debug, Clone, Copy, PartialEq)]
pub struct Declarative<const N: usize, V>([V; N]);

/// Each breakpoint is less than or equal to the next one.
pub open spec fn ascending<V: PartialOrd>(points: Seq<V>) -> bool {
    forall|i: int, j: int|
        0 <= i && j == i + 1 && j < points.len() ==> le(#[trigger] points[i], #[trigger] points[j])
}

/// Each breakpoint is less than the next one.
pub open spec fn strictly_ascending<V: PartialOrd>(points: Seq<V>) -> bool {
    forall|i: int, j: int|
        0 <= i && j == i + 1 && j < points.len() ==> lt(#[trigger] points[i], #[trigger] points[j])
}

/// The search that [`binary_search`] makes among the subintervals `low` to
/// `high - 1` of `points`.
///
/// It looks at the middle subinterval. A value inside it is found there; a
/// value that ties with its right edge is found in the next one; otherwise
/// the search goes on in the half on whose side the value lies. Where the value
/// cannot be compared with an edge, or no subinterval is left, nothing is
/// found.
pub open spec fn probe<V: PartialOrd>(points: Seq<V>, value: V, low: usize, high: usize) -> Option<
    usize,
>
    decreases high - low,
{
    if low >= high || high >= points.len() {
        None
    } else {
        let middle = (low + high) / 2;
        let near = points[middle];
        let far = points[middle + 1];
        if !comparable(near, value) || !comparable(far, value) {
            None
        } else if gt(near, value) {
            probe(points, value, low, middle as usize)
        } else if gt(far, value) {
            Some(middle as usize)
        } else if tied(far, value) {
            Some((middle + 1) as usize)
        } else {
            probe(points, value, (middle + 1) as usize, high)
        }
    }
}

/// The search among all the subintervals of `points`.
pub open spec fn locate<V: PartialOrd>(points: Seq<V>, value: V) -> Option<usize> {
    if points.len() == 0 {
        None
    } else {
        probe(points, value, 0, (points.len() - 1) as usize)
    }
}

/// The index that a declarative partition gives to `value`: the last
/// subinterval for a value that equals the final breakpoint, else what the
/// search finds. A partition with fewer than two breakpoints has no
/// subinterval to give.
pub open spec fn find<V: PartialOrd>(points: Seq<V>, value: V) -> Option<usize> {
    if points.len() < 2 {
        None
    } else if same(value, points[points.len() - 1]) {
        Some((points.len() - 2) as usize)
    } else {
        locate(points, value)
    }
}

impl<const N: usize, V> Declarative<N, V> {
    /// The breakpoints, in the order given.
    pub closed spec fn view(&self) -> Seq<V> {
        self.0@
    }

    /// There are `N` breakpoints.
    pub proof fn breakpoints_len(&self)
        ensures
            self@.len() == N,
    {
    }
}

impl<const N: usize, V: PartialOrd> Declarative<N, V> {
    /// The breakpoints ascend. A partition made by [`new`](Declarative::new)
    /// is well formed; one made unchecked is so if its maker saw to it.
    pub open spec fn well_formed(&self) -> bool {
        ascending(self@)
    }

    /// Makes a partition of breakpoints that ascend, and hands back those
    /// that do not as ill-formed.
    pub fn new(bounds: [V; N]) -> (made: Result<Self, PartitionError<[V; N]>>)
        ensures
            match made {
                Ok(partition) => partition@ == bounds@,
                Err(PartitionError::IllFormedBounds(refused)) => refused == bounds,
            },
            ordered::<V>() ==> (made is Ok <==> ascending(bounds@)),
            ordered::<V>() ==> (made matches Ok(partition) ==> partition.well_formed()),
    {
        if N >= 2 {
            let mut i: usize = 0;
            while i < N - 1
                invariant
                    N >= 2,
                    i <= N - 1,
                    bounds@.len() == N,
                    ordered::<V>() ==> forall|j: int, k: int|
                        0 <= j && k == j + 1 && k <= i ==> le(
                            #[trigger] bounds@[j],
                            #[trigger] bounds@[k],
                        ),
                decreases N - i,
            {
                if !(bounds[i] <= bounds[i + 1]) {
                    return Err(PartitionError::IllFormedBounds(bounds));
                }
                i += 1;
            }
        }
        Ok(Declarative(bounds))
    }

    pub fn new_unchecked(bounds: [V; N]) -> (partition: Self)
        ensures
            partition@ == bounds@,
    {
        Declarative(bounds)
    }

    /// An iterator over the breakpoints, first to last.
    pub fn iter(&self) -> (points: std::slice::Iter<'_, V>)
        ensures
            into_iter_elts(points) == self@,
    {
        self.0.iter()
    }
}

impl<const N: usize, V: PartialOrd + Clone> Partition for Declarative<N, V> {
    type Value = V;

    open spec fn count(&self) -> nat {
        if N == 0 {
            0
        } else {
            (N - 1) as nat
        }
    }

    open spec fn admits_index(&self, value: &V) -> bool {
        true
    }

    open spec fn admits_subinterval(&self, k: usize) -> bool {
        true
    }

    open spec fn locates(&self, value: &V, found: Option<usize>) -> bool {
        &&& found matches Some(k) ==> k < N
        &&& ordered::<V>() ==> found == find(self@, *value)
    }

    open spec fn cuts(&self, k: usize, piece: Option<SubInterval<V>>) -> bool {
        match piece {
            Some(sub) => {
                &&& k + 1 < N
                &&& sub.index == k
                &&& cloned(self@[k as int], sub.lower())
                &&& cloned(self@[k + 1], sub.upper())
                &&& sub.interval.right is Closed <==> k + 2 == N
            },
            None => k + 1 >= N,
        }
    }

    fn len(&self) -> usize {
        if N == 0 {
            0
        } else {
            N - 1
        }
    }

    fn index(&self, value: &V) -> Option<usize> {
        if N < 2 {
            None
        } else if *value == self.0[N - 1] {
            Some(N - 2)
        } else {
            binary_search(&self.0, value)
        }
    }

    fn subinterval(&self, k: usize) -> Option<SubInterval<V>> {
        if N < 2 || k >= N - 1 {
            return None;
        }
        let left = bounds::Closed(self.0[k].clone());
        let right = if k == N - 2 {
            bounds::OpenOrClosed::Closed(self.0[k + 1].clone())
        } else {
            bounds::OpenOrClosed::Open(self.0[k + 1].clone())
        };

        Some(SubInterval { index: k, interval: Interval { left, right } })
    }
}

impl<const N: usize, V> Index<usize> for Declarative<N, V> {
    type Output = V;

    /// The breakpoint at `idx`, which must be one of the `N`.
    fn index(&self, idx: usize) -> (point: &V)
        ensures
            *point == self@[idx as int],
    {
        &self.0[idx]
    }
}

impl<const N: usize, V> vstd::std_specs::core::IndexSpecImpl<usize> for Declarative<N, V> {
    open spec fn index_req(&self, idx: &usize) -> bool {
        *idx < N
    }
}

/// Searches the subintervals between consecutive breakpoints for the one
/// that holds `value`, halving the range at each step.
///
/// Returns nothing (and always returns) where the value lies outside the
/// breakpoints or cannot be compared with one of them.
pub fn binary_search<const N: usize, V: PartialOrd>(bounds: &[V; N], value: &V) -> (found: Option<
    usize,
>)
    ensures
        found matches Some(k) ==> k < N,
        ordered::<V>() ==> found == locate(bounds@, *value),
{
    if N == 0 {
        return None;
    }
    let mut low: usize = 0;
    let mut high: usize = N - 1;

    while low < high
        invariant
            low <= high < N,
            bounds@.len() == N,
            ordered::<V>() ==> locate(bounds@, *value) == probe(bounds@, *value, low, high),
        decreases high - low,
    {
        let middle = low + (high - low) / 2;
        assert(middle == (low + high) / 2);

        let l = bounds[middle].partial_cmp(value);
        let r = bounds[middle + 1].partial_cmp(value);

        match (l, r) {
            (Some(l), Some(r)) => {
                match l {
                    Ordering::Less | Ordering::Equal => {
                        match r {
                            Ordering::Greater => {
                                return Some(middle);
                            },
                            Ordering::Equal => {
                                return Some(middle + 1);
                            },
                            Ordering::Less => {
                                low = middle + 1;
                            },
                        }
                    },
                    Ordering::Greater => {
                        high = middle;
                    },
                }
            },
            _ => {
                return None;
            },
        }
    }

    None
}

/// What the search finds holds the value: it lies in the subinterval found,
/// at or above the left edge and below the right one, or it ties with the
/// left edge of the subinterval found and lies at or above the edge before.
/// This holds of any breakpoints, in order or not.
pub proof fn probe_sound<V: PartialOrd>(points: Seq<V>, value: V, low: usize, high: usize)
    ensures
        probe(points, value, low, high) matches Some(k) ==> {
            &&& low <= k <= high < points.len()
            &&& (k < high && le(points[k as int], value) && gt(points[k + 1], value)) || (low < k
                && le(points[k - 1], value) && tied(points[k as int], value))
        },
    decreases high - low,
{
    if low < high && high < points.len() {
        let middle = (low + high) / 2;
        let near = points[middle];
        let far = points[middle + 1];
        if comparable(near, value) && comparable(far, value) {
            if gt(near, value) {
                probe_sound(points, value, low, middle as usize);
            } else if !gt(far, value) && !tied(far, value) {
                probe_sound(points, value, (middle + 1) as usize, high);
            }
        }
    }
}

/// On a totally ordered value domain the search fails only on a value
/// outside the range searched: below its first breakpoint or above its last
/// one. This holds of any breakpoints, in order or not.
pub proof fn probe_complete<V: PartialOrd>(points: Seq<V>, value: V, low: usize, high: usize)
    requires
        total::<V>(),
        low <= high < points.len(),
    ensures
        probe(points, value, low, high) is None ==> low == high || lt(value, points[low as int])
            || gt(value, points[high as int]),
    decreases high - low,
{
    if low < high {
        let middle = (low + high) / 2;
        let near = points[middle];
        let far = points[middle + 1];
        total_order_facts(near, value, value);
        total_order_facts(far, value, value);
        total_order_facts(value, near, near);
        total_order_facts(value, far, far);
        if gt(near, value) {
            probe_complete(points, value, low, middle as usize);
        } else if !gt(far, value) && !tied(far, value) {
            probe_complete(points, value, (middle + 1) as usize, high);
        }
    }
}

/// In strictly ascending breakpoints on a totally ordered value domain, an
/// earlier breakpoint is less than a later one.
pub proof fn ascending_chain<V: PartialOrd>(points: Seq<V>, i: int, j: int)
    requires
        total::<V>(),
        strictly_ascending(points),
        0 <= i < j < points.len(),
    ensures
        lt(points[i], points[j]),
    decreases j - i,
{
    if i + 1 < j {
        ascending_chain(points, i, j - 1);
        total_order_facts(points[i], points[j - 1], points[j]);
    }
}

/// In strictly ascending breakpoints on a totally ordered value domain, no
/// breakpoint is greater than a later one.
pub proof fn ascending_order<V: PartialOrd>(points: Seq<V>, i: int, j: int)
    requires
        total::<V>(),
        strictly_ascending(points),
        0 <= i <= j < points.len(),
    ensures
        le(points[i], points[j]),
{
    total_order_facts(points[i], points[j], points[j]);
    if i < j {
        ascending_chain(points, i, j);
    }
}

/// On a totally ordered value domain, a value at or above `a` is not below
/// it, and a value at or below `b` is not above it.
proof fn not_beyond<V: PartialOrd>(a: V, value: V, b: V)
    requires
        total::<V>(),
    ensures
        le(a, value) ==> !lt(value, a),
        le(value, b) ==> !gt(value, b),
        ge(b, value) <==> le(value, b),
{
    total_order_facts(a, value, value);
    total_order_facts(value, a, a);
    total_order_facts(value, b, b);
    total_order_facts(b, value, value);
}

/// In strictly ascending breakpoints on a totally ordered value domain, what
/// the search finds lies between the first breakpoint and the last one.
proof fn found_in_range<V: PartialOrd>(points: Seq<V>, value: V)
    requires
        total::<V>(),
        strictly_ascending(points),
        points.len() <= usize::MAX,
        locate(points, value) is Some,
    ensures
        points.len() > 0,
        le(points[0], value),
        le(value, points[points.len() - 1]),
{
    let last = (points.len() - 1) as usize;
    let j = locate(points, value)->Some_0;
    probe_sound(points, value, 0, last);
    assert(le(points[j as int], value));
    assert(le(points[0], value)) by {
        ascending_order(points, 0, j as int);
        total_order_facts(points[0], points[j as int], value);
    }
    let b: int = if j < last && gt(points[j + 1], value) {
        j + 1
    } else {
        j as int
    };
    assert(ge(points[b], value));
    assert(le(value, points[last as int])) by {
        not_beyond(value, value, points[b]);
        ascending_order(points, b, last as int);
        total_order_facts(value, points[b], points[last as int]);
    }
}

/// In strictly ascending breakpoints on a totally ordered value domain, a
/// value at or above one breakpoint and below the next is found in the
/// subinterval between the two.
pub proof fn locate_inside<V: PartialOrd>(points: Seq<V>, value: V, k: usize)
    requires
        total::<V>(),
        strictly_ascending(points),
        k + 1 < points.len() <= usize::MAX,
        le(points[k as int], value),
        lt(value, points[k + 1]),
    ensures
        locate(points, value) == Some(k),
{
    let last = (points.len() - 1) as usize;
    assert(!lt(value, points[0])) by {
        ascending_order(points, 0, k as int);
        total_order_facts(points[0], points[k as int], value);
        not_beyond(points[0], value, value);
    }
    assert(!gt(value, points[last as int])) by {
        ascending_order(points, k + 1, last as int);
        total_order_facts(value, points[k + 1], points[last as int]);
        total_order_facts(value, points[last as int], value);
        not_beyond(value, value, points[last as int]);
    }
    probe_complete(points, value, 0, last);
    let j = locate(points, value)->Some_0;
    probe_sound(points, value, 0, last);
    assert(le(points[j as int], value));
    if j < k {
        if gt(points[j + 1], value) {
            assert(false) by {
                ascending_order(points, j + 1, k as int);
                total_order_facts(points[j + 1], points[k as int], value);
                not_beyond(points[j + 1], value, points[j + 1]);
                total_order_facts(points[j + 1], value, value);
            }
        } else {
            assert(false) by {
                ascending_chain(points, j as int, k as int);
                total_order_facts(points[j as int], points[k as int], value);
                total_order_facts(points[j as int], value, value);
            }
        }
    } else if j > k {
        assert(false) by {
            ascending_order(points, k + 1, j as int);
            total_order_facts(points[k + 1], points[j as int], value);
            not_beyond(points[k + 1], value, value);
        }
    }
}

/// In strictly ascending breakpoints on a totally ordered value domain, a
/// value below the first breakpoint or above the last one is found in no
/// subinterval.
pub proof fn locate_outside<V: PartialOrd>(points: Seq<V>, value: V)
    requires
        total::<V>(),
        strictly_ascending(points),
        0 < points.len() <= usize::MAX,
        lt(value, points[0]) || gt(value, points[points.len() - 1]),
    ensures
        locate(points, value) is None,
{
    if locate(points, value) is Some {
        found_in_range(points, value);
        not_beyond(points[0], value, points[points.len() - 1]);
    }
}

/// In strictly ascending breakpoints on a totally ordered value domain with
/// a faithful `==`, a declarative partition gives a value the index of the
/// subinterval that holds it: the one whose left edge it is at or above and
/// whose right edge it is below, or, for the last subinterval, not above.
pub proof fn find_inside<V: PartialOrd>(points: Seq<V>, value: V, k: usize)
    requires
        total::<V>(),
        faithful_eq::<V>(),
        strictly_ascending(points),
        k + 1 < points.len() <= usize::MAX,
        le(points[k as int], value),
        lt(value, points[k + 1]) || (k + 2 == points.len() && value == points[k + 1]),
    ensures
        find(points, value) == Some(k),
{
    let last = points.len() - 1;
    ascending_order(points, k + 1, last);
    total_order_facts(value, points[k + 1], points[last]);
    total_order_facts(value, points[last], points[last]);
    if value != points[last] {
        locate_inside(points, value, k);
    }
}

/// In strictly ascending breakpoints on a totally ordered value domain with
/// a faithful `==`, a declarative partition gives no index to a value below
/// the first breakpoint or above the last one.
pub proof fn find_outside<V: PartialOrd>(points: Seq<V>, value: V)
    requires
        total::<V>(),
        faithful_eq::<V>(),
        strictly_ascending(points),
        0 < points.len() <= usize::MAX,
        lt(value, points[0]) || gt(value, points[points.len() - 1]),
    ensures
        find(points, value) is None,
{
    let last = points.len() - 1;
    ascending_order(points, 0, last);
    total_order_facts(value, points[0], points[last]);
    total_order_facts(value, points[last], points[last]);
    total_order_facts(points[last], value, value);
    if points.len() >= 2 && value != points[last] {
        locate_outside(points, value);
    }
}

} // verus!

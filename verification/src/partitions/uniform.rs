use super::SubInterval;
use crate::bounds;
use crate::order::{gt, lt, ordered, same};
use crate::scalar;
use crate::scalar::{converts, may_be_difference, may_be_product, may_be_quotient, may_be_sum};
use crate::Interval;
use num_traits::{Num, NumCast};
use std::ops::{Add, Div, Mul, Sub};
use vstd::pervasive::cloned;
use vstd::prelude::*;
use vstd::std_specs::ops::{AddSpec, DivSpec, MulSpec, SubSpec};

verus! {

/// Type representing a uniform partitioning of a closed interval.
///
/// The subintervals are of one width: the distance between the two sides,
/// divided by their number. To compute with them the partition converts
/// between `usize` and `V` through `num_traits`; the contracts say which
/// numbers are converted and what is done with the outcome, whatever it is.
///
/// A function that computes asks that each operation it carries out be one
/// that `V` admits on the operands it meets there (for an integer: no
/// overflow, no division by zero).
#[derive(Debug, Clone, Copy, PartialEq)]
pub struct Uniform<V> {
    /// The number of partitions in the partitioning.
    pub size: usize,
    /// The left side of the interval.
    pub left: V,
    /// The right side of the interval.
    pub right: V,
}

impl<V> Uniform<V> where
    V: Clone + PartialOrd + Num + NumCast,
    V: Add<Output = V> + Sub<Output = V> + Mul<Output = V> + Div<Output = V>,
 {
    /// `width` is the distance between the two sides, each cloned first,
    /// divided by `count`.
    pub open spec fn is_width(&self, count: V, width: V) -> bool {
        exists|r: V, l: V, range: V|
            #![trigger may_be_difference(r, l, range)]
            {
                &&& cloned(self.right, r)
                &&& cloned(self.left, l)
                &&& may_be_difference(r, l, range)
                &&& may_be_quotient(range, count, width)
            }
    }

    /// `V` admits the operations that give the width for `count`
    /// subintervals: the subtraction of the left side from the right one, and
    /// the division of what comes of it by `count`.
    pub open spec fn admits_width(&self, count: V) -> bool {
        forall|r: V, l: V|
            #![trigger r.sub_req(l)]
            cloned(self.right, r) && cloned(self.left, l) ==> r.sub_req(l) && forall|range: V|
                #![trigger range.div_req(count)]
                may_be_difference(r, l, range) ==> range.div_req(count)
    }

    /// `steps` is the distance from the left side to `value`, each cloned
    /// first, divided by `width`.
    pub open spec fn is_steps(&self, value: V, width: V, steps: V) -> bool {
        exists|v: V, l: V, diff: V|
            #![trigger may_be_difference(v, l, diff)]
            {
                &&& cloned(value, v)
                &&& cloned(self.left, l)
                &&& may_be_difference(v, l, diff)
                &&& may_be_quotient(diff, width, steps)
            }
    }

    /// `V` admits the operations that give the number of widths up to
    /// `value`: the subtraction of the left side from `value`, and the
    /// division of what comes of it by `width`.
    pub open spec fn admits_steps(&self, value: V, width: V) -> bool {
        forall|v: V, l: V|
            #![trigger v.sub_req(l)]
            cloned(value, v) && cloned(self.left, l) ==> v.sub_req(l) && forall|diff: V|
                #![trigger diff.div_req(width)]
                may_be_difference(v, l, diff) ==> diff.div_req(width)
    }

    /// `edge` lies `steps` times `width` to the right of the left side, the
    /// side and the width each cloned first.
    pub open spec fn is_edge(&self, steps: V, width: V, edge: V) -> bool {
        exists|l: V, w: V, shift: V|
            #![trigger may_be_product(steps, w, shift), may_be_sum(l, shift, edge)]
            {
                &&& cloned(self.left, l)
                &&& cloned(width, w)
                &&& may_be_product(steps, w, shift)
                &&& may_be_sum(l, shift, edge)
            }
    }

    /// `V` admits the operations that give the edge `steps` widths in: the
    /// multiplication of `steps` by `width`, and the addition of what comes of
    /// it to the left side.
    pub open spec fn admits_edge(&self, steps: V, width: V) -> bool {
        forall|l: V, w: V|
            #![trigger cloned(self.left, l), steps.mul_req(w)]
            cloned(self.left, l) && cloned(width, w) ==> steps.mul_req(w) && forall|shift: V|
                #![trigger l.add_req(shift)]
                may_be_product(steps, w, shift) ==> l.add_req(shift)
    }

    /// `width` is an outcome of [`partition_width`](Uniform::partition_width):
    /// the width for the number of subintervals as converted to `V`, and
    /// nothing where the conversion has no result.
    pub open spec fn gives_width(&self, width: Option<V>) -> bool {
        exists|count: Option<V>| #[trigger]
            converts(self.size, count) && match count {
                Some(c) => width matches Some(w) && self.is_width(c, w),
                None => width is None,
            }
    }

    /// `V` admits the operations that give the width, whatever the number of
    /// subintervals converts to.
    pub open spec fn admits_partition_width(&self) -> bool {
        forall|count: V| #[trigger] converts(self.size, Some(count)) ==> self.admits_width(count)
    }

    /// `found` is the number of widths between the left side and `value`, as
    /// converted to `usize`, and nothing where a conversion has no result.
    pub open spec fn counts_widths(&self, value: V, found: Option<usize>) -> bool {
        exists|width: Option<V>| #[trigger]
            self.gives_width(width) && match width {
                Some(w) => exists|steps: V| #[trigger]
                    converts(steps, found) && self.is_steps(value, w, steps),
                None => found is None,
            }
    }

    /// `V` admits the operations that count the widths up to `value`,
    /// whatever the number of subintervals converts to.
    pub open spec fn admits_count(&self, value: V) -> bool {
        forall|count: V| #[trigger]
            converts(self.size, Some(count)) ==> self.admits_width(count) && forall|w: V| #[trigger]
                self.is_width(count, w) ==> self.admits_steps(value, w)
    }

    /// The index of the last subinterval, if there is one.
    pub open spec fn last(&self) -> Option<usize> {
        if self.size > 0 {
            Some((self.size - 1) as usize)
        } else {
            None
        }
    }

    /// `value` is one whose index is known without arithmetic: it lies
    /// outside the two sides, or it is the right side itself.
    pub open spec fn at_the_rim(&self, value: V) -> bool {
        ordered::<V>() && (lt(value, self.left) || gt(value, self.right) || same(value, self.right))
    }

    /// The partition can look `value` up: the index is known without
    /// arithmetic, or `V` admits the operations that count the widths.
    pub open spec fn admits_index(&self, value: &V) -> bool {
        self.at_the_rim(*value) || self.admits_count(*value)
    }

    /// The partition can make the subinterval `k`: there is none, or `V`
    /// admits the operations that give its edges.
    pub open spec fn admits_subinterval(&self, k: usize) -> bool {
        k >= self.size || self.admits_edges(k)
    }

    /// `found` is an outcome of [`index`](Uniform::index) for `value`: nothing
    /// for a value outside the two sides, the last subinterval for the right
    /// side itself, and for any other value the number of widths between the
    /// left side and the value.
    pub open spec fn locates(&self, value: &V, found: Option<usize>) -> bool {
        &&& found is None || found == self.last() || self.counts_widths(*value, found)
        &&& ordered::<V>() ==> if lt(*value, self.left) || gt(*value, self.right) {
            found is None
        } else if same(*value, self.right) {
            found == self.last()
        } else {
            self.counts_widths(*value, found)
        }
    }

    /// `piece` is an outcome of [`subinterval`](Uniform::subinterval) for
    /// `k`: for `k` below the number of subintervals the subinterval from `k`
    /// widths to the right of the left side to `k + 1` widths, closed on the
    /// left, and on the right open but for the last one; nothing for another
    /// `k`, nor where one of the conversions of the size, of `k` and of
    /// `k + 1` to `V` has no result.
    pub open spec fn cuts(&self, k: usize, piece: Option<SubInterval<V>>) -> bool {
        if k >= self.size {
            piece is None
        } else {
            exists|width: Option<V>, near: Option<V>, far: Option<V>, next: usize|
                #![trigger self.gives_width(width), converts(k, near), converts(next, far)]
                {
                    &&& next == k + 1
                    &&& self.gives_width(width)
                    &&& converts(k, near)
                    &&& converts(next, far)
                    &&& match (width, near, far) {
                        (Some(w), Some(a), Some(b)) => {
                            &&& piece matches Some(sub)
                            &&& sub.index == k
                            &&& sub.interval.right is Closed <==> k + 1 == self.size
                            &&& self.is_edge(a, w, sub.lower())
                            &&& self.is_edge(b, w, sub.upper())
                        },
                        _ => piece is None,
                    }
                }
        }
    }

    /// `V` admits the operations that give the two edges of the subinterval
    /// `k`, whatever the number of subintervals, `k` and `k + 1` convert to.
    pub open spec fn admits_edges(&self, k: usize) -> bool {
        &&& self.admits_partition_width()
        &&& forall|count: V, w: V, a: V, b: V, next: usize|
            #![trigger self.is_width(count, w), converts(k, Some(a)), converts(next, Some(b))]
            {
                &&& next == k + 1
                &&& converts(self.size, Some(count))
                &&& self.is_width(count, w)
                &&& converts(k, Some(a))
                &&& converts(next, Some(b))
            } ==> self.admits_edge(a, w) && self.admits_edge(b, w)
    }

    /// The width of one subinterval of a partition into `count` of them.
    pub fn width_for(&self, count: V) -> (width: V)
        requires
            self.admits_width(count),
        ensures
            self.is_width(count, width),
    {
        let r = self.right.clone();
        let l = self.left.clone();
        assert(r.sub_req(l));
        assert(forall|d: V| may_be_difference(r, l, d) ==> #[trigger] d.div_req(count));
        let range = r - l;
        assert(may_be_difference(r, l, range));

        range / count
    }

    /// The number of subinterval widths between the left side and `value`.
    pub fn widths_to(&self, value: &V, width: V) -> (steps: V)
        requires
            self.admits_steps(*value, width),
        ensures
            self.is_steps(*value, width, steps),
    {
        let v = value.clone();
        let l = self.left.clone();
        assert(v.sub_req(l));
        assert(forall|d: V| may_be_difference(v, l, d) ==> #[trigger] d.div_req(width));
        let diff = v - l;
        assert(may_be_difference(v, l, diff));

        diff / width
    }

    /// The edge that lies `steps` subinterval widths to the right of the left
    /// side.
    pub fn edge_at(&self, steps: V, width: &V) -> (edge: V)
        requires
            self.admits_edge(steps, *width),
        ensures
            self.is_edge(steps, *width, edge),
    {
        let l = self.left.clone();
        let w = width.clone();
        assert(cloned(self.left, l) && cloned(*width, w));
        let ghost steps_taken = steps;
        let shift = steps * w;
        assert(may_be_product(steps_taken, w, shift));
        let edge = l + shift;
        assert(may_be_sum(l, shift, edge));
        edge
    }

    /// The subinterval `k`, given the numbers of widths from the left side to
    /// its two edges: closed on the left, and on the right open but for the
    /// last one.
    pub fn subinterval_at(&self, k: usize, near: V, far: V, width: &V) -> (sub: SubInterval<V>)
        requires
            self.admits_edge(near, *width),
            self.admits_edge(far, *width),
        ensures
            sub.index == k,
            sub.interval.right is Closed <==> k + 1 == self.size,
            self.is_edge(near, *width, sub.lower()),
            self.is_edge(far, *width, sub.upper()),
    {
        let left = bounds::Closed(self.edge_at(near, width));
        let right = if self.size > 0 && k == self.size - 1 {
            bounds::OpenOrClosed::Closed(self.edge_at(far, width))
        } else {
            bounds::OpenOrClosed::Open(self.edge_at(far, width))
        };

        SubInterval { index: k, interval: Interval { left, right } }
    }

    /// The width of one subinterval, or `None` where the number of
    /// subintervals has no counterpart in `V`.
    pub fn partition_width(&self) -> (width: Option<V>)
        requires
            self.admits_partition_width(),
        ensures
            self.gives_width(width),
    {
        let count = scalar::convert::<usize, V>(self.size);
        let width = match count {
            Some(count) => Some(self.width_for(count)),
            None => None,
        };
        assert(converts(self.size, count));
        width
    }

    /// Return the number of subintervals in the partition.
    pub fn len(&self) -> (n: usize)
        ensures
            n == self.size,
    {
        self.size
    }

    /// Compute the index of the subinterval associated with the given value.
    ///
    /// A value outside the two sides has none. The right side itself belongs
    /// to the last subinterval. For any other value the index is the number
    /// of widths between the left side and the value, as converted to
    /// `usize`; only for such a value is anything computed, and only then
    /// must `V` admit the operations.
    pub fn index(&self, value: &V) -> (found: Option<usize>)
        requires
            self.admits_index(value),
        ensures
            self.locates(value, found),
    {
        if *value < self.left || *value > self.right {
            return None;
        }
        if *value == self.right {
            return if self.size > 0 {
                Some(self.size - 1)
            } else {
                None
            };
        }
        let width = self.partition_width();
        let ghost width_given = width;
        match width {
            Some(w) => {
                let steps = self.widths_to(value, w);
                let ghost steps_taken = steps;
                let found = scalar::convert::<V, usize>(steps);
                assert(self.gives_width(width_given) && converts(steps_taken, found));
                found
            },
            None => None,
        }
    }

    /// Return the kth subinterval of the partition: from `k` widths to the
    /// right of the left side to one width further, closed on the left, and
    /// on the right open but for the last one.
    ///
    /// For `k` at or past the number of subintervals there is none, and
    /// nothing is computed; only for a lesser `k` must `V` admit the
    /// operations.
    pub fn subinterval(&self, k: usize) -> (piece: Option<SubInterval<V>>)
        requires
            self.admits_subinterval(k),
        ensures
            self.cuts(k, piece),
    {
        if k >= self.size {
            return None;
        }
        let width = self.partition_width();
        let near = scalar::convert::<usize, V>(k);
        let far = scalar::convert::<usize, V>(k + 1);
        let ghost given = (width, near, far);
        assert(self.gives_width(given.0) && converts(k, given.1) && converts(
            (k + 1) as usize,
            given.2,
        ));
        match (width, near, far) {
            (Some(w), Some(a), Some(b)) => Some(self.subinterval_at(k, a, b, &w)),
            _ => None,
        }
    }

    /// Return the subinterval to which the given value belongs: the one that
    /// `subinterval` returns for the index that `index` returns, and nothing
    /// where `index` finds none.
    pub fn digitise(&self, value: &V) -> (piece: Option<SubInterval<V>>)
        requires
            self.admits_index(value),
            forall|k: usize| #[trigger] self.locates(value, Some(k)) ==> self.admits_subinterval(k),
        ensures
            exists|found: Option<usize>| #[trigger]
                self.locates(value, found) && match found {
                    Some(k) => self.cuts(k, piece),
                    None => piece is None,
                },
    {
        match self.index(value) {
            Some(k) => self.subinterval(k),
            None => None,
        }
    }
}

} // verus!

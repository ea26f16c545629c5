use super::{Bound, Closed, LimitPoint, NoBound, OpenOrClosed, Pinch, ProperBound, Unroll};
use crate::model::Limit;
use crate::order::same;
use crate::private::Sealed;
use vstd::prelude::*;
use vstd::std_specs::cmp::PartialEqSpec;
use vstd::std_specs::cmp::PartialEqSpecImpl;

verus! {

/// Type representing an open bound.
#[derive(Debug, Clone, Copy)]
pub struct Open<V>(pub V);

impl<V> Sealed for Open<V> {

}

// Core:
impl<V: PartialOrd> Bound for Open<V> {
    type Value = V;

    open spec fn view(&self) -> Limit<V> {
        Limit::Open(self.0)
    }

    fn value(&self) -> Option<&V> {
        Some(&self.0)
    }

    fn is_open(&self) -> bool {
        true
    }

    fn is_closed(&self) -> bool {
        false
    }
}

impl<V: PartialOrd> LimitPoint for Open<V> {
    type WithLimit = Closed<V>;

    fn with_limit_point(self) -> Closed<V> {
        Closed(self.0)
    }
}

impl<V: PartialOrd> ProperBound for Open<V> {
    fn proper_value(&self) -> &V {
        &self.0
    }
}

// Pinch:
impl<V: PartialOrd> Pinch<Open<V>> for Open<V> {
    type Left = Open<V>;

    type Right = Open<V>;

    fn pinch_left(self, other: Open<V>) -> Open<V> {
        if self.0 >= other.0 {
            self
        } else {
            other
        }
    }

    fn pinch_right(self, other: Open<V>) -> Open<V> {
        if self.0 <= other.0 {
            self
        } else {
            other
        }
    }
}

impl<V: PartialOrd> Pinch<Closed<V>> for Open<V> {
    type Left = OpenOrClosed<V>;

    type Right = OpenOrClosed<V>;

    fn pinch_left(self, other: Closed<V>) -> OpenOrClosed<V> {
        if self.0 >= other.0 {
            OpenOrClosed::Open(self.0)
        } else {
            OpenOrClosed::Closed(other.0)
        }
    }

    fn pinch_right(self, other: Closed<V>) -> OpenOrClosed<V> {
        if self.0 <= other.0 {
            OpenOrClosed::Open(self.0)
        } else {
            OpenOrClosed::Closed(other.0)
        }
    }
}

// Unroll:
impl<V: PartialOrd> Unroll<Open<V>> for Open<V> {
    type Left = Open<V>;

    type Right = Open<V>;

    fn unroll_left(self, other: Open<V>) -> Open<V> {
        if self.0 <= other.0 {
            self
        } else {
            other
        }
    }

    fn unroll_right(self, other: Open<V>) -> Open<V> {
        if self.0 >= other.0 {
            self
        } else {
            other
        }
    }
}

impl<V: PartialOrd> Unroll<Closed<V>> for Open<V> {
    type Left = OpenOrClosed<V>;

    type Right = OpenOrClosed<V>;

    fn unroll_left(self, other: Closed<V>) -> OpenOrClosed<V> {
        if self.0 < other.0 {
            OpenOrClosed::Open(self.0)
        } else {
            OpenOrClosed::Closed(other.0)
        }
    }

    fn unroll_right(self, other: Closed<V>) -> OpenOrClosed<V> {
        if self.0 > other.0 {
            OpenOrClosed::Open(self.0)
        } else {
            OpenOrClosed::Closed(other.0)
        }
    }
}

// Comparison:
impl<V: PartialEq> PartialEq for Open<V> {
    fn eq(&self, other: &Open<V>) -> (r: bool) {
        self.0 == other.0
    }
}

impl<V: PartialEq> PartialEqSpecImpl for Open<V> {
    open spec fn obeys_eq_spec() -> bool {
        V::obeys_eq_spec()
    }

    open spec fn eq_spec(&self, other: &Open<V>) -> bool {
        same(self.0, other.0)
    }
}

impl<V> PartialEq<Closed<V>> for Open<V> {
    fn eq(&self, other: &Closed<V>) -> (r: bool) {
        false
    }
}

impl<V> PartialEqSpecImpl<Closed<V>> for Open<V> {
    open spec fn obeys_eq_spec() -> bool {
        true
    }

    open spec fn eq_spec(&self, other: &Closed<V>) -> bool {
        false
    }
}

impl<V> PartialEq<NoBound<V>> for Open<V> {
    fn eq(&self, other: &NoBound<V>) -> (r: bool) {
        false
    }
}

impl<V> PartialEqSpecImpl<NoBound<V>> for Open<V> {
    open spec fn obeys_eq_spec() -> bool {
        true
    }

    open spec fn eq_spec(&self, other: &NoBound<V>) -> bool {
        false
    }
}

impl<V: PartialEq> PartialEq<OpenOrClosed<V>> for Open<V> {
    fn eq(&self, other: &OpenOrClosed<V>) -> (r: bool) {
        match other {
            OpenOrClosed::Open(inner) => self.0 == *inner,
            OpenOrClosed::Closed(_) => false,
        }
    }
}

impl<V: PartialEq> PartialEqSpecImpl<OpenOrClosed<V>> for Open<V> {
    open spec fn obeys_eq_spec() -> bool {
        V::obeys_eq_spec()
    }

    open spec fn eq_spec(&self, other: &OpenOrClosed<V>) -> bool {
        match *other {
            OpenOrClosed::Open(inner) => same(self.0, inner),
            OpenOrClosed::Closed(_) => false,
        }
    }
}

} // verus!

use super::{Bound, LimitPoint, NoBound, Open, OpenOrClosed, Pinch, ProperBound, Unroll};
use crate::model::Limit;
use crate::order::same;
use crate::private::Sealed;
use vstd::prelude::*;
use vstd::std_specs::cmp::PartialEqSpec;
use vstd::std_specs::cmp::PartialEqSpecImpl;

verus! {

/// Type representing a closed bound.
#[derive(Debug, Clone, Copy)]
pub struct Closed<V>(pub V);

impl<V> Sealed for Closed<V> {

}

// Core:
impl<V: PartialOrd> Bound for Closed<V> {
    type Value = V;

    open spec fn view(&self) -> Limit<V> {
        Limit::Closed(self.0)
    }

    fn value(&self) -> Option<&V> {
        Some(&self.0)
    }

    fn is_open(&self) -> bool {
        false
    }

    fn is_closed(&self) -> bool {
        true
    }
}

impl<V: PartialOrd> LimitPoint for Closed<V> {
    type WithLimit = Closed<V>;

    fn with_limit_point(self) -> Closed<V> {
        self
    }
}

impl<V: PartialOrd> ProperBound for Closed<V> {
    fn proper_value(&self) -> &V {
        &self.0
    }
}

// Pinch:
impl<V: PartialOrd> Pinch<Open<V>> for Closed<V> {
    type Left = OpenOrClosed<V>;

    type Right = OpenOrClosed<V>;

    fn pinch_left(self, other: Open<V>) -> OpenOrClosed<V> {
        if self.0 > other.0 {
            OpenOrClosed::Closed(self.0)
        } else {
            OpenOrClosed::Open(other.0)
        }
    }

    fn pinch_right(self, other: Open<V>) -> OpenOrClosed<V> {
        if self.0 < other.0 {
            OpenOrClosed::Closed(self.0)
        } else {
            OpenOrClosed::Open(other.0)
        }
    }
}

impl<V: PartialOrd> Pinch<Closed<V>> for Closed<V> {
    type Left = Closed<V>;

    type Right = Closed<V>;

    fn pinch_left(self, other: Closed<V>) -> Closed<V> {
        if self.0 >= other.0 {
            self
        } else {
            other
        }
    }

    fn pinch_right(self, other: Closed<V>) -> Closed<V> {
        if self.0 <= other.0 {
            self
        } else {
            other
        }
    }
}

// Unroll:
impl<V: PartialOrd> Unroll<Open<V>> for Closed<V> {
    type Left = OpenOrClosed<V>;

    type Right = OpenOrClosed<V>;

    fn unroll_left(self, other: Open<V>) -> OpenOrClosed<V> {
        if self.0 <= other.0 {
            OpenOrClosed::Closed(self.0)
        } else {
            OpenOrClosed::Open(other.0)
        }
    }

    fn unroll_right(self, other: Open<V>) -> OpenOrClosed<V> {
        if self.0 >= other.0 {
            OpenOrClosed::Closed(self.0)
        } else {
            OpenOrClosed::Open(other.0)
        }
    }
}

impl<V: PartialOrd> Unroll<Closed<V>> for Closed<V> {
    type Left = Closed<V>;

    type Right = Closed<V>;

    fn unroll_left(self, other: Closed<V>) -> Closed<V> {
        if self.0 <= other.0 {
            self
        } else {
            other
        }
    }

    fn unroll_right(self, other: Closed<V>) -> Closed<V> {
        if self.0 >= other.0 {
            self
        } else {
            other
        }
    }
}

// Comparison:
impl<V: PartialEq> PartialEq for Closed<V> {
    fn eq(&self, other: &Closed<V>) -> (r: bool) {
        self.0 == other.0
    }
}

impl<V: PartialEq> PartialEqSpecImpl for Closed<V> {
    open spec fn obeys_eq_spec() -> bool {
        V::obeys_eq_spec()
    }

    open spec fn eq_spec(&self, other: &Closed<V>) -> bool {
        same(self.0, other.0)
    }
}

impl<V> PartialEq<Open<V>> for Closed<V> {
    fn eq(&self, other: &Open<V>) -> (r: bool) {
        false
    }
}

impl<V> PartialEqSpecImpl<Open<V>> for Closed<V> {
    open spec fn obeys_eq_spec() -> bool {
        true
    }

    open spec fn eq_spec(&self, other: &Open<V>) -> bool {
        false
    }
}

impl<V> PartialEq<NoBound<V>> for Closed<V> {
    fn eq(&self, other: &NoBound<V>) -> (r: bool) {
        false
    }
}

impl<V> PartialEqSpecImpl<NoBound<V>> for Closed<V> {
    open spec fn obeys_eq_spec() -> bool {
        true
    }

    open spec fn eq_spec(&self, other: &NoBound<V>) -> bool {
        false
    }
}

impl<V: PartialEq> PartialEq<OpenOrClosed<V>> for Closed<V> {
    fn eq(&self, other: &OpenOrClosed<V>) -> (r: bool) {
        match other {
            OpenOrClosed::Closed(inner) => self.0 == *inner,
            OpenOrClosed::Open(_) => false,
        }
    }
}

impl<V: PartialEq> PartialEqSpecImpl<OpenOrClosed<V>> for Closed<V> {
    open spec fn obeys_eq_spec() -> bool {
        V::obeys_eq_spec()
    }

    open spec fn eq_spec(&self, other: &OpenOrClosed<V>) -> bool {
        match *other {
            OpenOrClosed::Closed(inner) => same(self.0, inner),
            OpenOrClosed::Open(_) => false,
        }
    }
}

} // verus!

use super::{Bound, Closed, LimitPoint, NoBound, Open, Pinch, ProperBound, Unroll};
use crate::model::Limit;
use crate::order::same;
use crate::private::Sealed;
use vstd::prelude::*;
use vstd::std_specs::cmp::PartialEqSpec;
use vstd::std_specs::cmp::PartialEqSpecImpl;
use vstd::std_specs::convert::FromSpecImpl;

verus! {

/// Union type representing a bound that is either open or closed.
#[derive(Debug, Clone, Copy)]
pub enum OpenOrClosed<V> {
    /// The open bound variant.
    Open(V),
    /// The closed bound variant.
    Closed(V),
}

impl<V> OpenOrClosed<V> {
    /// The value of the bound, whichever kind it is of.
    pub open spec fn inner(self) -> V {
        match self {
            OpenOrClosed::Open(x) => x,
            OpenOrClosed::Closed(x) => x,
        }
    }

    pub fn unwrap(self) -> (x: V)
        ensures
            x == self.inner(),
    {
        match self {
            OpenOrClosed::Open(x) => x,
            OpenOrClosed::Closed(x) => x,
        }
    }
}

impl<V> From<Open<V>> for OpenOrClosed<V> {
    fn from(bound: Open<V>) -> (r: OpenOrClosed<V>) {
        OpenOrClosed::Open(bound.0)
    }
}

impl<V> FromSpecImpl<Open<V>> for OpenOrClosed<V> {
    open spec fn obeys_from_spec() -> bool {
        true
    }

    open spec fn from_spec(bound: Open<V>) -> OpenOrClosed<V> {
        OpenOrClosed::Open(bound.0)
    }
}

impl<V> From<Closed<V>> for OpenOrClosed<V> {
    fn from(bound: Closed<V>) -> (r: OpenOrClosed<V>) {
        OpenOrClosed::Closed(bound.0)
    }
}

impl<V> FromSpecImpl<Closed<V>> for OpenOrClosed<V> {
    open spec fn obeys_from_spec() -> bool {
        true
    }

    open spec fn from_spec(bound: Closed<V>) -> OpenOrClosed<V> {
        OpenOrClosed::Closed(bound.0)
    }
}

impl<V> Sealed for OpenOrClosed<V> {

}

impl<V: PartialOrd> Bound for OpenOrClosed<V> {
    type Value = V;

    open spec fn view(&self) -> Limit<V> {
        match *self {
            OpenOrClosed::Open(v) => Limit::Open(v),
            OpenOrClosed::Closed(v) => Limit::Closed(v),
        }
    }

    fn value(&self) -> Option<&V> {
        match self {
            OpenOrClosed::Open(v) => Some(v),
            OpenOrClosed::Closed(v) => Some(v),
        }
    }

    fn is_open(&self) -> bool {
        match self {
            OpenOrClosed::Open(_) => true,
            OpenOrClosed::Closed(_) => false,
        }
    }

    fn is_closed(&self) -> bool {
        match self {
            OpenOrClosed::Open(_) => false,
            OpenOrClosed::Closed(_) => true,
        }
    }
}

impl<V: PartialOrd> LimitPoint for OpenOrClosed<V> {
    type WithLimit = Closed<V>;

    fn with_limit_point(self) -> Closed<V> {
        match self {
            OpenOrClosed::Open(v) => Closed(v),
            OpenOrClosed::Closed(v) => Closed(v),
        }
    }
}

impl<V: PartialOrd> ProperBound for OpenOrClosed<V> {
    fn proper_value(&self) -> &V {
        match self {
            OpenOrClosed::Open(v) => v,
            OpenOrClosed::Closed(v) => v,
        }
    }
}

// Pinch:
impl<V: PartialOrd> Pinch<Open<V>> for OpenOrClosed<V> {
    type Left = OpenOrClosed<V>;

    type Right = OpenOrClosed<V>;

    fn pinch_left(self, other: Open<V>) -> OpenOrClosed<V> {
        match self {
            OpenOrClosed::Open(x) => OpenOrClosed::from(Open(x).pinch_left(other)),
            OpenOrClosed::Closed(x) => Closed(x).pinch_left(other),
        }
    }

    fn pinch_right(self, other: Open<V>) -> OpenOrClosed<V> {
        match self {
            OpenOrClosed::Open(x) => OpenOrClosed::from(Open(x).pinch_right(other)),
            OpenOrClosed::Closed(x) => Closed(x).pinch_right(other),
        }
    }
}

impl<V: PartialOrd> Pinch<OpenOrClosed<V>> for Open<V> {
    type Left = OpenOrClosed<V>;

    type Right = OpenOrClosed<V>;

    fn pinch_left(self, other: OpenOrClosed<V>) -> OpenOrClosed<V> {
        match other {
            OpenOrClosed::Open(x) => OpenOrClosed::from(self.pinch_left(Open(x))),
            OpenOrClosed::Closed(x) => self.pinch_left(Closed(x)),
        }
    }

    fn pinch_right(self, other: OpenOrClosed<V>) -> OpenOrClosed<V> {
        match other {
            OpenOrClosed::Open(x) => OpenOrClosed::from(self.pinch_right(Open(x))),
            OpenOrClosed::Closed(x) => self.pinch_right(Closed(x)),
        }
    }
}

impl<V: PartialOrd> Pinch<Closed<V>> for OpenOrClosed<V> {
    type Left = OpenOrClosed<V>;

    type Right = OpenOrClosed<V>;

    fn pinch_left(self, other: Closed<V>) -> OpenOrClosed<V> {
        match self {
            OpenOrClosed::Open(x) => Open(x).pinch_left(other),
            OpenOrClosed::Closed(x) => OpenOrClosed::from(Closed(x).pinch_left(other)),
        }
    }

    fn pinch_right(self, other: Closed<V>) -> OpenOrClosed<V> {
        match self {
            OpenOrClosed::Open(x) => Open(x).pinch_right(other),
            OpenOrClosed::Closed(x) => OpenOrClosed::from(Closed(x).pinch_right(other)),
        }
    }
}

impl<V: PartialOrd> Pinch<OpenOrClosed<V>> for Closed<V> {
    type Left = OpenOrClosed<V>;

    type Right = OpenOrClosed<V>;

    fn pinch_left(self, other: OpenOrClosed<V>) -> OpenOrClosed<V> {
        match other {
            OpenOrClosed::Open(x) => self.pinch_left(Open(x)),
            OpenOrClosed::Closed(x) => OpenOrClosed::from(self.pinch_left(Closed(x))),
        }
    }

    fn pinch_right(self, other: OpenOrClosed<V>) -> OpenOrClosed<V> {
        match other {
            OpenOrClosed::Open(x) => self.pinch_right(Open(x)),
            OpenOrClosed::Closed(x) => OpenOrClosed::from(self.pinch_right(Closed(x))),
        }
    }
}

impl<V: PartialOrd> Pinch<NoBound<V>> for OpenOrClosed<V> {
    type Left = OpenOrClosed<V>;

    type Right = OpenOrClosed<V>;

    fn pinch_left(self, other: NoBound<V>) -> OpenOrClosed<V> {
        match self {
            OpenOrClosed::Open(x) => OpenOrClosed::from(Open(x).pinch_left(other)),
            OpenOrClosed::Closed(x) => OpenOrClosed::from(Closed(x).pinch_left(other)),
        }
    }

    fn pinch_right(self, other: NoBound<V>) -> OpenOrClosed<V> {
        match self {
            OpenOrClosed::Open(x) => OpenOrClosed::from(Open(x).pinch_right(other)),
            OpenOrClosed::Closed(x) => OpenOrClosed::from(Closed(x).pinch_right(other)),
        }
    }
}

impl<V: PartialOrd> Pinch<OpenOrClosed<V>> for NoBound<V> {
    type Left = OpenOrClosed<V>;

    type Right = OpenOrClosed<V>;

    fn pinch_left(self, other: OpenOrClosed<V>) -> OpenOrClosed<V> {
        match other {
            OpenOrClosed::Open(x) => OpenOrClosed::from(self.pinch_left(Open(x))),
            OpenOrClosed::Closed(x) => OpenOrClosed::from(self.pinch_left(Closed(x))),
        }
    }

    fn pinch_right(self, other: OpenOrClosed<V>) -> OpenOrClosed<V> {
        match other {
            OpenOrClosed::Open(x) => OpenOrClosed::from(self.pinch_right(Open(x))),
            OpenOrClosed::Closed(x) => OpenOrClosed::from(self.pinch_right(Closed(x))),
        }
    }
}

impl<V: PartialOrd> Pinch<OpenOrClosed<V>> for OpenOrClosed<V> {
    type Left = OpenOrClosed<V>;

    type Right = OpenOrClosed<V>;

    fn pinch_left(self, other: OpenOrClosed<V>) -> OpenOrClosed<V> {
        match self {
            OpenOrClosed::Open(x) => Open(x).pinch_left(other),
            OpenOrClosed::Closed(x) => Closed(x).pinch_left(other),
        }
    }

    fn pinch_right(self, other: OpenOrClosed<V>) -> OpenOrClosed<V> {
        match self {
            OpenOrClosed::Open(x) => Open(x).pinch_right(other),
            OpenOrClosed::Closed(x) => Closed(x).pinch_right(other),
        }
    }
}

// Unroll:
impl<V: PartialOrd> Unroll<OpenOrClosed<V>> for OpenOrClosed<V> {
    type Left = OpenOrClosed<V>;

    type Right = OpenOrClosed<V>;

    fn unroll_left(self, other: OpenOrClosed<V>) -> OpenOrClosed<V> {
        match self {
            OpenOrClosed::Open(x) => Open(x).unroll_left(other),
            OpenOrClosed::Closed(x) => Closed(x).unroll_left(other),
        }
    }

    fn unroll_right(self, other: OpenOrClosed<V>) -> OpenOrClosed<V> {
        match self {
            OpenOrClosed::Open(x) => Open(x).unroll_right(other),
            OpenOrClosed::Closed(x) => Closed(x).unroll_right(other),
        }
    }
}

impl<V: PartialOrd> Unroll<Open<V>> for OpenOrClosed<V> {
    type Left = OpenOrClosed<V>;

    type Right = OpenOrClosed<V>;

    fn unroll_left(self, other: Open<V>) -> OpenOrClosed<V> {
        match self {
            OpenOrClosed::Open(x) => OpenOrClosed::from(Open(x).unroll_left(other)),
            OpenOrClosed::Closed(x) => Closed(x).unroll_left(other),
        }
    }

    fn unroll_right(self, other: Open<V>) -> OpenOrClosed<V> {
        match self {
            OpenOrClosed::Open(x) => OpenOrClosed::from(Open(x).unroll_right(other)),
            OpenOrClosed::Closed(x) => Closed(x).unroll_right(other),
        }
    }
}

impl<V: PartialOrd> Unroll<OpenOrClosed<V>> for Open<V> {
    type Left = OpenOrClosed<V>;

    type Right = OpenOrClosed<V>;

    fn unroll_left(self, other: OpenOrClosed<V>) -> OpenOrClosed<V> {
        match other {
            OpenOrClosed::Open(x) => OpenOrClosed::from(self.unroll_left(Open(x))),
            OpenOrClosed::Closed(x) => self.unroll_left(Closed(x)),
        }
    }

    fn unroll_right(self, other: OpenOrClosed<V>) -> OpenOrClosed<V> {
        match other {
            OpenOrClosed::Open(x) => OpenOrClosed::from(self.unroll_right(Open(x))),
            OpenOrClosed::Closed(x) => self.unroll_right(Closed(x)),
        }
    }
}

impl<V: PartialOrd> Unroll<Closed<V>> for OpenOrClosed<V> {
    type Left = OpenOrClosed<V>;

    type Right = OpenOrClosed<V>;

    fn unroll_left(self, other: Closed<V>) -> OpenOrClosed<V> {
        match self {
            OpenOrClosed::Open(x) => Open(x).unroll_left(other),
            OpenOrClosed::Closed(x) => OpenOrClosed::from(Closed(x).unroll_left(other)),
        }
    }

    fn unroll_right(self, other: Closed<V>) -> OpenOrClosed<V> {
        match self {
            OpenOrClosed::Open(x) => Open(x).unroll_right(other),
            OpenOrClosed::Closed(x) => OpenOrClosed::from(Closed(x).unroll_right(other)),
        }
    }
}

impl<V: PartialOrd> Unroll<OpenOrClosed<V>> for Closed<V> {
    type Left = OpenOrClosed<V>;

    type Right = OpenOrClosed<V>;

    fn unroll_left(self, other: OpenOrClosed<V>) -> OpenOrClosed<V> {
        match other {
            OpenOrClosed::Open(x) => self.unroll_left(Open(x)),
            OpenOrClosed::Closed(x) => OpenOrClosed::from(self.unroll_left(Closed(x))),
        }
    }

    fn unroll_right(self, other: OpenOrClosed<V>) -> OpenOrClosed<V> {
        match other {
            OpenOrClosed::Open(x) => self.unroll_right(Open(x)),
            OpenOrClosed::Closed(x) => OpenOrClosed::from(self.unroll_right(Closed(x))),
        }
    }
}

// Comparison:
impl<V: PartialEq> PartialEq for OpenOrClosed<V> {
    fn eq(&self, other: &OpenOrClosed<V>) -> (r: bool) {
        match (self, other) {
            (OpenOrClosed::Open(x), OpenOrClosed::Open(y)) => *x == *y,
            (OpenOrClosed::Closed(x), OpenOrClosed::Closed(y)) => *x == *y,
            _ => false,
        }
    }
}

impl<V: PartialEq> PartialEqSpecImpl for OpenOrClosed<V> {
    open spec fn obeys_eq_spec() -> bool {
        V::obeys_eq_spec()
    }

    open spec fn eq_spec(&self, other: &OpenOrClosed<V>) -> bool {
        match (*self, *other) {
            (OpenOrClosed::Open(x), OpenOrClosed::Open(y)) => same(x, y),
            (OpenOrClosed::Closed(x), OpenOrClosed::Closed(y)) => same(x, y),
            _ => false,
        }
    }
}

impl<V: PartialEq> PartialEq<Open<V>> for OpenOrClosed<V> {
    fn eq(&self, other: &Open<V>) -> (r: bool) {
        match self {
            OpenOrClosed::Open(inner) => *inner == other.0,
            OpenOrClosed::Closed(_) => false,
        }
    }
}

impl<V: PartialEq> PartialEqSpecImpl<Open<V>> for OpenOrClosed<V> {
    open spec fn obeys_eq_spec() -> bool {
        V::obeys_eq_spec()
    }

    open spec fn eq_spec(&self, other: &Open<V>) -> bool {
        match *self {
            OpenOrClosed::Open(inner) => same(inner, other.0),
            OpenOrClosed::Closed(_) => false,
        }
    }
}

impl<V: PartialEq> PartialEq<Closed<V>> for OpenOrClosed<V> {
    fn eq(&self, other: &Closed<V>) -> (r: bool) {
        match self {
            OpenOrClosed::Closed(inner) => *inner == other.0,
            OpenOrClosed::Open(_) => false,
        }
    }
}

impl<V: PartialEq> PartialEqSpecImpl<Closed<V>> for OpenOrClosed<V> {
    open spec fn obeys_eq_spec() -> bool {
        V::obeys_eq_spec()
    }

    open spec fn eq_spec(&self, other: &Closed<V>) -> bool {
        match *self {
            OpenOrClosed::Closed(inner) => same(inner, other.0),
            OpenOrClosed::Open(_) => false,
        }
    }
}

impl<V> PartialEq<NoBound<V>> for OpenOrClosed<V> {
    fn eq(&self, other: &NoBound<V>) -> (r: bool) {
        false
    }
}

impl<V> PartialEqSpecImpl<NoBound<V>> for OpenOrClosed<V> {
    open spec fn obeys_eq_spec() -> bool {
        true
    }

    open spec fn eq_spec(&self, other: &NoBound<V>) -> bool {
        false
    }
}

} // verus!

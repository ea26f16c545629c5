use super::{Bound, Closed, LimitPoint, Open, OpenOrClosed, Pinch, Unroll};
use crate::model::Limit;
use crate::private::Sealed;
use std::marker::PhantomData;
use vstd::prelude::*;
use vstd::std_specs::cmp::PartialEqSpecImpl;

verus! {

/// Type representing the absence of a bound.
#[derive(Debug)]
pub struct NoBound<V>(pub PhantomData<V>);

impl<V> Clone for NoBound<V> {
    fn clone(&self) -> (r: Self)
        ensures
            r == *self,
    {
        NoBound(PhantomData)
    }
}

impl<V> Copy for NoBound<V> {

}

impl<V> NoBound<V> {
    pub fn new() -> (r: Self)
        ensures
            r == NoBound::<V>(PhantomData),
    {
        NoBound(PhantomData)
    }
}

impl<V> Sealed for NoBound<V> {

}

// Core:
impl<V: PartialOrd> Bound for NoBound<V> {
    type Value = V;

    open spec fn view(&self) -> Limit<V> {
        Limit::Unbounded
    }

    fn value(&self) -> Option<&V> {
        None
    }

    fn is_open(&self) -> bool {
        false
    }

    fn is_closed(&self) -> bool {
        false
    }
}

impl<V: PartialOrd> LimitPoint for NoBound<V> {
    type WithLimit = NoBound<V>;

    fn with_limit_point(self) -> NoBound<V> {
        self
    }
}

// Pinch:
impl<V: PartialOrd> Pinch<NoBound<V>> for NoBound<V> {
    type Left = NoBound<V>;

    type Right = NoBound<V>;

    fn pinch_left(self, other: NoBound<V>) -> NoBound<V> {
        self
    }

    fn pinch_right(self, other: NoBound<V>) -> NoBound<V> {
        self
    }
}

impl<V: PartialOrd> Pinch<Open<V>> for NoBound<V> {
    type Left = Open<V>;

    type Right = Open<V>;

    fn pinch_left(self, other: Open<V>) -> Open<V> {
        other
    }

    fn pinch_right(self, other: Open<V>) -> Open<V> {
        other
    }
}

impl<V: PartialOrd> Pinch<NoBound<V>> for Open<V> {
    type Left = Open<V>;

    type Right = Open<V>;

    fn pinch_left(self, other: NoBound<V>) -> Open<V> {
        self
    }

    fn pinch_right(self, other: NoBound<V>) -> Open<V> {
        self
    }
}

impl<V: PartialOrd> Pinch<Closed<V>> for NoBound<V> {
    type Left = Closed<V>;

    type Right = Closed<V>;

    fn pinch_left(self, other: Closed<V>) -> Closed<V> {
        other
    }

    fn pinch_right(self, other: Closed<V>) -> Closed<V> {
        other
    }
}

impl<V: PartialOrd> Pinch<NoBound<V>> for Closed<V> {
    type Left = Closed<V>;

    type Right = Closed<V>;

    fn pinch_left(self, other: NoBound<V>) -> Closed<V> {
        self
    }

    fn pinch_right(self, other: NoBound<V>) -> Closed<V> {
        self
    }
}

// Unroll:
impl<V: PartialOrd> Unroll<NoBound<V>> for NoBound<V> {
    type Left = NoBound<V>;

    type Right = NoBound<V>;

    fn unroll_left(self, other: NoBound<V>) -> NoBound<V> {
        NoBound::new()
    }

    fn unroll_right(self, other: NoBound<V>) -> NoBound<V> {
        NoBound::new()
    }
}

impl<V: PartialOrd> Unroll<Open<V>> for NoBound<V> {
    type Left = NoBound<V>;

    type Right = NoBound<V>;

    fn unroll_left(self, other: Open<V>) -> NoBound<V> {
        NoBound::new()
    }

    fn unroll_right(self, other: Open<V>) -> NoBound<V> {
        NoBound::new()
    }
}

impl<V: PartialOrd> Unroll<NoBound<V>> for Open<V> {
    type Left = NoBound<V>;

    type Right = NoBound<V>;

    fn unroll_left(self, other: NoBound<V>) -> NoBound<V> {
        NoBound::new()
    }

    fn unroll_right(self, other: NoBound<V>) -> NoBound<V> {
        NoBound::new()
    }
}

impl<V: PartialOrd> Unroll<Closed<V>> for NoBound<V> {
    type Left = NoBound<V>;

    type Right = NoBound<V>;

    fn unroll_left(self, other: Closed<V>) -> NoBound<V> {
        NoBound::new()
    }

    fn unroll_right(self, other: Closed<V>) -> NoBound<V> {
        NoBound::new()
    }
}

impl<V: PartialOrd> Unroll<NoBound<V>> for Closed<V> {
    type Left = NoBound<V>;

    type Right = NoBound<V>;

    fn unroll_left(self, other: NoBound<V>) -> NoBound<V> {
        NoBound::new()
    }

    fn unroll_right(self, other: NoBound<V>) -> NoBound<V> {
        NoBound::new()
    }
}

impl<V: PartialOrd> Unroll<OpenOrClosed<V>> for NoBound<V> {
    type Left = NoBound<V>;

    type Right = NoBound<V>;

    fn unroll_left(self, other: OpenOrClosed<V>) -> NoBound<V> {
        NoBound::new()
    }

    fn unroll_right(self, other: OpenOrClosed<V>) -> NoBound<V> {
        NoBound::new()
    }
}

impl<V: PartialOrd> Unroll<NoBound<V>> for OpenOrClosed<V> {
    type Left = NoBound<V>;

    type Right = NoBound<V>;

    fn unroll_left(self, other: NoBound<V>) -> NoBound<V> {
        NoBound::new()
    }

    fn unroll_right(self, other: NoBound<V>) -> NoBound<V> {
        NoBound::new()
    }
}

// Comparison:
impl<V> PartialEq for NoBound<V> {
    fn eq(&self, other: &NoBound<V>) -> (r: bool) {
        true
    }
}

impl<V> PartialEqSpecImpl for NoBound<V> {
    open spec fn obeys_eq_spec() -> bool {
        true
    }

    open spec fn eq_spec(&self, other: &NoBound<V>) -> bool {
        true
    }
}

impl<V> PartialEq<Open<V>> for NoBound<V> {
    fn eq(&self, other: &Open<V>) -> (r: bool) {
        false
    }
}

impl<V> PartialEqSpecImpl<Open<V>> for NoBound<V> {
    open spec fn obeys_eq_spec() -> bool {
        true
    }

    open spec fn eq_spec(&self, other: &Open<V>) -> bool {
        false
    }
}

impl<V> PartialEq<Closed<V>> for NoBound<V> {
    fn eq(&self, other: &Closed<V>) -> (r: bool) {
        false
    }
}

impl<V> PartialEqSpecImpl<Closed<V>> for NoBound<V> {
    open spec fn obeys_eq_spec() -> bool {
        true
    }

    open spec fn eq_spec(&self, other: &Closed<V>) -> bool {
        false
    }
}

impl<V> PartialEq<OpenOrClosed<V>> for NoBound<V> {
    fn eq(&self, other: &OpenOrClosed<V>) -> (r: bool) {
        false
    }
}

impl<V> PartialEqSpecImpl<OpenOrClosed<V>> for NoBound<V> {
    open spec fn obeys_eq_spec() -> bool {
        true
    }

    open spec fn eq_spec(&self, other: &OpenOrClosed<V>) -> bool {
        false
    }
}

} // verus!

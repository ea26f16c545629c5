//! Right-bounded intervals over the unsigned integers are bounded: no value
//! of such a type lies below zero.
use crate::bounds::{Closed, NoBound, Open};
use crate::private::Sealed;
use crate::{Bounded, Interval};
use vstd::prelude::*;

verus! {

impl Sealed for Interval<NoBound<u8>, Open<u8>> {

}

impl Bounded for Interval<NoBound<u8>, Open<u8>> {

}

impl Sealed for Interval<NoBound<u8>, Closed<u8>> {

}

impl Bounded for Interval<NoBound<u8>, Closed<u8>> {

}

impl Sealed for Interval<NoBound<u16>, Open<u16>> {

}

impl Bounded for Interval<NoBound<u16>, Open<u16>> {

}

impl Sealed for Interval<NoBound<u16>, Closed<u16>> {

}

impl Bounded for Interval<NoBound<u16>, Closed<u16>> {

}

impl Sealed for Interval<NoBound<u32>, Open<u32>> {

}

impl Bounded for Interval<NoBound<u32>, Open<u32>> {

}

impl Sealed for Interval<NoBound<u32>, Closed<u32>> {

}

impl Bounded for Interval<NoBound<u32>, Closed<u32>> {

}

impl Sealed for Interval<NoBound<u64>, Open<u64>> {

}

impl Bounded for Interval<NoBound<u64>, Open<u64>> {

}

impl Sealed for Interval<NoBound<u64>, Closed<u64>> {

}

impl Bounded for Interval<NoBound<u64>, Closed<u64>> {

}

impl Sealed for Interval<NoBound<u128>, Open<u128>> {

}

impl Bounded for Interval<NoBound<u128>, Open<u128>> {

}

impl Sealed for Interval<NoBound<u128>, Closed<u128>> {

}

impl Bounded for Interval<NoBound<u128>, Closed<u128>> {

}

impl Sealed for Interval<NoBound<usize>, Open<usize>> {

}

impl Bounded for Interval<NoBound<usize>, Open<usize>> {

}

impl Sealed for Interval<NoBound<usize>, Closed<usize>> {

}

impl Bounded for Interval<NoBound<usize>, Closed<usize>> {

}

} // verus!

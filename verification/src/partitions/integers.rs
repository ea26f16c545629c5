//! Uniform partitions over the primitive integers, as partitions.
//!
//! Each impl hands every lookup to the method of the same name that a
//! uniform partition has for any value type, and states of it what that
//! method states.
use super::{Partition, SubInterval, Uniform};
use vstd::prelude::*;

verus! {

impl Partition for Uniform<u8> {
    type Value = u8;

    open spec fn count(&self) -> nat {
        self.size as nat
    }

    open spec fn admits_index(&self, value: &u8) -> bool {
        Uniform::admits_index(self, value)
    }

    open spec fn admits_subinterval(&self, k: usize) -> bool {
        Uniform::admits_subinterval(self, k)
    }

    open spec fn locates(&self, value: &u8, found: Option<usize>) -> bool {
        Uniform::locates(self, value, found)
    }

    open spec fn cuts(&self, k: usize, piece: Option<SubInterval<u8>>) -> bool {
        Uniform::cuts(self, k, piece)
    }

    fn len(&self) -> usize {
        Uniform::len(self)
    }

    fn index(&self, value: &u8) -> Option<usize> {
        Uniform::index(self, value)
    }

    fn subinterval(&self, k: usize) -> Option<SubInterval<u8>> {
        Uniform::subinterval(self, k)
    }
}

impl Partition for Uniform<u16> {
    type Value = u16;

    open spec fn count(&self) -> nat {
        self.size as nat
    }

    open spec fn admits_index(&self, value: &u16) -> bool {
        Uniform::admits_index(self, value)
    }

    open spec fn admits_subinterval(&self, k: usize) -> bool {
        Uniform::admits_subinterval(self, k)
    }

    open spec fn locates(&self, value: &u16, found: Option<usize>) -> bool {
        Uniform::locates(self, value, found)
    }

    open spec fn cuts(&self, k: usize, piece: Option<SubInterval<u16>>) -> bool {
        Uniform::cuts(self, k, piece)
    }

    fn len(&self) -> usize {
        Uniform::len(self)
    }

    fn index(&self, value: &u16) -> Option<usize> {
        Uniform::index(self, value)
    }

    fn subinterval(&self, k: usize) -> Option<SubInterval<u16>> {
        Uniform::subinterval(self, k)
    }
}

impl Partition for Uniform<u32> {
    type Value = u32;

    open spec fn count(&self) -> nat {
        self.size as nat
    }

    open spec fn admits_index(&self, value: &u32) -> bool {
        Uniform::admits_index(self, value)
    }

    open spec fn admits_subinterval(&self, k: usize) -> bool {
        Uniform::admits_subinterval(self, k)
    }

    open spec fn locates(&self, value: &u32, found: Option<usize>) -> bool {
        Uniform::locates(self, value, found)
    }

    open spec fn cuts(&self, k: usize, piece: Option<SubInterval<u32>>) -> bool {
        Uniform::cuts(self, k, piece)
    }

    fn len(&self) -> usize {
        Uniform::len(self)
    }

    fn index(&self, value: &u32) -> Option<usize> {
        Uniform::index(self, value)
    }

    fn subinterval(&self, k: usize) -> Option<SubInterval<u32>> {
        Uniform::subinterval(self, k)
    }
}

impl Partition for Uniform<u64> {
    type Value = u64;

    open spec fn count(&self) -> nat {
        self.size as nat
    }

    open spec fn admits_index(&self, value: &u64) -> bool {
        Uniform::admits_index(self, value)
    }

    open spec fn admits_subinterval(&self, k: usize) -> bool {
        Uniform::admits_subinterval(self, k)
    }

    open spec fn locates(&self, value: &u64, found: Option<usize>) -> bool {
        Uniform::locates(self, value, found)
    }

    open spec fn cuts(&self, k: usize, piece: Option<SubInterval<u64>>) -> bool {
        Uniform::cuts(self, k, piece)
    }

    fn len(&self) -> usize {
        Uniform::len(self)
    }

    fn index(&self, value: &u64) -> Option<usize> {
        Uniform::index(self, value)
    }

    fn subinterval(&self, k: usize) -> Option<SubInterval<u64>> {
        Uniform::subinterval(self, k)
    }
}

impl Partition for Uniform<u128> {
    type Value = u128;

    open spec fn count(&self) -> nat {
        self.size as nat
    }

    open spec fn admits_index(&self, value: &u128) -> bool {
        Uniform::admits_index(self, value)
    }

    open spec fn admits_subinterval(&self, k: usize) -> bool {
        Uniform::admits_subinterval(self, k)
    }

    open spec fn locates(&self, value: &u128, found: Option<usize>) -> bool {
        Uniform::locates(self, value, found)
    }

    open spec fn cuts(&self, k: usize, piece: Option<SubInterval<u128>>) -> bool {
        Uniform::cuts(self, k, piece)
    }

    fn len(&self) -> usize {
        Uniform::len(self)
    }

    fn index(&self, value: &u128) -> Option<usize> {
        Uniform::index(self, value)
    }

    fn subinterval(&self, k: usize) -> Option<SubInterval<u128>> {
        Uniform::subinterval(self, k)
    }
}

impl Partition for Uniform<usize> {
    type Value = usize;

    open spec fn count(&self) -> nat {
        self.size as nat
    }

    open spec fn admits_index(&self, value: &usize) -> bool {
        Uniform::admits_index(self, value)
    }

    open spec fn admits_subinterval(&self, k: usize) -> bool {
        Uniform::admits_subinterval(self, k)
    }

    open spec fn locates(&self, value: &usize, found: Option<usize>) -> bool {
        Uniform::locates(self, value, found)
    }

    open spec fn cuts(&self, k: usize, piece: Option<SubInterval<usize>>) -> bool {
        Uniform::cuts(self, k, piece)
    }

    fn len(&self) -> usize {
        Uniform::len(self)
    }

    fn index(&self, value: &usize) -> Option<usize> {
        Uniform::index(self, value)
    }

    fn subinterval(&self, k: usize) -> Option<SubInterval<usize>> {
        Uniform::subinterval(self, k)
    }
}

impl Partition for Uniform<i8> {
    type Value = i8;

    open spec fn count(&self) -> nat {
        self.size as nat
    }

    open spec fn admits_index(&self, value: &i8) -> bool {
        Uniform::admits_index(self, value)
    }

    open spec fn admits_subinterval(&self, k: usize) -> bool {
        Uniform::admits_subinterval(self, k)
    }

    open spec fn locates(&self, value: &i8, found: Option<usize>) -> bool {
        Uniform::locates(self, value, found)
    }

    open spec fn cuts(&self, k: usize, piece: Option<SubInterval<i8>>) -> bool {
        Uniform::cuts(self, k, piece)
    }

    fn len(&self) -> usize {
        Uniform::len(self)
    }

    fn index(&self, value: &i8) -> Option<usize> {
        Uniform::index(self, value)
    }

    fn subinterval(&self, k: usize) -> Option<SubInterval<i8>> {
        Uniform::subinterval(self, k)
    }
}

impl Partition for Uniform<i16> {
    type Value = i16;

    open spec fn count(&self) -> nat {
        self.size as nat
    }

    open spec fn admits_index(&self, value: &i16) -> bool {
        Uniform::admits_index(self, value)
    }

    open spec fn admits_subinterval(&self, k: usize) -> bool {
        Uniform::admits_subinterval(self, k)
    }

    open spec fn locates(&self, value: &i16, found: Option<usize>) -> bool {
        Uniform::locates(self, value, found)
    }

    open spec fn cuts(&self, k: usize, piece: Option<SubInterval<i16>>) -> bool {
        Uniform::cuts(self, k, piece)
    }

    fn len(&self) -> usize {
        Uniform::len(self)
    }

    fn index(&self, value: &i16) -> Option<usize> {
        Uniform::index(self, value)
    }

    fn subinterval(&self, k: usize) -> Option<SubInterval<i16>> {
        Uniform::subinterval(self, k)
    }
}

impl Partition for Uniform<i32> {
    type Value = i32;

    open spec fn count(&self) -> nat {
        self.size as nat
    }

    open spec fn admits_index(&self, value: &i32) -> bool {
        Uniform::admits_index(self, value)
    }

    open spec fn admits_subinterval(&self, k: usize) -> bool {
        Uniform::admits_subinterval(self, k)
    }

    open spec fn locates(&self, value: &i32, found: Option<usize>) -> bool {
        Uniform::locates(self, value, found)
    }

    open spec fn cuts(&self, k: usize, piece: Option<SubInterval<i32>>) -> bool {
        Uniform::cuts(self, k, piece)
    }

    fn len(&self) -> usize {
        Uniform::len(self)
    }

    fn index(&self, value: &i32) -> Option<usize> {
        Uniform::index(self, value)
    }

    fn subinterval(&self, k: usize) -> Option<SubInterval<i32>> {
        Uniform::subinterval(self, k)
    }
}

impl Partition for Uniform<i64> {
    type Value = i64;

    open spec fn count(&self) -> nat {
        self.size as nat
    }

    open spec fn admits_index(&self, value: &i64) -> bool {
        Uniform::admits_index(self, value)
    }

    open spec fn admits_subinterval(&self, k: usize) -> bool {
        Uniform::admits_subinterval(self, k)
    }

    open spec fn locates(&self, value: &i64, found: Option<usize>) -> bool {
        Uniform::locates(self, value, found)
    }

    open spec fn cuts(&self, k: usize, piece: Option<SubInterval<i64>>) -> bool {
        Uniform::cuts(self, k, piece)
    }

    fn len(&self) -> usize {
        Uniform::len(self)
    }

    fn index(&self, value: &i64) -> Option<usize> {
        Uniform::index(self, value)
    }

    fn subinterval(&self, k: usize) -> Option<SubInterval<i64>> {
        Uniform::subinterval(self, k)
    }
}

impl Partition for Uniform<i128> {
    type Value = i128;

    open spec fn count(&self) -> nat {
        self.size as nat
    }

    open spec fn admits_index(&self, value: &i128) -> bool {
        Uniform::admits_index(self, value)
    }

    open spec fn admits_subinterval(&self, k: usize) -> bool {
        Uniform::admits_subinterval(self, k)
    }

    open spec fn locates(&self, value: &i128, found: Option<usize>) -> bool {
        Uniform::locates(self, value, found)
    }

    open spec fn cuts(&self, k: usize, piece: Option<SubInterval<i128>>) -> bool {
        Uniform::cuts(self, k, piece)
    }

    fn len(&self) -> usize {
        Uniform::len(self)
    }

    fn index(&self, value: &i128) -> Option<usize> {
        Uniform::index(self, value)
    }

    fn subinterval(&self, k: usize) -> Option<SubInterval<i128>> {
        Uniform::subinterval(self, k)
    }
}

impl Partition for Uniform<isize> {
    type Value = isize;

    open spec fn count(&self) -> nat {
        self.size as nat
    }

    open spec fn admits_index(&self, value: &isize) -> bool {
        Uniform::admits_index(self, value)
    }

    open spec fn admits_subinterval(&self, k: usize) -> bool {
        Uniform::admits_subinterval(self, k)
    }

    open spec fn locates(&self, value: &isize, found: Option<usize>) -> bool {
        Uniform::locates(self, value, found)
    }

    open spec fn cuts(&self, k: usize, piece: Option<SubInterval<isize>>) -> bool {
        Uniform::cuts(self, k, piece)
    }

    fn len(&self) -> usize {
        Uniform::len(self)
    }

    fn index(&self, value: &isize) -> Option<usize> {
        Uniform::index(self, value)
    }

    fn subinterval(&self, k: usize) -> Option<SubInterval<isize>> {
        Uniform::subinterval(self, k)
    }
}

} // verus!

use vstd::prelude::*;

verus! {

/// Closes the set of bound kinds: only the types of this crate implement it.
pub trait Sealed {

}

} // verus!

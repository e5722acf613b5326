use vstd::prelude::*;

verus! {

/// Closes the set of component types: only the types listed here can have a
/// component model.
pub trait Sealed {

}

impl Sealed for u8 {

}

impl Sealed for u16 {

}

impl Sealed for u32 {

}

impl Sealed for u64 {

}

impl Sealed for u128 {

}

} // verus!

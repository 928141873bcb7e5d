//! Keeps the set of fixed-width types closed: the table of a type rests on
//! the verified arithmetic of that type, so no type from outside joins them.

use vstd::prelude::*;

verus! {

/// Marks the integer types that this crate implements `FixedWidth` for.
pub trait Sealed {

}

impl Sealed for i8 {

}

impl Sealed for u8 {

}

impl Sealed for i16 {

}

impl Sealed for u16 {

}

impl Sealed for i32 {

}

impl Sealed for u32 {

}

impl Sealed for i64 {

}

impl Sealed for u64 {

}

impl Sealed for i128 {

}

impl Sealed for u128 {

}

impl Sealed for isize {

}

impl Sealed for usize {

}

} // verus!

//! The integer types a CAN message can be backed by; nothing outside this crate can add one.

use vstd::prelude::*;

verus! {

/// Implemented only for the unsigned integers of one to eight bytes.
pub trait Sealed {}

impl Sealed for u8 {}

impl Sealed for u16 {}

impl Sealed for u32 {}

impl Sealed for u64 {}

} // verus!

//! The register groups the application may write directly; the others are owned by the Service.

use vstd::prelude::*;

use crate::adbms6830b::chip::registers::WritableGroup;
use crate::adbms6830b::chip::registers::comm::{WriteCommI2c, WriteCommSpi};
use crate::adbms6830b::chip::registers::pwm::{PwmA, PwmB};

verus! {

/// A register group the application is allowed to write directly. Groups that need guarding,
/// such as Config A with its `COMM_BK` bits, are left out on purpose.
pub trait AppWritableGroup: WritableGroup {}

impl AppWritableGroup for PwmA {}

impl AppWritableGroup for PwmB {}

impl AppWritableGroup for WriteCommI2c {}

impl AppWritableGroup for WriteCommSpi {}

} // verus!

//! Named 4-bit codes of the COMM register (datasheet Tables 33 and 34). The same code means
//! different things in I2C and SPI master mode, so they are kept apart here rather than in one
//! enum.

use vstd::prelude::*;

verus! {

/// I2C master ICOM: start.
pub const I2C_ICOM_START: u8 = 0b0110;

/// I2C master ICOM: stop.
pub const I2C_ICOM_STOP: u8 = 0b0001;

/// I2C master ICOM: blank.
pub const I2C_ICOM_BLANK: u8 = 0b0000;

/// I2C master ICOM: no transmit.
pub const I2C_ICOM_NO_TX: u8 = 0b0111;

/// I2C master FCOM: acknowledge.
pub const I2C_FCOM_ACK: u8 = 0b0000;

/// I2C master FCOM: no acknowledge.
pub const I2C_FCOM_NACK: u8 = 0b1000;

/// I2C master FCOM: no acknowledge, then stop.
pub const I2C_FCOM_NACK_STOP: u8 = 0b1001;

/// SPI master ICOM: CSBM low.
pub const SPI_ICOM_CSBM_LOW: u8 = 0b1000;

/// SPI master ICOM: CSBM falling edge.
pub const SPI_ICOM_CSBM_FALL: u8 = 0b1010;

/// SPI master ICOM: CSBM high.
pub const SPI_ICOM_CSBM_HIGH: u8 = 0b1001;

/// SPI master ICOM: no transmit.
pub const SPI_ICOM_NO_TX: u8 = 0b1111;

/// SPI master FCOM: CSBM low.
pub const SPI_FCOM_CSBM_LOW: u8 = 0b0000;

/// SPI master FCOM: CSBM high.
pub const SPI_FCOM_CSBM_HIGH: u8 = 0b1001;

} // verus!

//! INA219 register addresses.
use vstd::prelude::*;

verus! {

/// Configuration register (R/W)
pub const CONFIGURATION: u8 = 0x00;
/// Shunt voltage register (R, signed, 10 µV/LSB)
pub const SHUNT_VOLTAGE: u8 = 0x01;
/// Bus voltage register (R, 4 mV/LSB, with the CNVR/OVF flags)
pub const BUS_VOLTAGE: u8 = 0x02;
/// Power register (R, needs calibration)
pub const POWER: u8 = 0x03;
/// Current register (R, needs calibration)
pub const CURRENT: u8 = 0x04;
/// Calibration register (R/W)
pub const CALIBRATION: u8 = 0x05;

} // verus!

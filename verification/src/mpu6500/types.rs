//! Data types of the MPU6500 driver.
use vstd::prelude::*;

verus! {

/// A physical axis used by the offset calibration registers.
#[derive(Debug, Clone, Copy, PartialEq, Eq, Structural)]
pub enum Axis {
    /// X axis.
    X,
    /// Y axis.
    Y,
    /// Z axis.
    Z,
}

/// MPU6500 driver error.
#[derive(Debug)]
pub enum Error<E> {
    /// The SPI device operation failed.
    Spi(E),
    /// The device identity did not match the MPU6500 value `0x70`.
    InvalidDeviceId(u8),
    /// An accelerometer offset did not fit the signed 15-bit register format.
    InvalidAccelOffset(i16),
}

/// Interrupt status flags read from INT_STATUS (0x3A).
#[derive(Debug, Clone, Copy, Default, PartialEq, Eq, Structural)]
pub struct IntStatus {
    /// Wake-on-motion interrupt occurred
    pub wom: bool,
    /// FIFO overflow interrupt occurred
    pub fifo_overflow: bool,
    /// FSYNC interrupt occurred
    pub fsync: bool,
    /// DMP interrupt generated
    pub dmp: bool,
    /// Raw sensor data ready to be read
    pub raw_data_rdy: bool,
}

} // verus!

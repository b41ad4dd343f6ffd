//! Error types for the HUSB238A driver.
use vstd::prelude::*;

verus! {

/// Driver error
#[derive(Debug)]
pub enum Error<I2cError> {
    /// I2C communication error
    I2c(I2cError),
    /// GO command timeout
    GoTimeout,
    /// The controller reported that the requested PDO could not be selected.
    GoFailed,
    /// No charger attached
    NotAttached,
}

} // verus!

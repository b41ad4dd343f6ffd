//! BQ24725 SMBus battery charge controller: register codecs and the
//! transaction logic of its driver.
pub mod types;
pub mod laws;
pub mod driver;

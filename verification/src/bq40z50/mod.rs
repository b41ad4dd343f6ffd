//! BQ40Z50 smart battery gauge: SBS and ManufacturerAccess commands, status flags
//! and the transaction logic of its driver.
pub mod cmd;
pub mod flags;
pub mod types;
pub mod driver;

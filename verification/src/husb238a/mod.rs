//! HUSB238A USB PD sink controller: register map, contract decoding, interrupt
//! handling and PDO requests.
pub mod registers;
pub mod types;
pub mod config;
pub mod error;
pub mod driver;

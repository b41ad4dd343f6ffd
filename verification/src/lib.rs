pub mod bq24725;
pub mod bytes;
pub mod ring;
pub mod frame;
pub mod ota;
pub mod msd;
pub mod charge;
pub mod protection;
pub mod bq40z50;
pub mod smbus;
pub mod husb238a;
pub mod ina219;
pub mod mpu6500;
pub mod telemetry;
pub mod battery;
pub mod boot;
pub mod config;
pub mod event;

//! Sensor configuration settings and their register codes.
use vstd::prelude::*;

verus! {

/// Digital low-pass filter configuration for gyroscope and temperature.
///
/// Only effective when FCHOICE_B = 00 in GYRO_CONFIG.
#[derive(Debug, Clone, Copy, PartialEq, Eq, Structural)]
pub enum DlpfConfig {
    /// 250Hz bandwidth, 8kHz internal Fs
    Dlpf250,
    /// 184Hz bandwidth, 1kHz internal Fs
    Dlpf184,
    /// 92Hz bandwidth, 1kHz internal Fs
    Dlpf92,
    /// 41Hz bandwidth, 1kHz internal Fs
    Dlpf41,
    /// 20Hz bandwidth, 1kHz internal Fs
    Dlpf20,
    /// 10Hz bandwidth, 1kHz internal Fs
    Dlpf10,
    /// 5Hz bandwidth, 1kHz internal Fs
    Dlpf5,
    /// 3600Hz bandwidth, 8kHz internal Fs (same as FCHOICE_B bypass)
    Dlpf3600,
}

impl DlpfConfig {
    /// The register code of this setting.
    pub open spec fn code(self) -> u8 {
        match self {
            DlpfConfig::Dlpf250 => 0x00,
            DlpfConfig::Dlpf184 => 0x01,
            DlpfConfig::Dlpf92 => 0x02,
            DlpfConfig::Dlpf41 => 0x03,
            DlpfConfig::Dlpf20 => 0x04,
            DlpfConfig::Dlpf10 => 0x05,
            DlpfConfig::Dlpf5 => 0x06,
            DlpfConfig::Dlpf3600 => 0x07,
        }
    }

    /// The register code of this setting.
    pub fn bits(self) -> (r: u8)
        ensures
            r == self.code(),
    {
        match self {
            DlpfConfig::Dlpf250 => 0x00,
            DlpfConfig::Dlpf184 => 0x01,
            DlpfConfig::Dlpf92 => 0x02,
            DlpfConfig::Dlpf41 => 0x03,
            DlpfConfig::Dlpf20 => 0x04,
            DlpfConfig::Dlpf10 => 0x05,
            DlpfConfig::Dlpf5 => 0x06,
            DlpfConfig::Dlpf3600 => 0x07,
        }
    }

    /// Gyro bandwidth in Hz
    pub fn gyro_bandwidth_hz(&self) -> (r: u32)
        ensures
            r == match *self {
                DlpfConfig::Dlpf250 => 250u32,
                DlpfConfig::Dlpf184 => 184,
                DlpfConfig::Dlpf92 => 92,
                DlpfConfig::Dlpf41 => 41,
                DlpfConfig::Dlpf20 => 20,
                DlpfConfig::Dlpf10 => 10,
                DlpfConfig::Dlpf5 => 5,
                DlpfConfig::Dlpf3600 => 3600,
            },
    {
        match self {
            DlpfConfig::Dlpf250 => 250,
            DlpfConfig::Dlpf184 => 184,
            DlpfConfig::Dlpf92 => 92,
            DlpfConfig::Dlpf41 => 41,
            DlpfConfig::Dlpf20 => 20,
            DlpfConfig::Dlpf10 => 10,
            DlpfConfig::Dlpf5 => 5,
            DlpfConfig::Dlpf3600 => 3600,
        }
    }

    /// Temperature bandwidth in Hz
    pub fn temp_bandwidth_hz(&self) -> (r: u32)
        ensures
            r == match *self {
                DlpfConfig::Dlpf250 => 250u32,
                DlpfConfig::Dlpf184 => 188,
                DlpfConfig::Dlpf92 => 98,
                DlpfConfig::Dlpf41 => 42,
                DlpfConfig::Dlpf20 => 20,
                DlpfConfig::Dlpf10 => 10,
                DlpfConfig::Dlpf5 => 5,
                DlpfConfig::Dlpf3600 => 4000,
            },
    {
        match self {
            DlpfConfig::Dlpf250 => 250,
            DlpfConfig::Dlpf184 => 188,
            DlpfConfig::Dlpf92 => 98,
            DlpfConfig::Dlpf41 => 42,
            DlpfConfig::Dlpf20 => 20,
            DlpfConfig::Dlpf10 => 10,
            DlpfConfig::Dlpf5 => 5,
            DlpfConfig::Dlpf3600 => 4000,
        }
    }
}

/// Accelerometer digital low-pass filter configuration.
///
/// Only effective when ACCEL_FCHOICE_B = 0 in ACCEL_CONFIG_2.
#[derive(Debug, Clone, Copy, PartialEq, Eq, Structural)]
pub enum AccelDlpfConfig {
    /// 460Hz bandwidth, 1kHz output rate
    Dlpf460,
    /// 184Hz bandwidth
    Dlpf184,
    /// 92Hz bandwidth
    Dlpf92,
    /// 41Hz bandwidth
    Dlpf41,
    /// 20Hz bandwidth
    Dlpf20,
    /// 10Hz bandwidth
    Dlpf10,
    /// 5Hz bandwidth
    Dlpf5,
}

impl AccelDlpfConfig {
    /// The register code of this setting.
    pub open spec fn code(self) -> u8 {
        match self {
            AccelDlpfConfig::Dlpf460 => 0x00,
            AccelDlpfConfig::Dlpf184 => 0x01,
            AccelDlpfConfig::Dlpf92 => 0x02,
            AccelDlpfConfig::Dlpf41 => 0x03,
            AccelDlpfConfig::Dlpf20 => 0x04,
            AccelDlpfConfig::Dlpf10 => 0x05,
            AccelDlpfConfig::Dlpf5 => 0x06,
        }
    }

    /// The register code of this setting.
    pub fn bits(self) -> (r: u8)
        ensures
            r == self.code(),
    {
        match self {
            AccelDlpfConfig::Dlpf460 => 0x00,
            AccelDlpfConfig::Dlpf184 => 0x01,
            AccelDlpfConfig::Dlpf92 => 0x02,
            AccelDlpfConfig::Dlpf41 => 0x03,
            AccelDlpfConfig::Dlpf20 => 0x04,
            AccelDlpfConfig::Dlpf10 => 0x05,
            AccelDlpfConfig::Dlpf5 => 0x06,
        }
    }
}

/// Gyroscope full-scale range.
#[derive(Debug, Clone, Copy, PartialEq, Eq, Structural)]
pub enum GyroRange {
    /// ±250°/s
    Dps250,
    /// ±500°/s
    Dps500,
    /// ±1000°/s
    Dps1000,
    /// ±2000°/s
    Dps2000,
}

impl GyroRange {
    /// The register code of this setting.
    pub open spec fn code(self) -> u8 {
        match self {
            GyroRange::Dps250 => 0x00,
            GyroRange::Dps500 => 0x08,
            GyroRange::Dps1000 => 0x10,
            GyroRange::Dps2000 => 0x18,
        }
    }

    /// The register code of this setting.
    pub fn bits(self) -> (r: u8)
        ensures
            r == self.code(),
    {
        match self {
            GyroRange::Dps250 => 0x00,
            GyroRange::Dps500 => 0x08,
            GyroRange::Dps1000 => 0x10,
            GyroRange::Dps2000 => 0x18,
        }
    }
}

/// Accelerometer full-scale range.
#[derive(Debug, Clone, Copy, PartialEq, Eq, Structural)]
pub enum AccelRange {
    /// ±2g
    G2,
    /// ±4g
    G4,
    /// ±8g
    G8,
    /// ±16g
    G16,
}

impl AccelRange {
    /// The register code of this setting.
    pub open spec fn code(self) -> u8 {
        match self {
            AccelRange::G2 => 0x00,
            AccelRange::G4 => 0x08,
            AccelRange::G8 => 0x10,
            AccelRange::G16 => 0x18,
        }
    }

    /// The register code of this setting.
    pub fn bits(self) -> (r: u8)
        ensures
            r == self.code(),
    {
        match self {
            AccelRange::G2 => 0x00,
            AccelRange::G4 => 0x08,
            AccelRange::G8 => 0x10,
            AccelRange::G16 => 0x18,
        }
    }
}

/// Clock source selection for PWR_MGMT_1 CLKSEL bits.
#[derive(Debug, Clone, Copy, PartialEq, Eq, Structural)]
pub enum ClockSource {
    /// Internal 20MHz oscillator
    InternalOsc,
    /// PLL with X-axis gyro reference
    PllWithXGyro,
    /// PLL with Y-axis gyro reference
    PllWithYGyro,
    /// PLL with Z-axis gyro reference
    PllWithZGyro,
    /// PLL with external 32.768kHz reference
    PllWithExt32k,
    /// PLL with external 19.2MHz reference
    PllWithExt19m,
}

impl ClockSource {
    /// The register code of this setting.
    pub open spec fn code(self) -> u8 {
        match self {
            ClockSource::InternalOsc => 0x00,
            ClockSource::PllWithXGyro => 0x01,
            ClockSource::PllWithYGyro => 0x02,
            ClockSource::PllWithZGyro => 0x03,
            ClockSource::PllWithExt32k => 0x04,
            ClockSource::PllWithExt19m => 0x05,
        }
    }

    /// The register code of this setting.
    pub fn bits(self) -> (r: u8)
        ensures
            r == self.code(),
    {
        match self {
            ClockSource::InternalOsc => 0x00,
            ClockSource::PllWithXGyro => 0x01,
            ClockSource::PllWithYGyro => 0x02,
            ClockSource::PllWithZGyro => 0x03,
            ClockSource::PllWithExt32k => 0x04,
            ClockSource::PllWithExt19m => 0x05,
        }
    }
}

/// Interrupt active level.
#[derive(Debug, Clone, Copy, PartialEq, Eq, Structural)]
pub enum IntLevel {
    /// Active high (default)
    ActiveHigh,
    /// Active low
    ActiveLow,
}

impl IntLevel {
    /// The register code of this setting.
    pub open spec fn code(self) -> u8 {
        match self {
            IntLevel::ActiveHigh => 0,
            IntLevel::ActiveLow => 1,
        }
    }

    /// The register code of this setting.
    pub fn bits(self) -> (r: u8)
        ensures
            r == self.code(),
    {
        match self {
            IntLevel::ActiveHigh => 0,
            IntLevel::ActiveLow => 1,
        }
    }
}

/// INT pin drive mode.
#[derive(Debug, Clone, Copy, PartialEq, Eq, Structural)]
pub enum IntDriveMode {
    /// Push-pull (default)
    PushPull,
    /// Open drain
    OpenDrain,
}

impl IntDriveMode {
    /// The register code of this setting.
    pub open spec fn code(self) -> u8 {
        match self {
            IntDriveMode::PushPull => 0,
            IntDriveMode::OpenDrain => 1,
        }
    }

    /// The register code of this setting.
    pub fn bits(self) -> (r: u8)
        ensures
            r == self.code(),
    {
        match self {
            IntDriveMode::PushPull => 0,
            IntDriveMode::OpenDrain => 1,
        }
    }
}

/// INT pin latch mode.
#[derive(Debug, Clone, Copy, PartialEq, Eq, Structural)]
pub enum IntLatch {
    /// 50μs pulse (default)
    Pulse,
    /// Latched until status is cleared
    Latched,
}

impl IntLatch {
    /// The register code of this setting.
    pub open spec fn code(self) -> u8 {
        match self {
            IntLatch::Pulse => 0,
            IntLatch::Latched => 1,
        }
    }

    /// The register code of this setting.
    pub fn bits(self) -> (r: u8)
        ensures
            r == self.code(),
    {
        match self {
            IntLatch::Pulse => 0,
            IntLatch::Latched => 1,
        }
    }
}

/// FIFO mode for CONFIG register bit 6.
#[derive(Debug, Clone, Copy, PartialEq, Eq, Structural)]
pub enum FifoMode {
    /// When FIFO is full, new data overwrites oldest
    Overwrite,
    /// When FIFO is full, new data is rejected
    Reject,
}

impl FifoMode {
    /// The register code of this setting.
    pub open spec fn code(self) -> u8 {
        match self {
            FifoMode::Overwrite => 0,
            FifoMode::Reject => 1,
        }
    }

    /// The register code of this setting.
    pub fn bits(self) -> (r: u8)
        ensures
            r == self.code(),
    {
        match self {
            FifoMode::Overwrite => 0,
            FifoMode::Reject => 1,
        }
    }
}

} // verus!

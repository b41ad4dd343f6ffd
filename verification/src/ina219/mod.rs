//! INA219 current/power monitor: configuration and calibration words, and the
//! integer scaling of its current and power registers.
//!
//! The bus stays with the caller. Registers are 16 bits, sent high byte first: a
//! read is a write of the register address followed by a two-byte read, a write
//! sends `[register, high byte, low byte]` to [`Ina219::address`].
pub mod registers;

use vstd::prelude::*;
use crate::bytes::{as_signed, be16, signed16, u16_from_be};
use registers::{BUS_VOLTAGE, CALIBRATION, CONFIGURATION};

verus! {

/// Default I2C address (7-bit)
pub const INA219_ADDR: u8 = 0x40;

/// Configuration word after power-on or reset.
pub const POWER_ON_CONFIG: u16 = 0x39F;

/// Bus voltage range (BRNG, Configuration bit 13)
#[derive(Debug, Clone, Copy, PartialEq, Eq, Structural)]
pub enum BusVoltageRange {
    /// 16V range (BRNG=0)
    Range16V,
    /// 32V range (BRNG=1, default)
    Range32V,
}

impl BusVoltageRange {
    /// This setting's bits in the configuration word.
    pub open spec fn code(self) -> u16 {
        match self {
            BusVoltageRange::Range16V => 0,
            BusVoltageRange::Range32V => 0x2000,
        }
    }

    /// This setting's bits in the configuration word.
    pub fn bits(self) -> (r: u16)
        ensures
            r == self.code(),
    {
        match self {
            BusVoltageRange::Range16V => 0,
            BusVoltageRange::Range32V => 0x2000,
        }
    }
}

/// PGA gain (PG, Configuration bits 12:11)
#[derive(Debug, Clone, Copy, PartialEq, Eq, Structural)]
pub enum PgaGain {
    /// Gain 1, ±40mV (PG=00)
    Gain1,
    /// Gain /2, ±80mV (PG=01)
    Gain2,
    /// Gain /4, ±160mV (PG=10)
    Gain4,
    /// Gain /8, ±320mV (PG=11, default)
    Gain8,
}

impl PgaGain {
    /// This setting's bits in the configuration word.
    pub open spec fn code(self) -> u16 {
        match self {
            PgaGain::Gain1 => 0,
            PgaGain::Gain2 => 0x0800,
            PgaGain::Gain4 => 0x1000,
            PgaGain::Gain8 => 0x1800,
        }
    }

    /// This setting's bits in the configuration word.
    pub fn bits(self) -> (r: u16)
        ensures
            r == self.code(),
    {
        match self {
            PgaGain::Gain1 => 0,
            PgaGain::Gain2 => 0x0800,
            PgaGain::Gain4 => 0x1000,
            PgaGain::Gain8 => 0x1800,
        }
    }
}

/// ADC resolution/averaging (BADC/SADC, Configuration bits 10:7 / 6:3)
#[derive(Debug, Clone, Copy, PartialEq, Eq, Structural)]
pub enum AdcResolution {
    /// 9 bit (84µs)
    Bits9,
    /// 10 bit (148µs)
    Bits10,
    /// 11 bit (276µs)
    Bits11,
    /// 12 bit (532µs, default)
    Bits12,
    /// 12 bit, 2 samples (1.06ms)
    Samples2,
    /// 12 bit, 4 samples (2.13ms)
    Samples4,
    /// 12 bit, 8 samples (4.26ms)
    Samples8,
    /// 12 bit, 16 samples (8.51ms)
    Samples16,
    /// 12 bit, 32 samples (17.02ms)
    Samples32,
    /// 12 bit, 64 samples (34.05ms)
    Samples64,
    /// 12 bit, 128 samples (68.10ms)
    Samples128,
}

impl AdcResolution {
    /// The four-bit ADC setting code.
    pub open spec fn code(self) -> u16 {
        match self {
            AdcResolution::Bits9 => 0b0000,
            AdcResolution::Bits10 => 0b0001,
            AdcResolution::Bits11 => 0b0010,
            AdcResolution::Bits12 => 0b0011,
            AdcResolution::Samples2 => 0b1001,
            AdcResolution::Samples4 => 0b1010,
            AdcResolution::Samples8 => 0b1011,
            AdcResolution::Samples16 => 0b1100,
            AdcResolution::Samples32 => 0b1101,
            AdcResolution::Samples64 => 0b1110,
            AdcResolution::Samples128 => 0b1111,
        }
    }

    /// The four-bit ADC setting code.
    pub fn bits(self) -> (r: u16)
        ensures
            r == self.code(),
    {
        match self {
            AdcResolution::Bits9 => 0b0000,
            AdcResolution::Bits10 => 0b0001,
            AdcResolution::Bits11 => 0b0010,
            AdcResolution::Bits12 => 0b0011,
            AdcResolution::Samples2 => 0b1001,
            AdcResolution::Samples4 => 0b1010,
            AdcResolution::Samples8 => 0b1011,
            AdcResolution::Samples16 => 0b1100,
            AdcResolution::Samples32 => 0b1101,
            AdcResolution::Samples64 => 0b1110,
            AdcResolution::Samples128 => 0b1111,
        }
    }
}

/// Operating mode (MODE, Configuration bits 2:0)
#[derive(Debug, Clone, Copy, PartialEq, Eq, Structural)]
pub enum OperatingMode {
    /// Power-down
    PowerDown,
    /// Shunt voltage, triggered
    ShuntVoltageTriggered,
    /// Bus voltage, triggered
    BusVoltageTriggered,
    /// Shunt and bus, triggered
    ShuntAndBusTriggered,
    /// ADC off (disabled)
    AdcOff,
    /// Shunt voltage, continuous
    ShuntVoltageContinuous,
    /// Bus voltage, continuous
    BusVoltageContinuous,
    /// Shunt and bus, continuous (default)
    ShuntAndBusContinuous,
}

impl OperatingMode {
    /// The three-bit mode code.
    pub open spec fn code(self) -> u16 {
        match self {
            OperatingMode::PowerDown => 0,
            OperatingMode::ShuntVoltageTriggered => 1,
            OperatingMode::BusVoltageTriggered => 2,
            OperatingMode::ShuntAndBusTriggered => 3,
            OperatingMode::AdcOff => 4,
            OperatingMode::ShuntVoltageContinuous => 5,
            OperatingMode::BusVoltageContinuous => 6,
            OperatingMode::ShuntAndBusContinuous => 7,
        }
    }

    /// The three-bit mode code.
    pub fn bits(self) -> (r: u16)
        ensures
            r == self.code(),
    {
        match self {
            OperatingMode::PowerDown => 0,
            OperatingMode::ShuntVoltageTriggered => 1,
            OperatingMode::BusVoltageTriggered => 2,
            OperatingMode::ShuntAndBusTriggered => 3,
            OperatingMode::AdcOff => 4,
            OperatingMode::ShuntVoltageContinuous => 5,
            OperatingMode::BusVoltageContinuous => 6,
            OperatingMode::ShuntAndBusContinuous => 7,
        }
    }
}

/// The configuration word of these settings.
pub open spec fn config_word(
    bus_range: BusVoltageRange,
    pga: PgaGain,
    bus_adc: AdcResolution,
    shunt_adc: AdcResolution,
    mode: OperatingMode,
) -> u16 {
    bus_range.code() | pga.code() | (bus_adc.code() << 7u16) | (shunt_adc.code() << 3u16)
        | mode.code()
}

/// Bus voltage register status flags
#[derive(Debug, Clone, Copy, PartialEq, Eq, Structural)]
pub struct BusVoltageStatus {
    /// Conversion ready (CNVR, bit 1)
    pub conversion_ready: bool,
    /// Math overflow (OVF, bit 0)
    pub overflow: bool,
}

/// Calibration-input validation failure.
#[derive(Debug, Clone, Copy, PartialEq, Eq, Structural)]
pub enum CalibrationError {
    /// Shunt resistance must be nonzero.
    ZeroShuntResistance,
    /// Expected maximum current must be nonzero.
    ZeroExpectedCurrent,
    /// The requested values cannot be represented by the 16-bit calibration register.
    OutOfRange,
}

/// `a / b` rounded up.
pub open spec fn ceil_div(a: int, b: int) -> int {
    if a % b == 0 {
        a / b
    } else {
        a / b + 1
    }
}

/// Current LSB in µA for an expected peak current: the peak spread over the
/// 15-bit signed CURRENT register (32768 steps), rounded up.
pub open spec fn calibration_lsb(max_current_microamps: u32) -> int {
    ceil_div(max_current_microamps as int, 32768)
}

/// Calibration register value: 0.04096 / (current LSB × shunt) in SI units, that
/// is 40 960 000 000 / (µA × µΩ), rounded down to an even number (bit 0 is unused).
pub open spec fn calibration_register(shunt_micro_ohms: u32, max_current_microamps: u32) -> int {
    let q = 40_960_000_000int / (calibration_lsb(max_current_microamps) * shunt_micro_ohms);
    q - q % 2
}

/// The calibration register value is even: bit 0 of CALIBRATION is not used.
pub proof fn lemma_calibration_register_even(shunt_micro_ohms: u32, max_current_microamps: u32)
    ensures
        calibration_register(shunt_micro_ohms, max_current_microamps) % 2 == 0,
{
}

/// Validated INA219 calibration parameters.
///
/// Inputs use integer micro-units to keep the common path usable on MCUs
/// without a floating-point unit.
#[derive(Debug, Clone, Copy, PartialEq, Eq, Structural)]
pub struct Calibration {
    register: u16,
    current_lsb_microamps: u32,
}

impl Calibration {
    /// The CALIBRATION register value.
    pub closed spec fn reg(self) -> u16 {
        self.register
    }

    /// Current scale in µA per CURRENT-register LSB.
    pub closed spec fn lsb(self) -> u32 {
        self.current_lsb_microamps
    }

    /// Create a calibration for `shunt_micro_ohms` and expected peak current.
    ///
    /// Fails for a zero shunt, a zero current, or a register value outside
    /// 1..=0xFFFE.
    pub fn new(shunt_micro_ohms: u32, max_current_microamps: u32) -> (r: Result<
        Self,
        CalibrationError,
    >)
        ensures
            shunt_micro_ohms == 0 ==> r == Err::<Self, CalibrationError>(
                CalibrationError::ZeroShuntResistance,
            ),
            shunt_micro_ohms != 0 && max_current_microamps == 0 ==> r == Err::<
                Self,
                CalibrationError,
            >(CalibrationError::ZeroExpectedCurrent),
            shunt_micro_ohms != 0 && max_current_microamps != 0 ==> {
                let reg = calibration_register(shunt_micro_ohms, max_current_microamps);
                &&& (reg == 0 || reg > 0xFFFE) ==> r == Err::<Self, CalibrationError>(
                    CalibrationError::OutOfRange,
                )
                &&& (0 < reg <= 0xFFFE) ==> (r matches Ok(c) && c.reg() == reg && c.lsb()
                    == calibration_lsb(max_current_microamps))
            },
    {
        if shunt_micro_ohms == 0 {
            return Err(CalibrationError::ZeroShuntResistance);
        }
        if max_current_microamps == 0 {
            return Err(CalibrationError::ZeroExpectedCurrent);
        }
        let current_lsb_microamps: u32 = if max_current_microamps % 32768 == 0 {
            max_current_microamps / 32768
        } else {
            max_current_microamps / 32768 + 1
        };
        assert(1 <= current_lsb_microamps <= 131072);
        assert(1 <= current_lsb_microamps as u64 * shunt_micro_ohms as u64
            <= 131072 * 0xFFFF_FFFF) by (nonlinear_arith)
            requires
                1 <= current_lsb_microamps <= 131072,
                1 <= shunt_micro_ohms,
        ;
        let denominator: u64 = current_lsb_microamps as u64 * shunt_micro_ohms as u64;
        let quotient: u64 = 40_960_000_000u64 / denominator;
        let register: u64 = quotient - quotient % 2;
        if register == 0 || register > 0xFFFE {
            return Err(CalibrationError::OutOfRange);
        }
        Ok(Self { register: register as u16, current_lsb_microamps })
    }

    /// Register value to write to `CALIBRATION`.
    pub fn register(self) -> (r: u16)
        ensures
            r == self.reg(),
    {
        self.register
    }

    /// Current scale in microamps per CURRENT-register LSB.
    pub fn current_lsb_microamps(self) -> (r: u32)
        ensures
            r == self.lsb(),
    {
        self.current_lsb_microamps
    }
}

/// The bytes of a write of `value` to register `reg`, high byte first.
pub open spec fn is_register_write(frame: [u8; 3], reg: u8, value: u16) -> bool {
    frame[0] == reg && be16(frame[1], frame[2]) == value
}

/// The value of a register read, high byte first.
pub open spec fn word_be(response: [u8; 2]) -> u16 {
    be16(response[0], response[1]) as u16
}

/// INA219 driver state.
pub struct Ina219 {
    address: u8,
    config: u16,
    calibration: Option<Calibration>,
}

impl Ina219 {
    /// The 7-bit I2C address the driver talks to.
    pub closed spec fn addr(&self) -> u8 {
        self.address
    }

    /// The configuration word last written or read.
    pub closed spec fn config_value(&self) -> u16 {
        self.config
    }

    /// The calibration the current and power scaling use, if any.
    pub closed spec fn calibration_state(&self) -> Option<Calibration> {
        self.calibration
    }

    /// Create a driver at the default address (0x40).
    pub fn new() -> (r: Self)
        ensures
            r.addr() == INA219_ADDR,
            r.config_value() == POWER_ON_CONFIG,
            r.calibration_state() is None,
    {
        Self::with_address(INA219_ADDR)
    }

    /// Create a driver at a custom address.
    pub fn with_address(address: u8) -> (r: Self)
        ensures
            r.addr() == address,
            r.config_value() == POWER_ON_CONFIG,
            r.calibration_state() is None,
    {
        Self { address, config: POWER_ON_CONFIG, calibration: None }
    }

    /// The 7-bit I2C address every transaction goes to.
    pub fn address(&self) -> (r: u8)
        ensures
            r == self.addr(),
    {
        self.address
    }

    /// The bytes that write `value` to `reg`.
    fn write_word(reg: u8, value: u16) -> (frame: [u8; 3])
        ensures
            is_register_write(frame, reg, value),
    {
        [reg, (value / 256) as u8, (value % 256) as u8]
    }

    /// The value of a register read.
    fn read_word(response: [u8; 2]) -> (r: u16)
        ensures
            r == word_be(response),
    {
        u16_from_be(response[0], response[1])
    }

    /// The write that resets the chip (RST, configuration bit 15); the driver's
    /// configuration returns to the power-on value. Wait at least 40 µs before
    /// the next transaction.
    pub fn reset(&mut self) -> (frame: [u8; 3])
        ensures
            is_register_write(frame, CONFIGURATION, 0x8000),
            final(self).config_value() == POWER_ON_CONFIG,
            final(self).addr() == old(self).addr(),
            final(self).calibration_state() == old(self).calibration_state(),
    {
        let frame = Self::write_word(CONFIGURATION, 0x8000);
        self.config = POWER_ON_CONFIG;
        frame
    }

    /// The write that configures range, gain, ADC resolutions and mode.
    pub fn configure(
        &mut self,
        bus_range: BusVoltageRange,
        pga: PgaGain,
        bus_adc: AdcResolution,
        shunt_adc: AdcResolution,
        mode: OperatingMode,
    ) -> (frame: [u8; 3])
        ensures
            is_register_write(
                frame,
                CONFIGURATION,
                config_word(bus_range, pga, bus_adc, shunt_adc, mode),
            ),
            final(self).config_value() == config_word(bus_range, pga, bus_adc, shunt_adc, mode),
            final(self).addr() == old(self).addr(),
            final(self).calibration_state() == old(self).calibration_state(),
    {
        let config = bus_range.bits() | pga.bits() | (bus_adc.bits() << 7u16) | (
        shunt_adc.bits() << 3u16) | mode.bits();
        let frame = Self::write_word(CONFIGURATION, config);
        self.config = config;
        frame
    }

    /// The configuration word from a read of `CONFIGURATION`, which the driver
    /// keeps.
    pub fn read_config(&mut self, response: [u8; 2]) -> (r: u16)
        ensures
            r == word_be(response),
            final(self).config_value() == r,
            final(self).addr() == old(self).addr(),
            final(self).calibration_state() == old(self).calibration_state(),
    {
        let raw = Self::read_word(response);
        self.config = raw;
        raw
    }

    /// The write that programs `calibration`, which the driver keeps for scaling.
    pub fn calibrate(&mut self, calibration: Calibration) -> (frame: [u8; 3])
        ensures
            is_register_write(frame, CALIBRATION, calibration.reg()),
            final(self).calibration_state() == Some(calibration),
            final(self).addr() == old(self).addr(),
            final(self).config_value() == old(self).config_value(),
    {
        let frame = Self::write_word(CALIBRATION, calibration.register());
        self.calibration = Some(calibration);
        frame
    }

    /// Return the retained calibration, if hardware current/power scaling is enabled.
    pub fn calibration(&self) -> (r: Option<Calibration>)
        ensures
            r == self.calibration_state(),
    {
        self.calibration
    }

    /// The write of a raw calibration value (bit 0 cleared); the driver drops its
    /// retained scaling.
    pub fn write_calibration_raw(&mut self, cal: u16) -> (frame: [u8; 3])
        ensures
            is_register_write(frame, CALIBRATION, cal & 0xFFFE),
            final(self).calibration_state() is None,
            final(self).addr() == old(self).addr(),
            final(self).config_value() == old(self).config_value(),
    {
        let frame = Self::write_word(CALIBRATION, cal & 0xFFFE);
        self.calibration = None;
        frame
    }

    /// Raw shunt voltage (signed, 10 µV/LSB) from a read of `SHUNT_VOLTAGE`.
    pub fn read_shunt_voltage_raw(&self, response: [u8; 2]) -> (r: i16)
        ensures
            r == signed16(word_be(response)),
    {
        as_signed(Self::read_word(response))
    }

    /// Raw bus voltage register from a read of `BUS_VOLTAGE`.
    pub fn read_bus_voltage_raw(&self, response: [u8; 2]) -> (r: u16)
        ensures
            r == word_be(response),
    {
        Self::read_word(response)
    }

    /// Conversion-ready and overflow flags from a read of `BUS_VOLTAGE`.
    pub fn read_bus_voltage_status(&self, response: [u8; 2]) -> (r: BusVoltageStatus)
        ensures
            r.conversion_ready == (word_be(response) & 2 != 0),
            r.overflow == (word_be(response) & 1 != 0),
    {
        let raw = Self::read_word(response);
        BusVoltageStatus { conversion_ready: (raw & 2) != 0, overflow: (raw & 1) != 0 }
    }

    /// Raw current register (signed) from a read of `CURRENT`; zero until a
    /// calibration is programmed.
    pub fn read_current_raw(&self, response: [u8; 2]) -> (r: i16)
        ensures
            r == signed16(word_be(response)),
    {
        as_signed(Self::read_word(response))
    }

    /// Calibrated current in µA from a read of `CURRENT`: the signed register times
    /// the current LSB. `None` until [`Ina219::calibrate`] installs a calibration;
    /// the register need not be read then.
    pub fn read_current_microamps(&self, response: [u8; 2]) -> (r: Option<i64>)
        ensures
            self.calibration_state() is None ==> r is None,
            self.calibration_state() matches Some(c) ==> r == Some(
                (signed16(word_be(response)) * c.lsb()) as i64,
            ),
    {
        match self.calibration {
            None => None,
            Some(calibration) => {
                let raw = self.read_current_raw(response) as i64;
                let lsb = calibration.current_lsb_microamps() as i64;
                assert(-32768 * 0xFFFF_FFFF <= raw * lsb <= 32767 * 0xFFFF_FFFF) by (
                nonlinear_arith)
                    requires
                        -32768 <= raw <= 32767,
                        0 <= lsb <= 0xFFFF_FFFF,
                ;
                Some(raw * lsb)
            },
        }
    }

    /// Raw power register from a read of `POWER`; zero until calibrated.
    pub fn read_power_raw(&self, response: [u8; 2]) -> (r: u16)
        ensures
            r == word_be(response),
    {
        Self::read_word(response)
    }

    /// Calibrated power in µW from a read of `POWER`: the power LSB is 20 times the
    /// current LSB. `None` until [`Ina219::calibrate`] installs a calibration.
    pub fn read_power_microwatts(&self, response: [u8; 2]) -> (r: Option<u64>)
        ensures
            self.calibration_state() is None ==> r is None,
            self.calibration_state() matches Some(c) ==> r == Some(
                (word_be(response) * c.lsb() * 20) as u64,
            ),
    {
        match self.calibration {
            None => None,
            Some(calibration) => {
                let raw = Self::read_word(response) as u64;
                let lsb = calibration.current_lsb_microamps() as u64;
                assert(raw * lsb <= 0xFFFF * 0xFFFF_FFFF) by (nonlinear_arith)
                    requires
                        raw <= 0xFFFF,
                        lsb <= 0xFFFF_FFFF,
                ;
                Some(raw * lsb * 20)
            },
        }
    }
}

} // verus!

//! Register map, charge-option fields and unit conversions of the BQ24725 charger.
use vstd::prelude::*;

verus! {

/// BQ24725 7-bit I2C address
pub const BQ24725_ADDR: u8 = 0x09;

/// Charger Options Control register
pub const REG_CHARGE_OPTION: u8 = 0x12;
/// 7-bit Charge Current Setting register
pub const REG_CHARGE_CURRENT: u8 = 0x14;
/// 11-bit Charge Voltage Setting register
pub const REG_CHARGE_VOLTAGE: u8 = 0x15;
/// 6-bit Input Current Setting register
pub const REG_INPUT_CURRENT: u8 = 0x3F;
/// Device ID register (read-only)
pub const REG_DEVICE_ID: u8 = 0xFF;
/// Manufacturer ID register (read-only)
pub const REG_MANUFACTURE_ID: u8 = 0xFE;

/// ChargeCurrent() register mask: bits [12:6]
pub const CHARGE_CURRENT_MASK: u16 = 0x1FC0;
/// ChargeVoltage() register mask: bits [14:4]
pub const CHARGE_VOLTAGE_MASK: u16 = 0x7FF0;
/// InputCurrent() register mask: bits [12:7]
pub const INPUT_CURRENT_MASK: u16 = 0x1F80;

/// Minimum charge current in mA (128mA, register value 0x0040)
pub const CHARGE_CURRENT_MIN_MA: u16 = 128;
/// Maximum charge current in mA (8128mA, register value 0x1FC0)
pub const CHARGE_CURRENT_MAX_MA: u16 = 8128;
/// Charge current step in mA (64mA per LSB)
pub const CHARGE_CURRENT_STEP_MA: u16 = 64;

/// Minimum charge voltage in mV (1024mV, register value 0x0010)
pub const CHARGE_VOLTAGE_MIN_MV: u16 = 1024;
/// Maximum charge voltage in mV (19200mV, register value 0x7FF0)
pub const CHARGE_VOLTAGE_MAX_MV: u16 = 19200;
/// Charge voltage step in mV (16mV per LSB)
pub const CHARGE_VOLTAGE_STEP_MV: u16 = 16;

/// Minimum input current in mA (128mA, register value 0x0080)
pub const INPUT_CURRENT_MIN_MA: u16 = 128;
/// Maximum input current in mA (8064mA, register value 0x1F80)
pub const INPUT_CURRENT_MAX_MA: u16 = 8064;
/// Input current step in mA (128mA per LSB)
pub const INPUT_CURRENT_STEP_MA: u16 = 128;

/// ACOK deglitch time (bit 15)
#[derive(Debug, Clone, Copy, PartialEq, Eq, Structural)]
pub enum AcokDeglitchTime {
    /// ACO rising edge deglitch time 150ms (default at POR)
    T150ms,
    /// ACO rising edge deglitch time 1.3s
    T1300ms,
}

/// Watchdog timer (bits 14:13)
#[derive(Debug, Clone, Copy, PartialEq, Eq, Structural)]
pub enum WatchdogTimer {
    /// Disable Watchdog Timer
    Disabled,
    /// Enabled, 44 sec
    T44s,
    /// Enabled, 88 sec
    T88s,
    /// Enable Watchdog Timer 175s (default at POR)
    T175s,
}

/// BAT depletion threshold (bits 12:11)
#[derive(Debug, Clone, Copy, PartialEq, Eq, Structural)]
pub enum BatDepletionThreshold {
    /// Falling Threshold = 59.19% of voltage regulation limit (~2.486V/cell)
    Ft59_19pct,
    /// Falling Threshold = 62.65% (~2.631V/cell)
    Ft62_65pct,
    /// Falling Threshold = 66.55% (~2.795V/cell)
    Ft66_55pct,
    /// Falling Threshold = 70.97% (~2.981V/cell)
    Ft70_97pct,
}

/// EMI switching frequency adjustment direction (bit 10)
#[derive(Debug, Clone, Copy, PartialEq, Eq, Structural)]
pub enum EmiSwFreqAdj {
    /// Reduce PWM switching frequency by 18% (default at POR)
    Dec18pct,
    /// Increase PWM switching frequency by 18%
    Inc18pct,
}

/// EMI switching frequency adjustment enable (bit 9)
#[derive(Debug, Clone, Copy, PartialEq, Eq, Structural)]
pub enum EmiSwFreqAdjEn {
    /// Disable adjust PWM switching frequency (default at POR)
    Disabled,
    /// Enable adjust PWM switching frequency
    Enabled,
}

/// IFAULT_HI threshold (bits 8:7)
#[derive(Debug, Clone, Copy, PartialEq, Eq, Structural)]
pub enum IfaultHiThreshold {
    /// 300mV
    L300mV,
    /// 500mV
    L500mV,
    /// 700mV (default at POR)
    L700mV,
    /// 900mV
    L900mV,
}

/// LEARN enable (bit 6)
#[derive(Debug, Clone, Copy, PartialEq, Eq, Structural)]
pub enum LearnEn {
    /// Disable LEARN Cycle (default at POR)
    Disabled,
    /// Enable LEARN Cycle (auto-resets after cycle completes)
    Enabled,
}

/// IOUT pin output selection (bit 5)
#[derive(Debug, Clone, Copy, PartialEq, Eq, Structural)]
pub enum Iout {
    /// IOUT is the 20x adapter current amplifier output (default at POR)
    AdapterCurrent,
    /// IOUT is the 20x charge current amplifier output
    ChargeCurrent,
}

/// ACOC threshold (bits 2:1)
#[derive(Debug, Clone, Copy, PartialEq, Eq, Structural)]
pub enum AcocThreshold {
    /// Disable ACOC
    Disabled,
    /// 1.33X of input current regulation limit
    L1_33X,
    /// 1.66X of input current regulation limit (default at POR)
    L1_66X,
    /// 2.22X of input current regulation limit
    L2_22X,
}

/// Charge inhibit (bit 0)
#[derive(Debug, Clone, Copy, PartialEq, Eq, Structural)]
pub enum ChargeInhibit {
    /// Enable Charge (default at POR)
    ChargeEnable,
    /// Inhibit Charge
    ChargeInhibit,
}

impl AcokDeglitchTime {
    /// Register bits of this setting.
    pub open spec fn field(self) -> u16 {
        match self {
            AcokDeglitchTime::T150ms => 0x0000,
            AcokDeglitchTime::T1300ms => 0x8000,
        }
    }

    /// Register bits of this setting.
    pub fn bits(self) -> (r: u16)
        ensures
            r == self.field(),
    {
        match self {
            AcokDeglitchTime::T150ms => 0x0000,
            AcokDeglitchTime::T1300ms => 0x8000,
        }
    }
}

impl WatchdogTimer {
    /// Register bits of this setting.
    pub open spec fn field(self) -> u16 {
        match self {
            WatchdogTimer::Disabled => 0x0000,
            WatchdogTimer::T44s => 0x2000,
            WatchdogTimer::T88s => 0x4000,
            WatchdogTimer::T175s => 0x6000,
        }
    }

    /// Register bits of this setting.
    pub fn bits(self) -> (r: u16)
        ensures
            r == self.field(),
    {
        match self {
            WatchdogTimer::Disabled => 0x0000,
            WatchdogTimer::T44s => 0x2000,
            WatchdogTimer::T88s => 0x4000,
            WatchdogTimer::T175s => 0x6000,
        }
    }
}

impl BatDepletionThreshold {
    /// Register bits of this setting.
    pub open spec fn field(self) -> u16 {
        match self {
            BatDepletionThreshold::Ft59_19pct => 0x0000,
            BatDepletionThreshold::Ft62_65pct => 0x0800,
            BatDepletionThreshold::Ft66_55pct => 0x1000,
            BatDepletionThreshold::Ft70_97pct => 0x1800,
        }
    }

    /// Register bits of this setting.
    pub fn bits(self) -> (r: u16)
        ensures
            r == self.field(),
    {
        match self {
            BatDepletionThreshold::Ft59_19pct => 0x0000,
            BatDepletionThreshold::Ft62_65pct => 0x0800,
            BatDepletionThreshold::Ft66_55pct => 0x1000,
            BatDepletionThreshold::Ft70_97pct => 0x1800,
        }
    }
}

impl EmiSwFreqAdj {
    /// Register bits of this setting.
    pub open spec fn field(self) -> u16 {
        match self {
            EmiSwFreqAdj::Dec18pct => 0x0000,
            EmiSwFreqAdj::Inc18pct => 0x0400,
        }
    }

    /// Register bits of this setting.
    pub fn bits(self) -> (r: u16)
        ensures
            r == self.field(),
    {
        match self {
            EmiSwFreqAdj::Dec18pct => 0x0000,
            EmiSwFreqAdj::Inc18pct => 0x0400,
        }
    }
}

impl EmiSwFreqAdjEn {
    /// Register bits of this setting.
    pub open spec fn field(self) -> u16 {
        match self {
            EmiSwFreqAdjEn::Disabled => 0x0000,
            EmiSwFreqAdjEn::Enabled => 0x0200,
        }
    }

    /// Register bits of this setting.
    pub fn bits(self) -> (r: u16)
        ensures
            r == self.field(),
    {
        match self {
            EmiSwFreqAdjEn::Disabled => 0x0000,
            EmiSwFreqAdjEn::Enabled => 0x0200,
        }
    }
}

impl IfaultHiThreshold {
    /// Register bits of this setting.
    pub open spec fn field(self) -> u16 {
        match self {
            IfaultHiThreshold::L300mV => 0x0000,
            IfaultHiThreshold::L500mV => 0x0080,
            IfaultHiThreshold::L700mV => 0x0100,
            IfaultHiThreshold::L900mV => 0x0180,
        }
    }

    /// Register bits of this setting.
    pub fn bits(self) -> (r: u16)
        ensures
            r == self.field(),
    {
        match self {
            IfaultHiThreshold::L300mV => 0x0000,
            IfaultHiThreshold::L500mV => 0x0080,
            IfaultHiThreshold::L700mV => 0x0100,
            IfaultHiThreshold::L900mV => 0x0180,
        }
    }
}

impl LearnEn {
    /// Register bits of this setting.
    pub open spec fn field(self) -> u16 {
        match self {
            LearnEn::Disabled => 0x0000,
            LearnEn::Enabled => 0x0040,
        }
    }

    /// Register bits of this setting.
    pub fn bits(self) -> (r: u16)
        ensures
            r == self.field(),
    {
        match self {
            LearnEn::Disabled => 0x0000,
            LearnEn::Enabled => 0x0040,
        }
    }
}

impl Iout {
    /// Register bits of this setting.
    pub open spec fn field(self) -> u16 {
        match self {
            Iout::AdapterCurrent => 0x0000,
            Iout::ChargeCurrent => 0x0020,
        }
    }

    /// Register bits of this setting.
    pub fn bits(self) -> (r: u16)
        ensures
            r == self.field(),
    {
        match self {
            Iout::AdapterCurrent => 0x0000,
            Iout::ChargeCurrent => 0x0020,
        }
    }
}

impl AcocThreshold {
    /// Register bits of this setting.
    pub open spec fn field(self) -> u16 {
        match self {
            AcocThreshold::Disabled => 0x0000,
            AcocThreshold::L1_33X => 0x0002,
            AcocThreshold::L1_66X => 0x0004,
            AcocThreshold::L2_22X => 0x0006,
        }
    }

    /// Register bits of this setting.
    pub fn bits(self) -> (r: u16)
        ensures
            r == self.field(),
    {
        match self {
            AcocThreshold::Disabled => 0x0000,
            AcocThreshold::L1_33X => 0x0002,
            AcocThreshold::L1_66X => 0x0004,
            AcocThreshold::L2_22X => 0x0006,
        }
    }
}

impl ChargeInhibit {
    /// Register bits of this setting.
    pub open spec fn field(self) -> u16 {
        match self {
            ChargeInhibit::ChargeEnable => 0x0000,
            ChargeInhibit::ChargeInhibit => 0x0001,
        }
    }

    /// Register bits of this setting.
    pub fn bits(self) -> (r: u16)
        ensures
            r == self.field(),
    {
        match self {
            ChargeInhibit::ChargeEnable => 0x0000,
            ChargeInhibit::ChargeInhibit => 0x0001,
        }
    }
}

/// BQ24725 charge option configuration
#[derive(Debug, Clone, Copy, PartialEq, Eq, Structural)]
pub struct ChargeOptions {
    pub acok_deglitch_time: AcokDeglitchTime,
    pub watchdog_timer: WatchdogTimer,
    pub bat_depletion_threshold: BatDepletionThreshold,
    pub emi_sw_freq_adj: EmiSwFreqAdj,
    pub emi_sw_freq_adj_en: EmiSwFreqAdjEn,
    pub ifault_hi_threshold: IfaultHiThreshold,
    pub learn_en: LearnEn,
    pub iout: Iout,
    pub acoc_threshold: AcocThreshold,
    pub charge_inhibit: ChargeInhibit,
}

/// The ChargeOption() register word that holds the given options.
pub open spec fn options_word(o: ChargeOptions) -> u16 {
    o.acok_deglitch_time.field() | o.watchdog_timer.field() | o.bat_depletion_threshold.field()
        | o.emi_sw_freq_adj.field() | o.emi_sw_freq_adj_en.field() | o.ifault_hi_threshold.field()
        | o.learn_en.field() | o.iout.field() | o.acoc_threshold.field()
        | o.charge_inhibit.field()
}

/// The options that a ChargeOption() register word selects; bits 4:3 are reserved.
pub open spec fn options_of_word(data: u16) -> ChargeOptions {
    ChargeOptions {
        acok_deglitch_time: if data & 0x8000 != 0 {
            AcokDeglitchTime::T1300ms
        } else {
            AcokDeglitchTime::T150ms
        },
        watchdog_timer: if data & 0x6000 == 0x2000 {
            WatchdogTimer::T44s
        } else if data & 0x6000 == 0x4000 {
            WatchdogTimer::T88s
        } else if data & 0x6000 == 0x6000 {
            WatchdogTimer::T175s
        } else {
            WatchdogTimer::Disabled
        },
        bat_depletion_threshold: if data & 0x1800 == 0x0800 {
            BatDepletionThreshold::Ft62_65pct
        } else if data & 0x1800 == 0x1000 {
            BatDepletionThreshold::Ft66_55pct
        } else if data & 0x1800 == 0x1800 {
            BatDepletionThreshold::Ft70_97pct
        } else {
            BatDepletionThreshold::Ft59_19pct
        },
        emi_sw_freq_adj: if data & 0x0400 != 0 {
            EmiSwFreqAdj::Inc18pct
        } else {
            EmiSwFreqAdj::Dec18pct
        },
        emi_sw_freq_adj_en: if data & 0x0200 != 0 {
            EmiSwFreqAdjEn::Enabled
        } else {
            EmiSwFreqAdjEn::Disabled
        },
        ifault_hi_threshold: if data & 0x0180 == 0x0080 {
            IfaultHiThreshold::L500mV
        } else if data & 0x0180 == 0x0100 {
            IfaultHiThreshold::L700mV
        } else if data & 0x0180 == 0x0180 {
            IfaultHiThreshold::L900mV
        } else {
            IfaultHiThreshold::L300mV
        },
        learn_en: if data & 0x0040 != 0 {
            LearnEn::Enabled
        } else {
            LearnEn::Disabled
        },
        iout: if data & 0x0020 != 0 {
            Iout::ChargeCurrent
        } else {
            Iout::AdapterCurrent
        },
        acoc_threshold: if data & 0x0006 == 0x0002 {
            AcocThreshold::L1_33X
        } else if data & 0x0006 == 0x0004 {
            AcocThreshold::L1_66X
        } else if data & 0x0006 == 0x0006 {
            AcocThreshold::L2_22X
        } else {
            AcocThreshold::Disabled
        },
        charge_inhibit: if data & 0x0001 != 0 {
            ChargeInhibit::ChargeInhibit
        } else {
            ChargeInhibit::ChargeEnable
        },
    }
}

/// The power-on-reset charge options: the ChargeOption() word 0x7904 (watchdog
/// 175 s, battery depletion at 70.97 %, IFAULT_HI 700 mV, ACOC at 1.66x).
pub open spec fn por_options() -> ChargeOptions {
    ChargeOptions {
        acok_deglitch_time: AcokDeglitchTime::T150ms,
        watchdog_timer: WatchdogTimer::T175s,
        bat_depletion_threshold: BatDepletionThreshold::Ft70_97pct,
        emi_sw_freq_adj: EmiSwFreqAdj::Dec18pct,
        emi_sw_freq_adj_en: EmiSwFreqAdjEn::Disabled,
        ifault_hi_threshold: IfaultHiThreshold::L700mV,
        learn_en: LearnEn::Disabled,
        iout: Iout::AdapterCurrent,
        acoc_threshold: AcocThreshold::L1_66X,
        charge_inhibit: ChargeInhibit::ChargeEnable,
    }
}

impl ChargeOptions {
    /// Pack options into a 16-bit register value.
    /// Bits [4:3] are reserved and always 0.
    pub fn to_u16(&self) -> (r: u16)
        ensures
            r == options_word(*self),
    {
        self.acok_deglitch_time.bits() | self.watchdog_timer.bits()
            | self.bat_depletion_threshold.bits() | self.emi_sw_freq_adj.bits()
            | self.emi_sw_freq_adj_en.bits() | self.ifault_hi_threshold.bits()
            | self.learn_en.bits() | self.iout.bits() | self.acoc_threshold.bits()
            | self.charge_inhibit.bits()
    }

    /// Unpack a 16-bit register value into options
    pub fn from_u16(data: u16) -> (r: Self)
        ensures
            r == options_of_word(data),
    {
        Self {
            acok_deglitch_time: if data & 0x8000 != 0 {
                AcokDeglitchTime::T1300ms
            } else {
                AcokDeglitchTime::T150ms
            },
            watchdog_timer: if data & 0x6000 == 0x2000 {
                WatchdogTimer::T44s
            } else if data & 0x6000 == 0x4000 {
                WatchdogTimer::T88s
            } else if data & 0x6000 == 0x6000 {
                WatchdogTimer::T175s
            } else {
                WatchdogTimer::Disabled
            },
            bat_depletion_threshold: if data & 0x1800 == 0x0800 {
                BatDepletionThreshold::Ft62_65pct
            } else if data & 0x1800 == 0x1000 {
                BatDepletionThreshold::Ft66_55pct
            } else if data & 0x1800 == 0x1800 {
                BatDepletionThreshold::Ft70_97pct
            } else {
                BatDepletionThreshold::Ft59_19pct
            },
            emi_sw_freq_adj: if data & 0x0400 != 0 {
                EmiSwFreqAdj::Inc18pct
            } else {
                EmiSwFreqAdj::Dec18pct
            },
            emi_sw_freq_adj_en: if data & 0x0200 != 0 {
                EmiSwFreqAdjEn::Enabled
            } else {
                EmiSwFreqAdjEn::Disabled
            },
            ifault_hi_threshold: if data & 0x0180 == 0x0080 {
                IfaultHiThreshold::L500mV
            } else if data & 0x0180 == 0x0100 {
                IfaultHiThreshold::L700mV
            } else if data & 0x0180 == 0x0180 {
                IfaultHiThreshold::L900mV
            } else {
                IfaultHiThreshold::L300mV
            },
            learn_en: if data & 0x0040 != 0 {
                LearnEn::Enabled
            } else {
                LearnEn::Disabled
            },
            iout: if data & 0x0020 != 0 {
                Iout::ChargeCurrent
            } else {
                Iout::AdapterCurrent
            },
            acoc_threshold: if data & 0x0006 == 0x0002 {
                AcocThreshold::L1_33X
            } else if data & 0x0006 == 0x0004 {
                AcocThreshold::L1_66X
            } else if data & 0x0006 == 0x0006 {
                AcocThreshold::L2_22X
            } else {
                AcocThreshold::Disabled
            },
            charge_inhibit: if data & 0x0001 != 0 {
                ChargeInhibit::ChargeInhibit
            } else {
                ChargeInhibit::ChargeEnable
            },
        }
    }

    /// The power-on-reset charge configuration (ChargeOption() = 0x7904).
    pub fn por_default() -> (r: Self)
        ensures
            r == por_options(),
    {
        Self {
            acok_deglitch_time: AcokDeglitchTime::T150ms,
            watchdog_timer: WatchdogTimer::T175s,
            bat_depletion_threshold: BatDepletionThreshold::Ft70_97pct,
            emi_sw_freq_adj: EmiSwFreqAdj::Dec18pct,
            emi_sw_freq_adj_en: EmiSwFreqAdjEn::Disabled,
            ifault_hi_threshold: IfaultHiThreshold::L700mV,
            learn_en: LearnEn::Disabled,
            iout: Iout::AdapterCurrent,
            acoc_threshold: AcocThreshold::L1_66X,
            charge_inhibit: ChargeInhibit::ChargeEnable,
        }
    }
}

/// A physical value cannot be represented by the device register.
#[derive(Debug, Clone, Copy, PartialEq, Eq, Structural)]
pub enum ValueError {
    /// Value is outside the documented range or is not aligned to the register step.
    Unsupported,
}

/// Driver error
#[derive(Debug)]
pub enum Error<I2cError> {
    /// I2C communication error
    I2c(I2cError),
    /// Charge current out of valid range (128–8128 mA)
    ChargeCurrentOutOfRange,
    /// Charge voltage out of valid range (1024–19200 mV)
    ChargeVoltageOutOfRange,
    /// Input current out of valid range (128–8064 mA)
    InputCurrentOutOfRange,
}

/// A charge current (mA) that the ChargeCurrent() register can hold: zero, or a
/// multiple of 64 mA between 128 and 8128 mA.
pub open spec fn valid_charge_current(ma: int) -> bool {
    ma == 0 || (128 <= ma <= 8128 && ma % 64 == 0)
}

/// A charge voltage (mV) that the ChargeVoltage() register can hold: zero, or a
/// multiple of 16 mV between 1024 and 19200 mV.
pub open spec fn valid_charge_voltage(mv: int) -> bool {
    mv == 0 || (1024 <= mv <= 19200 && mv % 16 == 0)
}

/// An input current (mA) that the InputCurrent() register can hold: zero, or a
/// multiple of 128 mA between 128 and 8064 mA.
pub open spec fn valid_input_current(ma: int) -> bool {
    ma == 0 || (128 <= ma <= 8064 && ma % 128 == 0)
}

/// The charge current (mA) that a ChargeCurrent() register word selects: bits 12:6, 64 mA each.
pub open spec fn charge_current_of(raw: u16) -> int {
    ((raw / 64) % 128) * 64
}

/// The charge voltage (mV) that a ChargeVoltage() register word selects: bits 14:4, 16 mV each.
pub open spec fn charge_voltage_of(raw: u16) -> int {
    ((raw / 16) % 2048) * 16
}

/// The input current (mA) that an InputCurrent() register word selects: bits 12:7, 128 mA each.
pub open spec fn input_current_of(raw: u16) -> int {
    ((raw / 128) % 64) * 128
}

/// Encode a charge-current setting as its register value.
pub fn encode_charge_current_ma(ma: u16) -> (r: Result<u16, ValueError>)
    ensures
        valid_charge_current(ma as int) <==> r is Ok,
        r matches Ok(v) ==> v == ma,
        r matches Err(e) ==> e == ValueError::Unsupported,
{
    if ma == 0 {
        return Ok(0);
    }
    if !(CHARGE_CURRENT_MIN_MA <= ma && ma <= CHARGE_CURRENT_MAX_MA) || ma % CHARGE_CURRENT_STEP_MA
        != 0 {
        return Err(ValueError::Unsupported);
    }
    Ok((ma / CHARGE_CURRENT_STEP_MA) * 64)
}

/// Decode a charge-current register value in mA.
pub fn decode_charge_current_ma(raw: u16) -> (r: u16)
    ensures
        r == charge_current_of(raw),
        r == raw & CHARGE_CURRENT_MASK,
{
    assert(((raw & 0x1FC0u16) >> 6u16) * 64 == ((raw / 64) % 128) * 64
        && ((raw & 0x1FC0u16) >> 6u16) * 64 == raw & 0x1FC0u16
        && ((raw & 0x1FC0u16) >> 6u16) < 128) by (bit_vector);
    ((raw & CHARGE_CURRENT_MASK) >> 6) * CHARGE_CURRENT_STEP_MA
}

/// Encode a charge-voltage setting as its register value.
pub fn encode_charge_voltage_mv(mv: u16) -> (r: Result<u16, ValueError>)
    ensures
        valid_charge_voltage(mv as int) <==> r is Ok,
        r matches Ok(v) ==> v == mv,
        r matches Err(e) ==> e == ValueError::Unsupported,
{
    if mv == 0 {
        return Ok(0);
    }
    if !(CHARGE_VOLTAGE_MIN_MV <= mv && mv <= CHARGE_VOLTAGE_MAX_MV) || mv % CHARGE_VOLTAGE_STEP_MV
        != 0 {
        return Err(ValueError::Unsupported);
    }
    Ok((mv / CHARGE_VOLTAGE_STEP_MV) * 16)
}

/// Decode a charge-voltage register value in mV.
pub fn decode_charge_voltage_mv(raw: u16) -> (r: u16)
    ensures
        r == charge_voltage_of(raw),
        r == raw & CHARGE_VOLTAGE_MASK,
{
    assert(((raw & 0x7FF0u16) >> 4u16) * 16 == ((raw / 16) % 2048) * 16
        && ((raw & 0x7FF0u16) >> 4u16) * 16 == raw & 0x7FF0u16
        && ((raw & 0x7FF0u16) >> 4u16) < 2048) by (bit_vector);
    ((raw & CHARGE_VOLTAGE_MASK) >> 4) * CHARGE_VOLTAGE_STEP_MV
}

/// Encode an input-current setting as its register value.
pub fn encode_input_current_ma(ma: u16) -> (r: Result<u16, ValueError>)
    ensures
        valid_input_current(ma as int) <==> r is Ok,
        r matches Ok(v) ==> v == ma,
        r matches Err(e) ==> e == ValueError::Unsupported,
{
    if ma == 0 {
        return Ok(0);
    }
    if !(INPUT_CURRENT_MIN_MA <= ma && ma <= INPUT_CURRENT_MAX_MA) || ma % INPUT_CURRENT_STEP_MA
        != 0 {
        return Err(ValueError::Unsupported);
    }
    Ok((ma / INPUT_CURRENT_STEP_MA) * 128)
}

/// Decode an input-current register value in mA.
pub fn decode_input_current_ma(raw: u16) -> (r: u16)
    ensures
        r == input_current_of(raw),
        r == raw & INPUT_CURRENT_MASK,
{
    assert(((raw & 0x1F80u16) >> 7u16) * 128 == ((raw / 128) % 64) * 128
        && ((raw & 0x1F80u16) >> 7u16) * 128 == raw & 0x1F80u16
        && ((raw & 0x1F80u16) >> 7u16) < 64) by (bit_vector);
    ((raw & INPUT_CURRENT_MASK) >> 7) * INPUT_CURRENT_STEP_MA
}

} // verus!

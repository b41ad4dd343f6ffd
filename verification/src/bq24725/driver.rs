//! The BQ24725 driver's transaction logic.
//!
//! The bus itself stays with the caller: every register read hands in the two
//! bytes the SMBus word read returned (low byte first), and every register write
//! hands back the three bytes to send (`[register, low byte, high byte]`) to the
//! device at [`Bq24725::address`].
use vstd::prelude::*;
use crate::smbus::{is_word_write, read_word, word_of, word_write};
use super::types::{
    charge_current_of, charge_voltage_of, decode_charge_current_ma, decode_charge_voltage_mv,
    decode_input_current_ma, encode_charge_current_ma, encode_charge_voltage_mv,
    encode_input_current_ma, input_current_of, options_of_word, options_word, valid_charge_current,
    valid_charge_voltage, valid_input_current, ChargeInhibit, ChargeOptions, Error, Iout, LearnEn,
    WatchdogTimer, BQ24725_ADDR, REG_CHARGE_CURRENT, REG_CHARGE_OPTION, REG_CHARGE_VOLTAGE,
    REG_INPUT_CURRENT,
};

verus! {

/// Options `o` with the charge-inhibit bit replaced.
pub open spec fn with_inhibit(o: ChargeOptions, inhibit: ChargeInhibit) -> ChargeOptions {
    ChargeOptions { charge_inhibit: inhibit, ..o }
}

/// BQ24725 driver state.
pub struct Bq24725 {
    address: u8,
}

impl Bq24725 {
    /// The 7-bit I2C address the driver talks to.
    pub closed spec fn addr(&self) -> u8 {
        self.address
    }

    /// Create a new BQ24725 driver with default address (0x09)
    pub fn new() -> (r: Self)
        ensures
            r.addr() == BQ24725_ADDR,
    {
        Self { address: BQ24725_ADDR }
    }

    /// Create a new BQ24725 driver with custom address
    pub fn with_address(address: u8) -> (r: Self)
        ensures
            r.addr() == address,
    {
        Self { address }
    }

    /// The 7-bit I2C address every transaction goes to.
    pub fn address(&self) -> (r: u8)
        ensures
            r == self.addr(),
    {
        self.address
    }

    /// Device ID from a read of `REG_DEVICE_ID` (always 0x0008 on a BQ24725).
    pub fn device_id(&self, response: [u8; 2]) -> (r: u16)
        ensures
            r == word_of(response),
    {
        read_word(response)
    }

    /// Manufacturer ID from a read of `REG_MANUFACTURE_ID` (always 0x0040).
    pub fn manufacture_id(&self, response: [u8; 2]) -> (r: u16)
        ensures
            r == word_of(response),
    {
        read_word(response)
    }

    /// Whether the ManufacturerID and DeviceID reads identify a BQ24725.
    pub fn verify_id(&self, manufacture_response: [u8; 2], device_response: [u8; 2]) -> (r: bool)
        ensures
            r == (word_of(manufacture_response) == 0x0040 && word_of(device_response) == 0x0008),
    {
        let mfg = self.manufacture_id(manufacture_response);
        let dev = self.device_id(device_response);
        mfg == 0x0040 && dev == 0x0008
    }

    /// Raw ChargeOption() value from a read of `REG_CHARGE_OPTION`.
    pub fn charge_option_raw(&self, response: [u8; 2]) -> (r: u16)
        ensures
            r == word_of(response),
    {
        read_word(response)
    }

    /// Charge options from a read of `REG_CHARGE_OPTION`.
    pub fn charge_option(&self, response: [u8; 2]) -> (r: ChargeOptions)
        ensures
            r == options_of_word(word_of(response)),
    {
        ChargeOptions::from_u16(read_word(response))
    }

    /// The write that stores `opts` in ChargeOption().
    pub fn set_charge_option(&self, opts: &ChargeOptions) -> (frame: [u8; 3])
        ensures
            is_word_write(frame, REG_CHARGE_OPTION, options_word(*opts)),
    {
        word_write(REG_CHARGE_OPTION, opts.to_u16())
    }

    /// Charge current in mA from a read of `REG_CHARGE_CURRENT`; zero means disabled.
    pub fn charge_current_ma(&self, response: [u8; 2]) -> (r: u16)
        ensures
            r == charge_current_of(word_of(response)),
    {
        decode_charge_current_ma(read_word(response))
    }

    /// The write that sets the charge current, or the error for an unsupported value.
    ///
    /// `0` disables charging. Nonzero values must be in the documented
    /// 128–8128 mA range and be a multiple of 64 mA.
    pub fn set_charge_current_ma<E>(&self, ma: u16) -> (r: Result<[u8; 3], Error<E>>)
        ensures
            valid_charge_current(ma as int) <==> r is Ok,
            r matches Ok(frame) ==> is_word_write(frame, REG_CHARGE_CURRENT, ma),
            r matches Err(e) ==> e is ChargeCurrentOutOfRange,
    {
        match encode_charge_current_ma(ma) {
            Ok(reg_val) => Ok(word_write(REG_CHARGE_CURRENT, reg_val)),
            Err(_) => Err(Error::ChargeCurrentOutOfRange),
        }
    }

    /// Charge voltage in mV from a read of `REG_CHARGE_VOLTAGE`; zero means disabled.
    pub fn charge_voltage_mv(&self, response: [u8; 2]) -> (r: u16)
        ensures
            r == charge_voltage_of(word_of(response)),
    {
        decode_charge_voltage_mv(read_word(response))
    }

    /// The write that sets the charge voltage, or the error for an unsupported value.
    ///
    /// `0` disables voltage regulation. Nonzero values must be in the
    /// documented 1024–19200 mV range and be a multiple of 16 mV.
    pub fn set_charge_voltage_mv<E>(&self, mv: u16) -> (r: Result<[u8; 3], Error<E>>)
        ensures
            valid_charge_voltage(mv as int) <==> r is Ok,
            r matches Ok(frame) ==> is_word_write(frame, REG_CHARGE_VOLTAGE, mv),
            r matches Err(e) ==> e is ChargeVoltageOutOfRange,
    {
        match encode_charge_voltage_mv(mv) {
            Ok(reg_val) => Ok(word_write(REG_CHARGE_VOLTAGE, reg_val)),
            Err(_) => Err(Error::ChargeVoltageOutOfRange),
        }
    }

    /// Input-current limit in mA from a read of `REG_INPUT_CURRENT`; zero means disabled.
    pub fn input_current_ma(&self, response: [u8; 2]) -> (r: u16)
        ensures
            r == input_current_of(word_of(response)),
    {
        decode_input_current_ma(read_word(response))
    }

    /// The write that sets the input-current limit, or the error for an unsupported value.
    ///
    /// `0` disables the limit. Nonzero values must be in the documented
    /// 128–8064 mA range and be a multiple of 128 mA.
    pub fn set_input_current_ma<E>(&self, ma: u16) -> (r: Result<[u8; 3], Error<E>>)
        ensures
            valid_input_current(ma as int) <==> r is Ok,
            r matches Ok(frame) ==> is_word_write(frame, REG_INPUT_CURRENT, ma),
            r matches Err(e) ==> e is InputCurrentOutOfRange,
    {
        match encode_input_current_ma(ma) {
            Ok(reg_val) => Ok(word_write(REG_INPUT_CURRENT, reg_val)),
            Err(_) => Err(Error::InputCurrentOutOfRange),
        }
    }

    /// Whether a ChargeOption() read shows charging enabled (charge_inhibit == ChargeEnable).
    pub fn query_charging_enabled(&self, option_response: [u8; 2]) -> (r: bool)
        ensures
            r == (options_of_word(word_of(option_response)).charge_inhibit
                == ChargeInhibit::ChargeEnable),
    {
        let opts = self.charge_option(option_response);
        opts.charge_inhibit == ChargeInhibit::ChargeEnable
    }

    /// The ChargeOption() write that enables or disables charging, keeping every
    /// other option as the preceding read of ChargeOption() returned it.
    pub fn set_charging_enabled(&self, option_response: [u8; 2], enabled: bool) -> (frame: [u8; 3])
        ensures
            is_word_write(
                frame,
                REG_CHARGE_OPTION,
                options_word(
                    with_inhibit(
                        options_of_word(word_of(option_response)),
                        if enabled {
                            ChargeInhibit::ChargeEnable
                        } else {
                            ChargeInhibit::ChargeInhibit
                        },
                    ),
                ),
            ),
    {
        let mut opts = self.charge_option(option_response);
        opts.charge_inhibit = if enabled {
            ChargeInhibit::ChargeEnable
        } else {
            ChargeInhibit::ChargeInhibit
        };
        self.set_charge_option(&opts)
    }

    /// The write that refreshes the watchdog: the ChargeCurrent() value just read,
    /// written back unchanged.
    ///
    /// Must be sent within the watchdog timeout period (44s/88s/175s)
    /// if the watchdog is enabled, otherwise charging is suspended.
    pub fn refresh_watchdog(&self, current_response: [u8; 2]) -> (frame: [u8; 3])
        ensures
            frame[0] == REG_CHARGE_CURRENT,
            frame[1] == current_response[0],
            frame[2] == current_response[1],
    {
        let raw = read_word(current_response);
        word_write(REG_CHARGE_CURRENT, raw)
    }

    /// The ChargeOption() write that selects the watchdog timer mode.
    pub fn set_watchdog(&self, option_response: [u8; 2], timer: WatchdogTimer) -> (frame: [u8; 3])
        ensures
            is_word_write(
                frame,
                REG_CHARGE_OPTION,
                options_word(
                    ChargeOptions {
                        watchdog_timer: timer,
                        ..options_of_word(word_of(option_response))
                    },
                ),
            ),
    {
        let mut opts = self.charge_option(option_response);
        opts.watchdog_timer = timer;
        self.set_charge_option(&opts)
    }

    /// The ChargeOption() write that selects what the IOUT pin monitors.
    pub fn set_iout_selection(&self, option_response: [u8; 2], iout: Iout) -> (frame: [u8; 3])
        ensures
            is_word_write(
                frame,
                REG_CHARGE_OPTION,
                options_word(ChargeOptions { iout, ..options_of_word(word_of(option_response)) }),
            ),
    {
        let mut opts = self.charge_option(option_response);
        opts.iout = iout;
        self.set_charge_option(&opts)
    }

    /// The ChargeOption() write that starts a battery LEARN cycle.
    ///
    /// During LEARN, the IC turns off ACFET and turns on BATFET to
    /// discharge the battery. The cycle completes automatically when
    /// battery voltage hits the depletion threshold.
    pub fn start_learn_cycle(&self, option_response: [u8; 2]) -> (frame: [u8; 3])
        ensures
            is_word_write(
                frame,
                REG_CHARGE_OPTION,
                options_word(
                    ChargeOptions {
                        learn_en: LearnEn::Enabled,
                        ..options_of_word(word_of(option_response))
                    },
                ),
            ),
    {
        let mut opts = self.charge_option(option_response);
        opts.learn_en = LearnEn::Enabled;
        self.set_charge_option(&opts)
    }

    /// Whether a ChargeOption() read shows a LEARN cycle in progress.
    pub fn query_learn_active(&self, option_response: [u8; 2]) -> (r: bool)
        ensures
            r == (options_of_word(word_of(option_response)).learn_en == LearnEn::Enabled),
    {
        let opts = self.charge_option(option_response);
        opts.learn_en == LearnEn::Enabled
    }

    /// The writes of a complete charge configuration, in the order they are sent:
    /// charge options, charge voltage, charge current, input current.
    ///
    /// A value the device cannot hold stops the sequence: the writes before it are
    /// still returned, and the second component is the error for that value.
    pub fn configure<E>(
        &self,
        charge_voltage_mv: u16,
        charge_current_ma: u16,
        input_current_ma: u16,
        options: &ChargeOptions,
    ) -> (r: (Vec<[u8; 3]>, Result<(), Error<E>>))
        ensures
            r.0@.len() >= 1,
            is_word_write(r.0@[0], REG_CHARGE_OPTION, options_word(*options)),
            !valid_charge_voltage(charge_voltage_mv as int) ==> r.0@.len() == 1 && (r.1 matches Err(
                e,
            ) && e is ChargeVoltageOutOfRange),
            valid_charge_voltage(charge_voltage_mv as int) ==> r.0@.len() >= 2 && is_word_write(
                r.0@[1],
                REG_CHARGE_VOLTAGE,
                charge_voltage_mv,
            ),
            valid_charge_voltage(charge_voltage_mv as int) && !valid_charge_current(
                charge_current_ma as int,
            ) ==> r.0@.len() == 2 && (r.1 matches Err(e) && e is ChargeCurrentOutOfRange),
            valid_charge_voltage(charge_voltage_mv as int) && valid_charge_current(
                charge_current_ma as int,
            ) ==> r.0@.len() >= 3 && is_word_write(
                r.0@[2],
                REG_CHARGE_CURRENT,
                charge_current_ma,
            ),
            valid_charge_voltage(charge_voltage_mv as int) && valid_charge_current(
                charge_current_ma as int,
            ) && !valid_input_current(input_current_ma as int) ==> r.0@.len() == 3
                && (r.1 matches Err(e) && e is InputCurrentOutOfRange),
            valid_charge_voltage(charge_voltage_mv as int) && valid_charge_current(
                charge_current_ma as int,
            ) && valid_input_current(input_current_ma as int) ==> r.0@.len() == 4
                && is_word_write(r.0@[3], REG_INPUT_CURRENT, input_current_ma) && r.1 is Ok,
    {
        let mut frames: Vec<[u8; 3]> = Vec::new();
        frames.push(self.set_charge_option(options));
        match self.set_charge_voltage_mv(charge_voltage_mv) {
            Ok(f) => frames.push(f),
            Err(e) => {
                return (frames, Err(e));
            },
        }
        match self.set_charge_current_ma(charge_current_ma) {
            Ok(f) => frames.push(f),
            Err(e) => {
                return (frames, Err(e));
            },
        }
        match self.set_input_current_ma(input_current_ma) {
            Ok(f) => frames.push(f),
            Err(e) => {
                return (frames, Err(e));
            },
        }
        (frames, Ok(()))
    }

    /// Raw register values from reads of, in order, ChargeOption(), ChargeCurrent(),
    /// ChargeVoltage(), InputCurrent(), ManufacturerID() and DeviceID().
    #[allow(clippy::type_complexity)]
    pub fn read_all_raw(&self, responses: [[u8; 2]; 6]) -> (r: (u16, u16, u16, u16, u16, u16))
        ensures
            r.0 == word_of(responses[0]),
            r.1 == word_of(responses[1]),
            r.2 == word_of(responses[2]),
            r.3 == word_of(responses[3]),
            r.4 == word_of(responses[4]),
            r.5 == word_of(responses[5]),
    {
        let opts = read_word(responses[0]);
        let cc = read_word(responses[1]);
        let cv = read_word(responses[2]);
        let ic = read_word(responses[3]);
        let mfg = read_word(responses[4]);
        let dev = read_word(responses[5]);
        (opts, cc, cv, ic, mfg, dev)
    }
}

} // verus!

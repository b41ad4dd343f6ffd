//! The BQ40Z50 driver's transaction logic.
//!
//! The bus stays with the caller. A word command is read with an SMBus word read of
//! the command code (two bytes, low first); a byte command with a one-byte read; a
//! block command with a 33-byte read whose first byte is the count. MAC commands are
//! started by writing the sub-command to ManufacturerAccess and answered by a block
//! read of ManufacturerBlockAccess. Writes are handed back as the bytes to send to
//! [`Bq40z50::address`].
use vstd::prelude::*;
use crate::bytes::{as_signed, le16, signed16};
use crate::smbus::{is_word_write, read_word, word_of, word_write};
use super::cmd::{
    BQ40Z50_ADDR, CMD_AT_RATE, CMD_MANUFACTURER_ACCESS, SUBCMD_DEVICE_RESET, SUBCMD_FET_CONTROL,
    SUBCMD_GAUGING,
};
use super::types::{
    ChargingStatus, Error, GaugingStatus, OperationStatus, SafetyFlags, StateOfHealth, TempDetail,
};

verus! {

/// Convert 0.1 K to 0.1 °C (the value minus 2732, kept in 16 bits).
pub open spec fn deci_celsius(temp_0_1k: u16) -> i16 {
    let d = temp_0_1k - 2732;
    if d <= 32767 {
        d as i16
    } else {
        (d - 65536) as i16
    }
}

/// A temperature in 0.1 K as whole degrees Celsius: (raw - 2732) / 10, the
/// quotient truncated towards zero.
pub open spec fn whole_celsius(temp_0_1k: u16) -> i16 {
    let d = temp_0_1k - 2732;
    if d >= 0 {
        (d / 10) as i16
    } else {
        (-((-d) / 10)) as i16
    }
}

/// Convert 0.1 K to whole degrees Celsius, (raw - 2732) / 10.
fn kelvin_to_whole_celsius(temp_0_1k: u16) -> (r: i16)
    ensures
        r == whole_celsius(temp_0_1k),
        -274 < r < 6281,
{
    if temp_0_1k >= 2732 {
        ((temp_0_1k - 2732) / 10) as i16
    } else {
        -(((2732 - temp_0_1k) / 10) as i16)
    }
}

/// Convert 0.1K to Celsius, Actual temperature = return value / 10
pub fn kelvin_to_celsius(temp_0_1k: u16) -> (r: i16)
    ensures
        r == deci_celsius(temp_0_1k),
{
    if temp_0_1k <= 35499 {
        (temp_0_1k as i32 - 2732) as i16
    } else {
        (temp_0_1k as i32 - 2732 - 65536) as i16
    }
}

/// What an SMBus block read (`response`, count byte first) into a buffer of
/// `capacity` bytes gives: the count when it is at most 32 and at most the capacity,
/// else the error naming it (with the capacity cut to 8 bits).
pub open spec fn block_result<E>(response: [u8; 33], capacity: nat) -> Result<usize, Error<E>> {
    if response[0] > 32 || response[0] > capacity {
        Err(Error::InvalidBlockLength { reported: response[0], capacity: (capacity % 256) as u8 })
    } else {
        Ok(response[0] as usize)
    }
}

/// What a MAC block read of a fixed-size `n`-byte response gives: the `n` data bytes,
/// or the error for a count that does not fit or is not `n`.
pub open spec fn mac_result<E>(response: [u8; 33], n: nat) -> Result<Seq<u8>, Error<E>> {
    match block_result::<E>(response, n) {
        Err(e) => Err(e),
        Ok(count) => if count != n {
            Err(Error::UnexpectedBlockLength { expected: n as u8, reported: count as u8 })
        } else {
            Ok(response@.subrange(1, 1 + n as int))
        },
    }
}

/// BQ40Z50 driver state.
pub struct Bq40z50 {
    address: u8,
}

impl Bq40z50 {
    /// The 7-bit I2C address the driver talks to.
    pub closed spec fn addr(&self) -> u8 {
        self.address
    }

    /// Create a new BQ40Z50 driver (address 0x0B)
    pub fn new() -> (r: Self)
        ensures
            r.addr() == BQ40Z50_ADDR,
    {
        Self { address: BQ40Z50_ADDR }
    }

    /// Create with custom address
    pub fn with_address(address: u8) -> (r: Self)
        ensures
            r.addr() == address,
    {
        Self { address }
    }

    /// The 7-bit I2C address every transaction goes to.
    pub fn address(&self) -> (r: u8)
        ensures
            r == self.addr(),
    {
        self.address
    }

    /// Copy the data of an SMBus block read into `buf` and return the number of data
    /// bytes. The count byte is checked against the protocol limit (32) and the
    /// buffer before anything is copied; on error `buf` is left untouched.
    pub fn read_block<E>(&self, response: &[u8; 33], buf: &mut [u8]) -> (r: Result<usize, Error<E>>)
        ensures
            r == block_result::<E>(*response, old(buf)@.len()),
            final(buf)@.len() == old(buf)@.len(),
            r is Err ==> final(buf)@ == old(buf)@,
            r matches Ok(n) ==> final(buf)@.take(n as int) == response@.subrange(1, 1 + n)
                && final(buf)@.skip(n as int) == old(buf)@.skip(n as int),
    {
        let reported = response[0] as usize;
        if reported > 32 || reported > buf.len() {
            return Err(
                Error::InvalidBlockLength {
                    reported: response[0],
                    capacity: (buf.len() % 256) as u8,
                },
            );
        }
        let ghost old_buf = buf@;
        let mut i: usize = 0;
        while i < reported
            invariant
                reported <= 32,
                reported <= buf@.len(),
                i <= reported,
                buf@.len() == old_buf.len(),
                forall|k: int| 0 <= k < i ==> #[trigger] buf@[k] == response@[1 + k],
                forall|k: int| reported <= k < buf@.len() ==> #[trigger] buf@[k] == old_buf[k],
            decreases reported - i,
        {
            buf[i] = response[1 + i];
            i = i + 1;
        }
        assert(buf@.take(reported as int) =~= response@.subrange(1, 1 + reported as int));
        assert(buf@.skip(reported as int) =~= old_buf.skip(reported as int));
        Ok(reported)
    }

    /// Read a fixed-size MAC response of `N` bytes.
    fn mac_block<E, const N: usize>(&self, response: &[u8; 33], buf: &mut [u8; N]) -> (r: Result<
        (),
        Error<E>,
    >)
        requires
            N <= 32,
        ensures
            mac_result::<E>(*response, N as nat) matches Ok(data) ==> r is Ok && final(buf)@
                == data,
            mac_result::<E>(*response, N as nat) matches Err(e) ==> r == Err::<(), Error<E>>(e),
    {
        let reported = response[0] as usize;
        if reported > 32 || reported > N {
            return Err(Error::InvalidBlockLength { reported: response[0], capacity: N as u8 });
        }
        if reported != N {
            return Err(Error::UnexpectedBlockLength { expected: N as u8, reported: reported as u8 });
        }
        let mut i: usize = 0;
        while i < N
            invariant
                N <= 32,
                i <= N,
                forall|k: int| 0 <= k < i ==> #[trigger] buf@[k] == response@[1 + k],
            decreases N - i,
        {
            buf[i] = response[1 + i];
            i = i + 1;
        }
        assert(buf@ =~= response@.subrange(1, 1 + N as int));
        Ok(())
    }

    /// Whether the gauge answers: the voltage read (CMD_VOLTAGE) succeeded.
    pub fn is_connected<E>(&self, voltage_read: Result<[u8; 2], E>) -> (r: bool)
        ensures
            r == voltage_read is Ok,
    {
        voltage_read.is_ok()
    }

    /// Temperature in 0.1 °C from a read of CMD_TEMPERATURE (0.1 K).
    pub fn temperature_c(&self, response: [u8; 2]) -> (r: i16)
        ensures
            r == deci_celsius(word_of(response)),
    {
        kelvin_to_celsius(read_word(response))
    }

    /// Serial number, from a read of `CMD_SERIAL`.
    pub fn serial_number(&self, response: [u8; 2]) -> (r: u16)
        ensures
            r == word_of(response),
    {
        read_word(response)
    }

    /// Battery voltage (mV), from a read of `CMD_VOLTAGE`.
    pub fn voltage_mv(&self, response: [u8; 2]) -> (r: u16)
        ensures
            r == word_of(response),
    {
        read_word(response)
    }

    /// Remaining capacity (mAh), from a read of `CMD_REMAINING_CAPACITY`.
    pub fn remaining_capacity_mah(&self, response: [u8; 2]) -> (r: u16)
        ensures
            r == word_of(response),
    {
        read_word(response)
    }

    /// Full charge capacity (mAh), from a read of `CMD_FULL_CHARGE_CAPACITY`.
    pub fn full_charge_capacity_mah(&self, response: [u8; 2]) -> (r: u16)
        ensures
            r == word_of(response),
    {
        read_word(response)
    }

    /// Run time to empty (min), from a read of `CMD_RUNTIME_TO_EMPTY`.
    pub fn runtime_to_empty_min(&self, response: [u8; 2]) -> (r: u16)
        ensures
            r == word_of(response),
    {
        read_word(response)
    }

    /// Average time to empty (min), from a read of `CMD_AVG_TIME_TO_EMPTY`.
    pub fn avg_time_to_empty_min(&self, response: [u8; 2]) -> (r: u16)
        ensures
            r == word_of(response),
    {
        read_word(response)
    }

    /// Average time to full (min), from a read of `CMD_AVG_TIME_TO_FULL`.
    pub fn avg_time_to_full_min(&self, response: [u8; 2]) -> (r: u16)
        ensures
            r == word_of(response),
    {
        read_word(response)
    }

    /// Recommended charging current (mA), from a read of `CMD_CHARGING_CURRENT`.
    pub fn charging_current_ma(&self, response: [u8; 2]) -> (r: u16)
        ensures
            r == word_of(response),
    {
        read_word(response)
    }

    /// Recommended charging voltage (mV), from a read of `CMD_CHARGING_VOLTAGE`.
    pub fn charging_voltage_mv(&self, response: [u8; 2]) -> (r: u16)
        ensures
            r == word_of(response),
    {
        read_word(response)
    }

    /// Battery status flags, from a read of `CMD_BATTERY_STATUS`.
    pub fn battery_status(&self, response: [u8; 2]) -> (r: u16)
        ensures
            r == word_of(response),
    {
        read_word(response)
    }

    /// Cycle count, from a read of `CMD_CYCLE_COUNT`.
    pub fn cycle_count(&self, response: [u8; 2]) -> (r: u16)
        ensures
            r == word_of(response),
    {
        read_word(response)
    }

    /// Design capacity (mAh), from a read of `CMD_DESIGN_CAPACITY`.
    pub fn design_capacity_mah(&self, response: [u8; 2]) -> (r: u16)
        ensures
            r == word_of(response),
    {
        read_word(response)
    }

    /// Battery mode flags, from a read of `CMD_BATTERY_MODE`.
    pub fn battery_mode(&self, response: [u8; 2]) -> (r: u16)
        ensures
            r == word_of(response),
    {
        read_word(response)
    }

    /// Device chemistry as packed ASCII (0x4F4C="LO", 0x504C="LP", 0x464C="LF"), from a read of `CMD_DEVICE_CHEMISTRY`.
    pub fn device_chemistry_u16(&self, response: [u8; 2]) -> (r: u16)
        ensures
            r == word_of(response),
    {
        read_word(response)
    }

    /// Cell 1 voltage (mV), from a read of `CMD_CELL_VOLTAGE_1`.
    pub fn cell_voltage_1_mv(&self, response: [u8; 2]) -> (r: u16)
        ensures
            r == word_of(response),
    {
        read_word(response)
    }

    /// Cell 2 voltage (mV), from a read of `CMD_CELL_VOLTAGE_2`.
    pub fn cell_voltage_2_mv(&self, response: [u8; 2]) -> (r: u16)
        ensures
            r == word_of(response),
    {
        read_word(response)
    }

    /// Cell 3 voltage (mV), from a read of `CMD_CELL_VOLTAGE_3`.
    pub fn cell_voltage_3_mv(&self, response: [u8; 2]) -> (r: u16)
        ensures
            r == word_of(response),
    {
        read_word(response)
    }

    /// Cell 4 voltage (mV), from a read of `CMD_CELL_VOLTAGE_4`.
    pub fn cell_voltage_4_mv(&self, response: [u8; 2]) -> (r: u16)
        ensures
            r == word_of(response),
    {
        read_word(response)
    }

    /// Design voltage (mV), from a read of `CMD_DESIGN_VOLTAGE`.
    pub fn design_voltage_mv(&self, response: [u8; 2]) -> (r: u16)
        ensures
            r == word_of(response),
    {
        read_word(response)
    }

    /// Manufacturer date, encoded as Day + Month*32 + (Year-1980)*256, from a read of `CMD_MANUFACTURER_DATE`.
    pub fn manufacturer_date(&self, response: [u8; 2]) -> (r: u16)
        ensures
            r == word_of(response),
    {
        read_word(response)
    }

    /// AtRateTimeToFull (min); 65535 = not charging, from a read of `CMD_AT_RATE_TIME_TO_FULL`.
    pub fn at_rate_time_to_full_min(&self, response: [u8; 2]) -> (r: u16)
        ensures
            r == word_of(response),
    {
        read_word(response)
    }

    /// AtRateTimeToEmpty (min); 65535 = not discharging, from a read of `CMD_AT_RATE_TIME_TO_EMPTY`.
    pub fn at_rate_time_to_empty_min(&self, response: [u8; 2]) -> (r: u16)
        ensures
            r == word_of(response),
    {
        read_word(response)
    }

    /// Max error (%), from a one-byte read of `CMD_MAX_ERROR`.
    pub fn max_error(&self, response: [u8; 1]) -> (r: u8)
        ensures
            r == response[0],
    {
        response[0]
    }

    /// Relative state of charge (%), from a one-byte read of `CMD_RELATIVE_SOC`.
    pub fn relative_soc(&self, response: [u8; 1]) -> (r: u8)
        ensures
            r == response[0],
    {
        response[0]
    }

    /// Absolute state of charge (%), from a one-byte read of `CMD_ABSOLUTE_SOC`.
    pub fn absolute_soc(&self, response: [u8; 1]) -> (r: u8)
        ensures
            r == response[0],
    {
        response[0]
    }

    /// Current (mA, signed: positive=discharge, negative=charge), from a read of `CMD_CURRENT`.
    pub fn current_ma(&self, response: [u8; 2]) -> (r: i16)
        ensures
            r == signed16(word_of(response)),
    {
        as_signed(read_word(response))
    }

    /// Average current (mA, signed), from a read of `CMD_AVERAGE_CURRENT`.
    pub fn average_current_ma(&self, response: [u8; 2]) -> (r: i16)
        ensures
            r == signed16(word_of(response)),
    {
        as_signed(read_word(response))
    }

    /// All 4 cell voltages (mV), from reads of CMD_CELL_VOLTAGE_1 .. CMD_CELL_VOLTAGE_4.
    pub fn cell_voltages_mv(&self, responses: [[u8; 2]; 4]) -> (r: [u16; 4])
        ensures
            r[0] == word_of(responses[0]),
            r[1] == word_of(responses[1]),
            r[2] == word_of(responses[2]),
            r[3] == word_of(responses[3]),
    {
        [
            self.cell_voltage_1_mv(responses[0]),
            self.cell_voltage_2_mv(responses[1]),
            self.cell_voltage_3_mv(responses[2]),
            self.cell_voltage_4_mv(responses[3]),
        ]
    }

    /// The write that sets AtRate (mA or 10mW depending on BatteryMode[CAPM]).
    pub fn set_at_rate(&self, value: u16) -> (frame: [u8; 3])
        ensures
            is_word_write(frame, CMD_AT_RATE, value),
    {
        word_write(CMD_AT_RATE, value)
    }

    /// The device name from a block read of CMD_DEVICE_NAME, copied into `buf`.
    pub fn device_name<E>(&self, response: &[u8; 33], buf: &mut [u8]) -> (r: Result<usize, Error<E>>)
        ensures
            r == block_result::<E>(*response, old(buf)@.len()),
            final(buf)@.len() == old(buf)@.len(),
            r is Err ==> final(buf)@ == old(buf)@,
            r matches Ok(n) ==> final(buf)@.take(n as int) == response@.subrange(1, 1 + n)
                && final(buf)@.skip(n as int) == old(buf)@.skip(n as int),
    {
        self.read_block(response, buf)
    }

    /// The manufacturer name from a block read of CMD_MANUFACTURER_NAME, copied into `buf`.
    pub fn manufacturer_name<E>(&self, response: &[u8; 33], buf: &mut [u8]) -> (r: Result<
        usize,
        Error<E>,
    >)
        ensures
            r == block_result::<E>(*response, old(buf)@.len()),
            final(buf)@.len() == old(buf)@.len(),
            r is Err ==> final(buf)@ == old(buf)@,
            r matches Ok(n) ==> final(buf)@.take(n as int) == response@.subrange(1, 1 + n)
                && final(buf)@.skip(n as int) == old(buf)@.skip(n as int),
    {
        self.read_block(response, buf)
    }

    /// The write that starts MAC command `subcmd`; read its answer with
    /// [`read_mac_block`](Self::read_mac_block) after the command-response delay.
    pub fn start_mac_command(&self, subcmd: u16) -> (frame: [u8; 3])
        ensures
            is_word_write(frame, CMD_MANUFACTURER_ACCESS, subcmd),
    {
        word_write(CMD_MANUFACTURER_ACCESS, subcmd)
    }

    /// The answer to a started MAC command, from a block read of
    /// CMD_MANUFACTURER_BLOCK_ACCESS, copied into `buf`.
    pub fn read_mac_block<E>(&self, response: &[u8; 33], buf: &mut [u8]) -> (r: Result<
        usize,
        Error<E>,
    >)
        ensures
            r == block_result::<E>(*response, old(buf)@.len()),
            final(buf)@.len() == old(buf)@.len(),
            r is Err ==> final(buf)@ == old(buf)@,
            r matches Ok(n) ==> final(buf)@.take(n as int) == response@.subrange(1, 1 + n)
                && final(buf)@.skip(n as int) == old(buf)@.skip(n as int),
    {
        self.read_block(response, buf)
    }

    /// SafetyAlert flags (latched alarm flags, write-1-to-clear), from the 4-byte answer to MAC `SUBCMD_SAFETY_ALERT`.
    pub fn safety_alert<E>(&self, response: &[u8; 33]) -> (r: Result<SafetyFlags, Error<E>>)
        ensures
            mac_result::<E>(*response, 4) matches Ok(d) ==> r == Ok::<SafetyFlags, Error<E>>(
                SafetyFlags(crate::bytes::le32(d[0], d[1], d[2], d[3]) as u32),
            ),
            mac_result::<E>(*response, 4) matches Err(e) ==> r == Err::<SafetyFlags, Error<E>>(e),
    {
        let mut buf = [0u8; 4];
        match self.mac_block::<E, 4>(response, &mut buf) {
            Err(e) => Err(e),
            Ok(()) => Ok(
                SafetyFlags(crate::bytes::u32_from_le(buf[0], buf[1], buf[2], buf[3])),
            ),
        }
    }

    /// SafetyStatus flags (active safety status), from the 4-byte answer to MAC `SUBCMD_SAFETY_STATUS`.
    pub fn safety_status<E>(&self, response: &[u8; 33]) -> (r: Result<SafetyFlags, Error<E>>)
        ensures
            mac_result::<E>(*response, 4) matches Ok(d) ==> r == Ok::<SafetyFlags, Error<E>>(
                SafetyFlags(crate::bytes::le32(d[0], d[1], d[2], d[3]) as u32),
            ),
            mac_result::<E>(*response, 4) matches Err(e) ==> r == Err::<SafetyFlags, Error<E>>(e),
    {
        let mut buf = [0u8; 4];
        match self.mac_block::<E, 4>(response, &mut buf) {
            Err(e) => Err(e),
            Ok(()) => Ok(
                SafetyFlags(crate::bytes::u32_from_le(buf[0], buf[1], buf[2], buf[3])),
            ),
        }
    }

    /// OperationStatus flags, from the 4-byte answer to MAC `SUBCMD_OPERATION_STATUS`.
    pub fn operation_status<E>(&self, response: &[u8; 33]) -> (r: Result<OperationStatus, Error<E>>)
        ensures
            mac_result::<E>(*response, 4) matches Ok(d) ==> r == Ok::<OperationStatus, Error<E>>(
                OperationStatus(crate::bytes::le32(d[0], d[1], d[2], d[3]) as u32),
            ),
            mac_result::<E>(*response, 4) matches Err(e) ==> r == Err::<OperationStatus, Error<E>>(e),
    {
        let mut buf = [0u8; 4];
        match self.mac_block::<E, 4>(response, &mut buf) {
            Err(e) => Err(e),
            Ok(()) => Ok(
                OperationStatus(crate::bytes::u32_from_le(buf[0], buf[1], buf[2], buf[3])),
            ),
        }
    }

    /// ChargingStatus flags, from the 4-byte answer to MAC `SUBCMD_CHARGING_STATUS`.
    pub fn charging_status<E>(&self, response: &[u8; 33]) -> (r: Result<ChargingStatus, Error<E>>)
        ensures
            mac_result::<E>(*response, 4) matches Ok(d) ==> r == Ok::<ChargingStatus, Error<E>>(
                ChargingStatus(crate::bytes::le32(d[0], d[1], d[2], d[3]) as u32),
            ),
            mac_result::<E>(*response, 4) matches Err(e) ==> r == Err::<ChargingStatus, Error<E>>(e),
    {
        let mut buf = [0u8; 4];
        match self.mac_block::<E, 4>(response, &mut buf) {
            Err(e) => Err(e),
            Ok(()) => Ok(
                ChargingStatus(crate::bytes::u32_from_le(buf[0], buf[1], buf[2], buf[3])),
            ),
        }
    }

    /// GaugingStatus flags, from the 4-byte answer to MAC `SUBCMD_GAUGING_STATUS`.
    pub fn gauging_status<E>(&self, response: &[u8; 33]) -> (r: Result<GaugingStatus, Error<E>>)
        ensures
            mac_result::<E>(*response, 4) matches Ok(d) ==> r == Ok::<GaugingStatus, Error<E>>(
                GaugingStatus(crate::bytes::le32(d[0], d[1], d[2], d[3]) as u32),
            ),
            mac_result::<E>(*response, 4) matches Err(e) ==> r == Err::<GaugingStatus, Error<E>>(e),
    {
        let mut buf = [0u8; 4];
        match self.mac_block::<E, 4>(response, &mut buf) {
            Err(e) => Err(e),
            Ok(()) => Ok(
                GaugingStatus(crate::bytes::u32_from_le(buf[0], buf[1], buf[2], buf[3])),
            ),
        }
    }

    /// DeviceType (IC part number): the first word of the 4-byte answer to MAC `SUBCMD_DEVICE_TYPE`.
    pub fn device_type<E>(&self, response: &[u8; 33]) -> (r: Result<u16, Error<E>>)
        ensures
            mac_result::<E>(*response, 4) matches Ok(d) ==> r == Ok::<u16, Error<E>>(
                le16(d[0], d[1]) as u16,
            ),
            mac_result::<E>(*response, 4) matches Err(e) ==> r == Err::<u16, Error<E>>(e),
    {
        let mut buf = [0u8; 4];
        match self.mac_block::<E, 4>(response, &mut buf) {
            Err(e) => Err(e),
            Ok(()) => Ok(read_word([buf[0], buf[1]])),
        }
    }

    /// HardwareVersion: the first word of the 4-byte answer to MAC `SUBCMD_HARDWARE_VERSION`.
    pub fn hardware_version<E>(&self, response: &[u8; 33]) -> (r: Result<u16, Error<E>>)
        ensures
            mac_result::<E>(*response, 4) matches Ok(d) ==> r == Ok::<u16, Error<E>>(
                le16(d[0], d[1]) as u16,
            ),
            mac_result::<E>(*response, 4) matches Err(e) ==> r == Err::<u16, Error<E>>(e),
    {
        let mut buf = [0u8; 4];
        match self.mac_block::<E, 4>(response, &mut buf) {
            Err(e) => Err(e),
            Ok(()) => Ok(read_word([buf[0], buf[1]])),
        }
    }

    /// ChemicalID (OCV table ID): the first word of the 4-byte answer to MAC `SUBCMD_CHEM_ID`.
    pub fn chem_id<E>(&self, response: &[u8; 33]) -> (r: Result<u16, Error<E>>)
        ensures
            mac_result::<E>(*response, 4) matches Ok(d) ==> r == Ok::<u16, Error<E>>(
                le16(d[0], d[1]) as u16,
            ),
            mac_result::<E>(*response, 4) matches Err(e) ==> r == Err::<u16, Error<E>>(e),
    {
        let mut buf = [0u8; 4];
        match self.mac_block::<E, 4>(response, &mut buf) {
            Err(e) => Err(e),
            Ok(()) => Ok(read_word([buf[0], buf[1]])),
        }
    }

    /// FirmwareVersion: the 4 raw bytes (device number, version, build, type) of the
    /// answer to MAC SUBCMD_FIRMWARE_VERSION.
    pub fn firmware_version<E>(&self, response: &[u8; 33]) -> (r: Result<[u8; 4], Error<E>>)
        ensures
            mac_result::<E>(*response, 4) matches Ok(d) ==> r matches Ok(v) && v@ == d,
            mac_result::<E>(*response, 4) matches Err(e) ==> r == Err::<[u8; 4], Error<E>>(e),
    {
        let mut buf = [0u8; 4];
        match self.mac_block::<E, 4>(response, &mut buf) {
            Err(e) => Err(e),
            Ok(()) => Ok([buf[0], buf[1], buf[2], buf[3]]),
        }
    }

    /// StateOfHealth (SOH FCC and energy) from the 4-byte answer to MAC SUBCMD_STATE_OF_HEALTH.
    pub fn state_of_health<E>(&self, response: &[u8; 33]) -> (r: Result<StateOfHealth, Error<E>>)
        ensures
            mac_result::<E>(*response, 4) matches Ok(d) ==> r == Ok::<StateOfHealth, Error<E>>(
                StateOfHealth {
                    fcc_mah: le16(d[0], d[1]) as u16,
                    energy_cwh: le16(d[2], d[3]) as u16,
                },
            ),
            mac_result::<E>(*response, 4) matches Err(e) ==> r == Err::<StateOfHealth, Error<E>>(e),
    {
        let mut buf = [0u8; 4];
        match self.mac_block::<E, 4>(response, &mut buf) {
            Err(e) => Err(e),
            Ok(()) => Ok(
                StateOfHealth {
                    fcc_mah: read_word([buf[0], buf[1]]),
                    energy_cwh: read_word([buf[2], buf[3]]),
                },
            ),
        }
    }

    /// DAStatus2 temperatures from the 14-byte answer to MAC SUBCMD_DA_STATUS2: internal,
    /// TS1..TS4, cell and FET temperature, each a word in 0.1 K stored as whole
    /// degrees Celsius, (raw - 2732) / 10.
    pub fn da_status_2<E>(&self, response: &[u8; 33]) -> (r: Result<TempDetail, Error<E>>)
        ensures
            mac_result::<E>(*response, 14) matches Ok(d) ==> r == Ok::<TempDetail, Error<E>>(
                TempDetail {
                    int_temp: whole_celsius(le16(d[0], d[1]) as u16),
                    ts1_temp: whole_celsius(le16(d[2], d[3]) as u16),
                    ts2_temp: whole_celsius(le16(d[4], d[5]) as u16),
                    ts3_temp: whole_celsius(le16(d[6], d[7]) as u16),
                    ts4_temp: whole_celsius(le16(d[8], d[9]) as u16),
                    cell_temp: whole_celsius(le16(d[10], d[11]) as u16),
                    fet_temp: whole_celsius(le16(d[12], d[13]) as u16),
                },
            ),
            mac_result::<E>(*response, 14) matches Err(e) ==> r == Err::<TempDetail, Error<E>>(e),
    {
        let mut buf = [0u8; 14];
        match self.mac_block::<E, 14>(response, &mut buf) {
            Err(e) => Err(e),
            Ok(()) => Ok(
                TempDetail {
                    int_temp: kelvin_to_whole_celsius(read_word([buf[0], buf[1]])),
                    ts1_temp: kelvin_to_whole_celsius(read_word([buf[2], buf[3]])),
                    ts2_temp: kelvin_to_whole_celsius(read_word([buf[4], buf[5]])),
                    ts3_temp: kelvin_to_whole_celsius(read_word([buf[6], buf[7]])),
                    ts4_temp: kelvin_to_whole_celsius(read_word([buf[8], buf[9]])),
                    cell_temp: kelvin_to_whole_celsius(read_word([buf[10], buf[11]])),
                    fet_temp: kelvin_to_whole_celsius(read_word([buf[12], buf[13]])),
                },
            ),
        }
    }

    /// The write that does this: Reset the device (MAC DeviceReset 0x0041). This resets the gauge.
    pub fn device_reset(&self) -> (frame: [u8; 3])
        ensures
            is_word_write(frame, CMD_MANUFACTURER_ACCESS, SUBCMD_DEVICE_RESET),
    {
        word_write(CMD_MANUFACTURER_ACCESS, SUBCMD_DEVICE_RESET)
    }

    /// The write that does this: Toggle gauging (MAC 0x0021); check `gauging_status().it_enabled()` afterwards.
    pub fn toggle_gauging(&self) -> (frame: [u8; 3])
        ensures
            is_word_write(frame, CMD_MANUFACTURER_ACCESS, SUBCMD_GAUGING),
    {
        word_write(CMD_MANUFACTURER_ACCESS, SUBCMD_GAUGING)
    }

    /// The write that does this: Toggle firmware FET control (MAC 0x0022); check `operation_status()` afterwards.
    pub fn toggle_fet_control(&self) -> (frame: [u8; 3])
        ensures
            is_word_write(frame, CMD_MANUFACTURER_ACCESS, SUBCMD_FET_CONTROL),
    {
        word_write(CMD_MANUFACTURER_ACCESS, SUBCMD_FET_CONTROL)
    }

}

} // verus!

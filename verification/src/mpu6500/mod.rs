//! MPU6500 6-axis IMU: the register values of its configuration, interrupt,
//! power, FIFO and offset settings, and the decoding of its raw outputs.
//!
//! The SPI device stays with the caller. A register write is one SPI write of
//! `[address & 0x7F, value]`; the functions here return it as the pair
//! `(address & 0x7F, value)`. A read writes `address | 0x80` and then reads the
//! bytes; the functions here take the bytes read.
pub mod registers;
pub mod config;
pub mod types;

use vstd::prelude::*;
use crate::bytes::{as_signed, be16, signed16, u16_from_be};
use config::{ClockSource, DlpfConfig, FifoMode, GyroRange, AccelRange, IntDriveMode, IntLatch, IntLevel};
use types::{Axis, Error, IntStatus};
use registers::{
    ACCEL_CONFIG, ACCEL_INTEL_CTRL, CONFIG, FIFO_EN, GYRO_CONFIG, INT_ENABLE, INT_PIN_CFG,
    LP_ACCEL_ODR, PWR_MGMT_1, PWR_MGMT_2, SIGNAL_PATH_RESET, SMPLRT_DIV, USER_CTRL, WOM_THR,
    XA_OFFSET_H, XA_OFFSET_L, XG_OFFSET_H, XG_OFFSET_L, YA_OFFSET_H, YA_OFFSET_L, YG_OFFSET_H,
    YG_OFFSET_L, ZA_OFFSET_H, ZA_OFFSET_L, ZG_OFFSET_H, ZG_OFFSET_L,
};

verus! {

/// Value of WHO_AM_I on an MPU6500.
pub const MPU6500_WHO_AM_I: u8 = 0x70;

/// The SPI write of `value` to register `reg`: the address with bit 7 clear.
pub open spec fn write_of(reg: u8, value: u8) -> (u8, u8) {
    (reg & 0x7F, value)
}

/// The SPI command byte that starts a read of register `reg`: bit 7 set.
pub open spec fn read_command_of(reg: u8) -> u8 {
    reg | 0x80
}

/// `v` with the bits of `b` set when `on`, cleared otherwise.
pub open spec fn set_bits(v: u8, b: u8, on: bool) -> u8 {
    if on {
        v | b
    } else {
        v & !b
    }
}

/// The byte whose bit `k` is set exactly when `flags[k]` holds (at most eight flags).
pub open spec fn flag_byte(flags: Seq<bool>) -> u8
    decreases flags.len(),
{
    if flags.len() == 0 {
        0
    } else {
        let rest = flag_byte(flags.drop_last());
        if flags.last() {
            rest | (1u8 << ((flags.len() - 1) as u8))
        } else {
            rest
        }
    }
}

/// One step of a register sequence: a write, or a wait.
#[derive(Debug, Clone, Copy, PartialEq, Eq, Structural)]
pub enum Step {
    /// Write `(address, value)`.
    Write(u8, u8),
    /// Wait this many milliseconds.
    DelayMs(u32),
}

/// The steps of the full initialisation: device reset, 100 ms, signal-path reset,
/// 100 ms, clock from the X gyro PLL, 1 kHz sample rate, 250 Hz DLPF with FIFO
/// overwrite, ±250 °/s and ±2 g.
pub open spec fn init_steps() -> Seq<Step> {
    seq![
        Step::Write(PWR_MGMT_1, 0x80),
        Step::DelayMs(100),
        Step::Write(SIGNAL_PATH_RESET, 0x07),
        Step::DelayMs(100),
        Step::Write(PWR_MGMT_1, 0x01),
        Step::Write(SMPLRT_DIV, 0x00),
        Step::Write(CONFIG, 0x00),
        Step::Write(GYRO_CONFIG, 0x00),
        Step::Write(ACCEL_CONFIG, 0x00),
    ]
}

/// The registers of `axis`'s gyro offset (high, low).
pub open spec fn gyro_offset_regs(axis: Axis) -> (u8, u8) {
    match axis {
        Axis::X => (XG_OFFSET_H, XG_OFFSET_L),
        Axis::Y => (YG_OFFSET_H, YG_OFFSET_L),
        Axis::Z => (ZG_OFFSET_H, ZG_OFFSET_L),
    }
}

/// The registers of `axis`'s accelerometer offset (high, low).
pub open spec fn accel_offset_regs(axis: Axis) -> (u8, u8) {
    match axis {
        Axis::X => (XA_OFFSET_H, XA_OFFSET_L),
        Axis::Y => (YA_OFFSET_H, YA_OFFSET_L),
        Axis::Z => (ZA_OFFSET_H, ZA_OFFSET_L),
    }
}

/// Whether an accelerometer offset fits the signed 15-bit register field.
pub open spec fn accel_offset_fits(offset: i16) -> bool {
    -16384 <= offset <= 16383
}

/// The 16-bit two's-complement pattern of `offset`.
pub open spec fn offset_bits(offset: i16) -> u16 {
    if offset >= 0 {
        offset as u16
    } else {
        (offset + 65536) as u16
    }
}

/// The two's-complement pattern of `offset` as a signed 15-bit value in bits
/// 15:1 (bit 0 reserved, zero).
pub open spec fn accel_offset_word(offset: i16) -> u16 {
    ((offset_bits(offset) * 2) % 65536) as u16
}

/// A big-endian signed 16-bit sample.
pub open spec fn sample(hi: u8, lo: u8) -> i16 {
    signed16(be16(hi, lo) as u16)
}

/// A gyro offset reads back from its two registers as written: the high and low
/// bytes form the 16-bit two's-complement offset.
pub proof fn lemma_gyro_offset_roundtrip(offset: i16)
    ensures
        sample((offset_bits(offset) / 256) as u8, (offset_bits(offset) % 256) as u8) == offset,
{
}

/// An accelerometer offset that fits reads back from its two registers as twice
/// the offset (the 15-bit value sits in bits 15:1), so halving gives it back.
pub proof fn lemma_accel_offset_roundtrip(offset: i16)
    requires
        accel_offset_fits(offset),
    ensures
        sample(
            (accel_offset_word(offset) / 256) as u8,
            ((accel_offset_word(offset) % 256) as u8) & 0xFE,
        ) == 2 * offset,
{
    let w = accel_offset_word(offset);
    let lo = (w % 256) as u8;
    assert(w % 2 == 0);
    assert(lo % 2 == 0);
    assert(lo & 0xFE == lo) by (bit_vector)
        requires
            lo % 2 == 0,
    ;
}

/// MPU6500 driver state: the full-scale ranges the sensor was set to, which fix
/// how its raw outputs scale.
pub struct Mpu6500 {
    gyro_range: GyroRange,
    accel_range: AccelRange,
}

impl Mpu6500 {
    /// The gyroscope range last set.
    pub closed spec fn gyro(&self) -> GyroRange {
        self.gyro_range
    }

    /// The accelerometer range last set.
    pub closed spec fn accel(&self) -> AccelRange {
        self.accel_range
    }

    /// Creates a driver for a sensor at its power-on ranges (±250 °/s, ±2 g).
    ///
    /// The sensor is not initialized by this call: perform the steps of
    /// [`Mpu6500::init`] for the full reset and configuration sequence.
    pub fn new() -> (r: Self)
        ensures
            r.gyro() == GyroRange::Dps250,
            r.accel() == AccelRange::G2,
    {
        Self { gyro_range: GyroRange::Dps250, accel_range: AccelRange::G2 }
    }

    /// The gyroscope range the driver scales by.
    pub fn gyro_range(&self) -> (r: GyroRange)
        ensures
            r == self.gyro(),
    {
        self.gyro_range
    }

    /// The accelerometer range the driver scales by.
    pub fn accel_range(&self) -> (r: AccelRange)
        ensures
            r == self.accel(),
    {
        self.accel_range
    }

    /// The SPI write of `value` to `reg`.
    pub fn write_command(reg: u8, value: u8) -> (r: (u8, u8))
        ensures
            r == write_of(reg, value),
    {
        (reg & 0x7F, value)
    }

    /// The command byte that starts a read of `reg`.
    pub fn read_command(reg: u8) -> (r: u8)
        ensures
            r == read_command_of(reg),
    {
        reg | 0x80
    }

    /// The datasheet's SPI initialisation sequence; afterwards read WHO_AM_I and
    /// check it with [`Mpu6500::check_identity`].
    pub fn init(&self) -> (r: Vec<Step>)
        ensures
            r@ == init_steps(),
    {
        let mut steps: Vec<Step> = Vec::new();
        steps.push(Step::Write(PWR_MGMT_1, 0x80));
        steps.push(Step::DelayMs(100));
        steps.push(Step::Write(SIGNAL_PATH_RESET, 0x07));
        steps.push(Step::DelayMs(100));
        steps.push(Step::Write(PWR_MGMT_1, ClockSource::PllWithXGyro.bits()));
        steps.push(Step::Write(SMPLRT_DIV, 0x00));
        steps.push(Step::Write(CONFIG, DlpfConfig::Dlpf250.bits()));
        steps.push(Step::Write(GYRO_CONFIG, GyroRange::Dps250.bits()));
        steps.push(Step::Write(ACCEL_CONFIG, AccelRange::G2.bits()));
        assert(steps@ =~= init_steps());
        steps
    }

    /// The result of initialisation given the WHO_AM_I read that ends it.
    pub fn check_identity<E>(found: u8) -> (r: Result<(), Error<E>>)
        ensures
            r is Ok <==> found == MPU6500_WHO_AM_I,
            r matches Err(e) ==> e == Error::<E>::InvalidDeviceId(found),
    {
        if found != MPU6500_WHO_AM_I {
            return Err(Error::InvalidDeviceId(found));
        }
        Ok(())
    }

    /// A minimal reset without delays: device reset, signal-path reset, clock from
    /// the X gyro PLL. Only suitable if enough time passes before the next
    /// transaction.
    pub fn reset_no_delay(&self) -> (r: Vec<(u8, u8)>)
        ensures
            r@ == seq![
                write_of(PWR_MGMT_1, 0x80),
                write_of(SIGNAL_PATH_RESET, 0x07),
                write_of(PWR_MGMT_1, 0x01),
            ],
    {
        let mut writes: Vec<(u8, u8)> = Vec::new();
        writes.push(Self::write_command(PWR_MGMT_1, 0x80));
        writes.push(Self::write_command(SIGNAL_PATH_RESET, 0x07));
        writes.push(Self::write_command(PWR_MGMT_1, ClockSource::PllWithXGyro.bits()));
        assert(writes@ =~= seq![
            write_of(PWR_MGMT_1, 0x80),
            write_of(SIGNAL_PATH_RESET, 0x07),
            write_of(PWR_MGMT_1, 0x01),
        ]);
        writes
    }

    /// Whether a WHO_AM_I read identifies an MPU6500.
    pub fn verify_id(&self, who_am_i: u8) -> (r: bool)
        ensures
            r == (who_am_i == MPU6500_WHO_AM_I),
    {
        who_am_i == MPU6500_WHO_AM_I
    }

    /// The write that sets the gyroscope range; the driver scales by it from now on.
    pub fn set_gyro_range(&mut self, range: GyroRange) -> (r: (u8, u8))
        ensures
            r == write_of(GYRO_CONFIG, range.code()),
            final(self).gyro() == range,
            final(self).accel() == old(self).accel(),
    {
        self.gyro_range = range;
        Self::write_command(GYRO_CONFIG, range.bits())
    }

    /// The write that sets the accelerometer range; the driver scales by it from now on.
    pub fn set_accel_range(&mut self, range: AccelRange) -> (r: (u8, u8))
        ensures
            r == write_of(ACCEL_CONFIG, range.code()),
            final(self).accel() == range,
            final(self).gyro() == old(self).gyro(),
    {
        self.accel_range = range;
        Self::write_command(ACCEL_CONFIG, range.bits())
    }

    /// The write that sets the sample-rate divider: 1 kHz / (1 + div) with DLPF on.
    pub fn set_sample_rate_div(&self, div: u8) -> (r: (u8, u8))
        ensures
            r == write_of(SMPLRT_DIV, div),
    {
        Self::write_command(SMPLRT_DIV, div)
    }

    /// The write that sets the gyro/temperature DLPF (CONFIG[2:0]), keeping the
    /// other bits of `config`, a read of CONFIG.
    pub fn set_dlpf(&self, config: u8, dlpf: DlpfConfig) -> (r: (u8, u8))
        ensures
            r == write_of(CONFIG, (config & 0xF8) | (dlpf.code() & 0x07)),
    {
        Self::write_command(CONFIG, (config & 0xF8) | (dlpf.bits() & 0x07))
    }

    /// The write that sets the FIFO mode (CONFIG[6]), keeping the other bits of
    /// `config`, a read of CONFIG.
    pub fn set_fifo_mode(&self, config: u8, mode: FifoMode) -> (r: (u8, u8))
        ensures
            r == write_of(CONFIG, (config & 0xBF) | (mode.code() << 6u8)),
    {
        Self::write_command(CONFIG, (config & 0xBF) | (mode.bits() << 6u8))
    }

    /// The byte whose bit `k` is `flags[k]`.
    fn flag_byte(flags: &[bool]) -> (r: u8)
        requires
            flags@.len() <= 8,
        ensures
            r == flag_byte(flags@),
    {
        let mut val: u8 = 0;
        let mut i: usize = 0;
        while i < flags.len()
            invariant
                i <= flags@.len() <= 8,
                val == flag_byte(flags@.subrange(0, i as int)),
            decreases flags@.len() - i,
        {
            assert(flags@.subrange(0, i + 1).drop_last() =~= flags@.subrange(0, i as int));
            if flags[i] {
                val = val | (1u8 << (i as u8));
            }
            i = i + 1;
        }
        assert(flags@.subrange(0, i as int) =~= flags@);
        val
    }

    /// The write that configures the INT pin: bit 7 active low, bit 6 open drain,
    /// bit 5 latched, bit 4 cleared by any read.
    pub fn configure_int_pin(
        &self,
        level: IntLevel,
        drive: IntDriveMode,
        latch: IntLatch,
        clear_on_any_read: bool,
    ) -> (r: (u8, u8))
        ensures
            r == write_of(
                INT_PIN_CFG,
                flag_byte(
                    seq![false, false, false, false, clear_on_any_read, latch == IntLatch::Latched, drive
                    == IntDriveMode::OpenDrain, level == IntLevel::ActiveLow],
                ),
            ),
    {
        let flags = [
            false,
            false,
            false,
            false,
            clear_on_any_read,
            latch == IntLatch::Latched,
            drive == IntDriveMode::OpenDrain,
            level == IntLevel::ActiveLow,
        ];
        assert(flags@ =~= seq![false, false, false, false, clear_on_any_read, latch == IntLatch::Latched, drive
                    == IntDriveMode::OpenDrain, level == IntLevel::ActiveLow]);
        Self::write_command(INT_PIN_CFG, Self::flag_byte(&flags))
    }

    /// `v` with the bits of `b` set when `on`, cleared otherwise.
    fn set_bits(v: u8, b: u8, on: bool) -> (r: u8)
        ensures
            r == set_bits(v, b, on),
    {
        if on {
            v | b
        } else {
            v & !b
        }
    }

    /// The write that turns I2C bypass (INT_PIN_CFG[1]) on or off, keeping the other
    /// bits of `int_pin_cfg`, a read of INT_PIN_CFG.
    pub fn set_i2c_bypass(&self, int_pin_cfg: u8, enable: bool) -> (r: (u8, u8))
        ensures
            r == write_of(INT_PIN_CFG, set_bits(int_pin_cfg, 1u8 << 1u8, enable)),
    {
        Self::write_command(INT_PIN_CFG, Self::set_bits(int_pin_cfg, 1u8 << 1u8, enable))
    }

    /// The write that enables interrupts: bit 0 raw data ready, bit 3 FSYNC, bit 4
    /// FIFO overflow, bit 6 wake-on-motion.
    pub fn configure_interrupts(&self, raw_rdy: bool, fifo_overflow: bool, fsync: bool, wom: bool) -> (r: (
        u8,
        u8,
    ))
        ensures
            r == write_of(
                INT_ENABLE,
                flag_byte(seq![raw_rdy, false, false, fsync, fifo_overflow, false, wom]),
            ),
    {
        let flags = [raw_rdy, false, false, fsync, fifo_overflow, false, wom];
        assert(flags@ =~= seq![raw_rdy, false, false, fsync, fifo_overflow, false, wom]);
        Self::write_command(INT_ENABLE, Self::flag_byte(&flags))
    }

    /// Interrupt status from a read of INT_STATUS (the read clears it).
    pub fn read_int_status(&self, status: u8) -> (r: IntStatus)
        ensures
            r == (IntStatus {
                raw_data_rdy: status & 0x01 != 0,
                dmp: status & 0x02 != 0,
                fsync: status & 0x08 != 0,
                fifo_overflow: status & 0x10 != 0,
                wom: status & 0x40 != 0,
            }),
    {
        IntStatus {
            raw_data_rdy: status & 0x01 != 0,
            dmp: status & 0x02 != 0,
            fsync: status & 0x08 != 0,
            fifo_overflow: status & 0x10 != 0,
            wom: status & 0x40 != 0,
        }
    }

    /// Whether a read of INT_STATUS reports raw data ready.
    pub fn wait_data_ready(&self, status: u8) -> (r: bool)
        ensures
            r == (status & 0x01 != 0),
    {
        status & 0x01 != 0
    }

    /// The write that enters sleep mode (PWR_MGMT_1[6]), given a read of PWR_MGMT_1.
    pub fn sleep(&self, pwr_mgmt_1: u8) -> (r: (u8, u8))
        ensures
            r == write_of(PWR_MGMT_1, pwr_mgmt_1 | (1u8 << 6u8)),
    {
        Self::write_command(PWR_MGMT_1, pwr_mgmt_1 | (1u8 << 6u8))
    }

    /// The write that leaves sleep mode, given a read of PWR_MGMT_1.
    pub fn wakeup(&self, pwr_mgmt_1: u8) -> (r: (u8, u8))
        ensures
            r == write_of(PWR_MGMT_1, pwr_mgmt_1 & !(1u8 << 6u8)),
    {
        Self::write_command(PWR_MGMT_1, pwr_mgmt_1 & !(1u8 << 6u8))
    }

    /// The write that turns cycle mode (PWR_MGMT_1[5]) on or off, given a read of
    /// PWR_MGMT_1.
    pub fn set_cycle_mode(&self, pwr_mgmt_1: u8, enable: bool) -> (r: (u8, u8))
        ensures
            r == write_of(PWR_MGMT_1, set_bits(pwr_mgmt_1, 1u8 << 5u8, enable)),
    {
        Self::write_command(PWR_MGMT_1, Self::set_bits(pwr_mgmt_1, 1u8 << 5u8, enable))
    }

    /// The write that enables or disables the temperature sensor (PWR_MGMT_1[3] is
    /// its disable bit), given a read of PWR_MGMT_1.
    pub fn set_temp_enabled(&self, pwr_mgmt_1: u8, enable: bool) -> (r: (u8, u8))
        ensures
            r == write_of(PWR_MGMT_1, set_bits(pwr_mgmt_1, 1u8 << 3u8, !enable)),
    {
        Self::write_command(PWR_MGMT_1, Self::set_bits(pwr_mgmt_1, 1u8 << 3u8, !enable))
    }

    /// The write that sets the clock source (PWR_MGMT_1[2:0]), given a read of
    /// PWR_MGMT_1.
    pub fn set_clock_source(&self, pwr_mgmt_1: u8, clk: ClockSource) -> (r: (u8, u8))
        ensures
            r == write_of(PWR_MGMT_1, (pwr_mgmt_1 & 0xF8) | (clk.code() & 0x07)),
    {
        Self::write_command(PWR_MGMT_1, (pwr_mgmt_1 & 0xF8) | (clk.bits() & 0x07))
    }

    /// The write of PWR_MGMT_2 that puts every disabled axis in standby: bits 5..3
    /// accel X/Y/Z, bits 2..0 gyro X/Y/Z, set when the axis is off.
    pub fn set_sensor_enable(
        &self,
        accel_x: bool,
        accel_y: bool,
        accel_z: bool,
        gyro_x: bool,
        gyro_y: bool,
        gyro_z: bool,
    ) -> (r: (u8, u8))
        ensures
            r == write_of(
                PWR_MGMT_2,
                flag_byte(seq![!gyro_z, !gyro_y, !gyro_x, !accel_z, !accel_y, !accel_x]),
            ),
    {
        let flags = [!gyro_z, !gyro_y, !gyro_x, !accel_z, !accel_y, !accel_x];
        assert(flags@ =~= seq![!gyro_z, !gyro_y, !gyro_x, !accel_z, !accel_y, !accel_x]);
        Self::write_command(PWR_MGMT_2, Self::flag_byte(&flags))
    }

    /// The write that sets the low-power accelerometer wake-up rate (four bits).
    pub fn set_lp_accel_odr(&self, lposc_clksel: u8) -> (r: (u8, u8))
        ensures
            r == write_of(LP_ACCEL_ODR, lposc_clksel & 0x0F),
    {
        Self::write_command(LP_ACCEL_ODR, lposc_clksel & 0x0F)
    }

    /// The write that sets the wake-on-motion threshold (4 mg/LSB, 0–1020 mg).
    pub fn set_wom_threshold(&self, threshold_mg: u8) -> (r: (u8, u8))
        ensures
            r == write_of(WOM_THR, threshold_mg / 4),
    {
        Self::write_command(WOM_THR, threshold_mg / 4)
    }

    /// The write that turns wake-on-motion detection (ACCEL_INTEL_CTRL[7]) on or
    /// off, given a read of ACCEL_INTEL_CTRL.
    pub fn set_wom_enabled(&self, accel_intel_ctrl: u8, enable: bool) -> (r: (u8, u8))
        ensures
            r == write_of(ACCEL_INTEL_CTRL, set_bits(accel_intel_ctrl, 1u8 << 7u8, enable)),
    {
        Self::write_command(ACCEL_INTEL_CTRL, Self::set_bits(accel_intel_ctrl, 1u8 << 7u8, enable))
    }

    /// The write that turns the FIFO (USER_CTRL[6]) on or off, given a read of
    /// USER_CTRL.
    pub fn set_fifo_enabled(&self, user_ctrl: u8, enable: bool) -> (r: (u8, u8))
        ensures
            r == write_of(USER_CTRL, set_bits(user_ctrl, 1u8 << 6u8, enable)),
    {
        Self::write_command(USER_CTRL, Self::set_bits(user_ctrl, 1u8 << 6u8, enable))
    }

    /// The write that resets the FIFO (USER_CTRL[2]), given a read of USER_CTRL.
    pub fn reset_fifo(&self, user_ctrl: u8) -> (r: (u8, u8))
        ensures
            r == write_of(USER_CTRL, user_ctrl | (1u8 << 2u8)),
    {
        Self::write_command(USER_CTRL, user_ctrl | (1u8 << 2u8))
    }

    /// The write of FIFO_EN: bit 7 temperature, bits 6..4 gyro X/Y/Z, bit 3 accel.
    pub fn set_fifo_enable(&self, temp: bool, gyro_x: bool, gyro_y: bool, gyro_z: bool, accel: bool) -> (r: (
        u8,
        u8,
    ))
        ensures
            r == write_of(
                FIFO_EN,
                flag_byte(seq![false, false, false, accel, gyro_z, gyro_y, gyro_x, temp]),
            ),
    {
        let flags = [false, false, false, accel, gyro_z, gyro_y, gyro_x, temp];
        assert(flags@ =~= seq![false, false, false, accel, gyro_z, gyro_y, gyro_x, temp]);
        Self::write_command(FIFO_EN, Self::flag_byte(&flags))
    }

    /// Number of bytes in the FIFO, from the two-byte read at FIFO_COUNT_H.
    pub fn fifo_count(&self, response: [u8; 2]) -> (r: u16)
        ensures
            r == be16(response[0], response[1]),
    {
        u16_from_be(response[0], response[1])
    }

    /// How many bytes a FIFO read into a buffer of `capacity` bytes takes, given
    /// the FIFO count: all of them, or as many as fit. Nothing is read when zero.
    pub fn fifo_read_len(&self, count: u16, capacity: usize) -> (r: usize)
        ensures
            r == if (count as int) < capacity as int { count as int } else { capacity as int },
    {
        if (count as usize) < capacity {
            count as usize
        } else {
            capacity
        }
    }

    /// The write that resets the gyro, accel and temperature signal paths.
    pub fn reset_signal_paths(&self) -> (r: (u8, u8))
        ensures
            r == write_of(SIGNAL_PATH_RESET, 0x07),
    {
        Self::write_command(SIGNAL_PATH_RESET, 0x07)
    }

    /// The write that resets all signal paths and clears the sensor registers
    /// (USER_CTRL[0]), given a read of USER_CTRL.
    pub fn reset_signal_conditioning(&self, user_ctrl: u8) -> (r: (u8, u8))
        ensures
            r == write_of(USER_CTRL, user_ctrl | 1),
    {
        Self::write_command(USER_CTRL, user_ctrl | 1)
    }

    /// The 16-bit two's-complement pattern of `offset`.
    fn offset_bits(offset: i16) -> (r: u16)
        ensures
            r == offset_bits(offset),
    {
        if offset >= 0 {
            offset as u16
        } else {
            (offset as i32 + 65536) as u16
        }
    }

    /// The writes that set `axis`'s gyro offset: the 16-bit two's-complement value,
    /// high byte then low byte.
    pub fn set_gyro_offset(&self, axis: Axis, offset: i16) -> (r: Vec<(u8, u8)>)
        ensures
            r@ == seq![
                write_of(gyro_offset_regs(axis).0, (offset_bits(offset) / 256) as u8),
                write_of(gyro_offset_regs(axis).1, (offset_bits(offset) % 256) as u8),
            ],
    {
        let (h_reg, l_reg) = match axis {
            Axis::X => (XG_OFFSET_H, XG_OFFSET_L),
            Axis::Y => (YG_OFFSET_H, YG_OFFSET_L),
            Axis::Z => (ZG_OFFSET_H, ZG_OFFSET_L),
        };
        let bits = Self::offset_bits(offset);
        let mut writes: Vec<(u8, u8)> = Vec::new();
        writes.push(Self::write_command(h_reg, (bits / 256) as u8));
        writes.push(Self::write_command(l_reg, (bits % 256) as u8));
        assert(writes@ =~= seq![
            write_of(gyro_offset_regs(axis).0, (offset_bits(offset) / 256) as u8),
            write_of(gyro_offset_regs(axis).1, (offset_bits(offset) % 256) as u8),
        ]);
        writes
    }

    /// The writes that set `axis`'s accelerometer offset: a signed 15-bit value
    /// (0.98 mg/LSB) in bits 15:1, high byte then low byte with bit 0 clear.
    /// Offsets outside -16384..=16383 are refused.
    pub fn set_accel_offset<E>(&self, axis: Axis, offset: i16) -> (r: Result<Vec<(u8, u8)>, Error<E>>)
        ensures
            r is Ok <==> accel_offset_fits(offset),
            r matches Err(e) ==> e == Error::<E>::InvalidAccelOffset(offset),
            r matches Ok(w) ==> w@ == seq![
                write_of(accel_offset_regs(axis).0, (accel_offset_word(offset) / 256) as u8),
                write_of(accel_offset_regs(axis).1, ((accel_offset_word(offset) % 256) as u8) & 0xFE),
            ],
    {
        if !(-16384 <= offset && offset <= 16383) {
            return Err(Error::InvalidAccelOffset(offset));
        }
        let (h_reg, l_reg) = match axis {
            Axis::X => (XA_OFFSET_H, XA_OFFSET_L),
            Axis::Y => (YA_OFFSET_H, YA_OFFSET_L),
            Axis::Z => (ZA_OFFSET_H, ZA_OFFSET_L),
        };
        let shifted: u16 = ((Self::offset_bits(offset) as u32 * 2) % 65536) as u16;
        let mut writes: Vec<(u8, u8)> = Vec::new();
        writes.push(Self::write_command(h_reg, (shifted / 256) as u8));
        writes.push(Self::write_command(l_reg, ((shifted % 256) as u8) & 0xFE));
        assert(writes@ =~= seq![
            write_of(accel_offset_regs(axis).0, (accel_offset_word(offset) / 256) as u8),
            write_of(accel_offset_regs(axis).1, ((accel_offset_word(offset) % 256) as u8) & 0xFE),
        ]);
        Ok(writes)
    }

    /// A big-endian signed sample.
    fn sample(hi: u8, lo: u8) -> (r: i16)
        ensures
            r == sample(hi, lo),
    {
        as_signed(u16_from_be(hi, lo))
    }

    /// Raw accelerometer X/Y/Z from the six bytes read at ACCEL_XOUT_H.
    pub fn read_accel_raw(&self, bytes: [u8; 6]) -> (r: [i16; 3])
        ensures
            r@ == seq![sample(bytes[0], bytes[1]), sample(bytes[2], bytes[3]), sample(bytes[4], bytes[5])],
    {
        let r = [
            Self::sample(bytes[0], bytes[1]),
            Self::sample(bytes[2], bytes[3]),
            Self::sample(bytes[4], bytes[5]),
        ];
        assert(r@ =~= seq![sample(bytes[0], bytes[1]), sample(bytes[2], bytes[3]), sample(bytes[4], bytes[5])]);
        r
    }

    /// Raw gyroscope X/Y/Z from the six bytes read at GYRO_XOUT_H.
    pub fn read_gyro_raw(&self, bytes: [u8; 6]) -> (r: [i16; 3])
        ensures
            r@ == seq![sample(bytes[0], bytes[1]), sample(bytes[2], bytes[3]), sample(bytes[4], bytes[5])],
    {
        self.read_accel_raw(bytes)
    }

    /// Raw temperature from the two bytes read at TEMP_OUT_H.
    pub fn read_temp_raw(&self, bytes: [u8; 2]) -> (r: i16)
        ensures
            r == sample(bytes[0], bytes[1]),
    {
        Self::sample(bytes[0], bytes[1])
    }
}

} // verus!

//! Telemetry helpers: error counters, the battery indicator colour and the
//! startup melody.
use vstd::prelude::*;

verus! {

/// Error counters reported in the system information.
///
/// Each counter wraps around at `usize::MAX`, as an atomic `fetch_add` does.
#[derive(Debug, Clone, Copy, PartialEq, Eq, Structural)]
pub struct ErrorStats {
    pub i2c_errors: usize,
    pub spi_errors: usize,
    pub charge_errors: usize,
}

/// `n` plus one, wrapping to zero after `usize::MAX`.
pub open spec fn wrapping_inc(n: usize) -> usize {
    if n == usize::MAX {
        0
    } else {
        (n + 1) as usize
    }
}

impl ErrorStats {
    /// All counters at zero.
    pub fn new() -> (r: Self)
        ensures
            r == (ErrorStats { i2c_errors: 0, spi_errors: 0, charge_errors: 0 }),
    {
        Self { i2c_errors: 0, spi_errors: 0, charge_errors: 0 }
    }

    /// Count one I2C error.
    pub fn inc_i2c(&mut self)
        ensures
            *final(self) == (ErrorStats { i2c_errors: wrapping_inc(old(self).i2c_errors), ..*old(self) }),
    {
        self.i2c_errors = self.i2c_errors.wrapping_add(1);
    }

    /// Count one SPI error.
    pub fn inc_spi(&mut self)
        ensures
            *final(self) == (ErrorStats { spi_errors: wrapping_inc(old(self).spi_errors), ..*old(self) }),
    {
        self.spi_errors = self.spi_errors.wrapping_add(1);
    }

    /// Count one charge-control error.
    pub fn inc_charge(&mut self)
        ensures
            *final(self) == (ErrorStats {
                charge_errors: wrapping_inc(old(self).charge_errors),
                ..*old(self)
            }),
    {
        self.charge_errors = self.charge_errors.wrapping_add(1);
    }
}

/// The colours the status LEDs show.
#[derive(Debug, Clone, Copy, PartialEq, Eq, Structural)]
pub enum Color {
    Black,
    Red,
    Orange,
    Yellow,
    Green,
    Blue,
}

/// The state-of-charge indicator colour: off below 2 %, red below 10 %, orange
/// below 30 %, blue below 80 %, green from 80 %.
pub open spec fn soc_color(soc: u8) -> Color {
    if soc < 2 {
        Color::Black
    } else if soc < 10 {
        Color::Red
    } else if soc < 30 {
        Color::Orange
    } else if soc < 80 {
        Color::Blue
    } else {
        Color::Green
    }
}

/// Choose a status color for the battery state-of-charge indicator.
pub fn battery_soc_color(soc: u8) -> (r: Color)
    ensures
        r == soc_color(soc),
{
    if soc < 2 {
        Color::Black
    } else if soc < 10 {
        Color::Red
    } else if soc < 30 {
        Color::Orange
    } else if soc < 80 {
        Color::Blue
    } else {
        Color::Green
    }
}

/// TIM2 tick rate (APB1 timer clock), Hz.
pub const TIM_TICK_HZ: u32 = 96_000_000;

/// Timer settings that sound a tone: the auto-reload value (period), the compare
/// value (50 % duty) and the number of busy-wait iterations that hold it.
#[derive(Debug, Clone, Copy, PartialEq, Eq, Structural)]
pub struct ToneTimer {
    pub arr: u32,
    pub ccr: u32,
    pub spins: u32,
}

/// The buzzer timer settings of a tone: `None` (silence, nothing to do) for a zero
/// frequency or duration; else a period of the tick rate over the frequency (at
/// most 0xFFFF ticks) minus one, half of it as compare value, and 1000 busy-wait
/// iterations per millisecond.
pub fn tone(freq_hz: u32, duration_ms: u32) -> (r: Option<ToneTimer>)
    requires
        freq_hz <= TIM_TICK_HZ,
        duration_ms <= u32::MAX / 1000,
    ensures
        (freq_hz == 0 || duration_ms == 0) <==> r is None,
        r matches Some(t) ==> {
            let period = if TIM_TICK_HZ / freq_hz < 0xFFFF {
                TIM_TICK_HZ / freq_hz
            } else {
                0xFFFF
            };
            &&& t.arr == period - 1
            &&& t.ccr == (period - 1) / 2
            &&& t.spins == duration_ms * 1000
        },
{
    if freq_hz == 0 || duration_ms == 0 {
        return None;
    }
    let ticks = TIM_TICK_HZ / freq_hz;
    assert(ticks >= 1) by (nonlinear_arith)
        requires
            ticks == TIM_TICK_HZ / freq_hz,
            0 < freq_hz <= TIM_TICK_HZ,
    ;
    let period: u32 = if ticks < 0xFFFF { ticks } else { 0xFFFF };
    let arr = period - 1;
    Some(ToneTimer { arr, ccr: arr / 2, spins: duration_ms * 1000 })
}

/// One note of a melody: a frequency (0 is a rest) held for a duration.
#[derive(Debug, Clone, Copy, PartialEq, Eq, Structural)]
pub struct Tone {
    pub freq_hz: u32,
    pub duration_ms: u32,
}

/// Notes from `f` upwards in steps of `step` while at most `limit`, each held `dur` ms.
pub open spec fn rising(f: int, step: int, limit: int, dur: u32) -> Seq<Tone>
    decreases limit + step - f,
    when step > 0
{
    if f > limit {
        Seq::empty()
    } else {
        seq![Tone { freq_hz: f as u32, duration_ms: dur }] + rising(f + step, step, limit, dur)
    }
}

/// Notes from `f` downwards in steps of `step` (stopping at zero) while at least
/// `floor`, each held `dur` ms.
pub open spec fn falling(f: int, step: int, floor: int, dur: u32) -> Seq<Tone>
    decreases f,
    when step > 0 && floor > 0
{
    if f < floor {
        Seq::empty()
    } else {
        let next = if f >= step {
            f - step
        } else {
            0
        };
        seq![Tone { freq_hz: f as u32, duration_ms: dur }] + falling(next, step, floor, dur)
    }
}

/// A note.
pub open spec fn note(freq_hz: u32, duration_ms: u32) -> Tone {
    Tone { freq_hz, duration_ms }
}

/// The startup melody: a quick rise from 800 Hz to 3 kHz, three short high beeps,
/// a descending sweep from 2.5 kHz to 600 Hz, two cheerful rising phrases, and a
/// closing tone.
pub open spec fn startup_melody() -> Seq<Tone> {
    rising(800, 200, 3000, 12) + seq![
        note(3500, 30),
        note(0, 15),
        note(4000, 30),
        note(0, 15),
        note(3200, 30),
        note(0, 20),
    ] + falling(2500, 150, 600, 10) + seq![note(0, 30)] + rising(1000, 300, 2800, 15) + seq![
        note(0, 20),
    ] + rising(1200, 300, 3500, 15) + seq![note(0, 20), note(2500, 60), note(3000, 80)]
}

/// Append the notes of a rising sweep.
fn push_rising(out: &mut Vec<Tone>, start: u32, step: u32, limit: u32, dur: u32)
    requires
        step > 0,
        limit + step <= u32::MAX,
    ensures
        final(out)@ == old(out)@ + rising(start as int, step as int, limit as int, dur),
{
    let mut f = start;
    let ghost done: Seq<Tone> = old(out)@;
    while f <= limit
        invariant
            step > 0,
            limit + step <= u32::MAX,
            out@ + rising(f as int, step as int, limit as int, dur) == done + rising(
                start as int,
                step as int,
                limit as int,
                dur,
            ),
        decreases limit + step - f,
    {
        let ghost before = out@;
        out.push(Tone { freq_hz: f, duration_ms: dur });
        assert(out@ + rising((f + step) as int, step as int, limit as int, dur) =~= before + rising(
            f as int,
            step as int,
            limit as int,
            dur,
        ));
        f = f + step;
    }
    assert(out@ =~= out@ + rising(f as int, step as int, limit as int, dur));
}

/// Append the notes of a falling sweep.
fn push_falling(out: &mut Vec<Tone>, start: u32, step: u32, floor: u32, dur: u32)
    requires
        step > 0,
        floor > 0,
    ensures
        final(out)@ == old(out)@ + falling(start as int, step as int, floor as int, dur),
{
    let mut f = start;
    let ghost done: Seq<Tone> = old(out)@;
    while f >= floor
        invariant
            step > 0,
            floor > 0,
            out@ + falling(f as int, step as int, floor as int, dur) == done + falling(
                start as int,
                step as int,
                floor as int,
                dur,
            ),
        decreases f,
    {
        let ghost before = out@;
        out.push(Tone { freq_hz: f, duration_ms: dur });
        let next = if f >= step { f - step } else { 0 };
        assert(out@ + falling(next as int, step as int, floor as int, dur) =~= before + falling(
            f as int,
            step as int,
            floor as int,
            dur,
        ));
        f = next;
    }
    assert(out@ =~= out@ + falling(f as int, step as int, floor as int, dur));
}

/// The board's R2-D2-style startup melody, in the order the buzzer plays it; the
/// buzzer stops after the last note.
pub fn play() -> (r: Vec<Tone>)
    ensures
        r@ == startup_melody(),
{
    let mut out: Vec<Tone> = Vec::new();
    push_rising(&mut out, 800, 200, 3000, 12);
    out.push(Tone { freq_hz: 3500, duration_ms: 30 });
    out.push(Tone { freq_hz: 0, duration_ms: 15 });
    out.push(Tone { freq_hz: 4000, duration_ms: 30 });
    out.push(Tone { freq_hz: 0, duration_ms: 15 });
    out.push(Tone { freq_hz: 3200, duration_ms: 30 });
    out.push(Tone { freq_hz: 0, duration_ms: 20 });
    push_falling(&mut out, 2500, 150, 600, 10);
    out.push(Tone { freq_hz: 0, duration_ms: 30 });
    push_rising(&mut out, 1000, 300, 2800, 15);
    out.push(Tone { freq_hz: 0, duration_ms: 20 });
    push_rising(&mut out, 1200, 300, 3500, 15);
    out.push(Tone { freq_hz: 0, duration_ms: 20 });
    out.push(Tone { freq_hz: 2500, duration_ms: 60 });
    out.push(Tone { freq_hz: 3000, duration_ms: 80 });
    assert(out@ =~= startup_melody());
    out
}

/// Severity of a log message, from least to most severe; `Off` as the transmit
/// level sends nothing.
#[derive(Debug, Clone, Copy, PartialEq, Eq, Structural)]
pub enum LogLevel {
    Debug,
    Info,
    Warn,
    Error,
    Off,
}

/// The rank of a level in severity order.
pub open spec fn log_rank(l: LogLevel) -> int {
    match l {
        LogLevel::Debug => 0,
        LogLevel::Info => 1,
        LogLevel::Warn => 2,
        LogLevel::Error => 3,
        LogLevel::Off => 4,
    }
}

impl LogLevel {
    /// The level's code, in severity order.
    pub fn code(self) -> (r: u8)
        ensures
            r == log_rank(self),
    {
        match self {
            LogLevel::Debug => 0,
            LogLevel::Info => 1,
            LogLevel::Warn => 2,
            LogLevel::Error => 3,
            LogLevel::Off => 4,
        }
    }
}

/// Whether a message of level `msg_level` is sent at transmit level `tx_log_level`:
/// never when the transmit level is `Off`, else when the message is at least as
/// severe as the transmit level.
pub fn should_send_log(tx_log_level: LogLevel, msg_level: LogLevel) -> (r: bool)
    ensures
        r == (tx_log_level != LogLevel::Off && log_rank(msg_level) >= log_rank(tx_log_level)),
{
    if tx_log_level == LogLevel::Off {
        return false;
    }
    msg_level.code() >= tx_log_level.code()
}

} // verus!

//! Properties that relate the BQ24725 encoders to their decoders.
use vstd::prelude::*;
use super::types::{
    charge_current_of, charge_voltage_of, input_current_of, options_of_word, options_word,
    por_options, valid_charge_current, valid_charge_voltage, valid_input_current, ChargeInhibit,
    ChargeOptions,
};
use super::driver::with_inhibit;

verus! {

/// Each option field occupies its own bits of the ChargeOption() word, so OR-ing the
/// fields together and masking one field's bits gives that field back.
proof fn lemma_option_fields_disjoint(
    a: u16,
    b: u16,
    c: u16,
    d: u16,
    e: u16,
    f: u16,
    g: u16,
    h: u16,
    i: u16,
    j: u16,
)
    by (bit_vector)
    requires
        a == 0 || a == 0x8000,
        b == 0 || b == 0x2000 || b == 0x4000 || b == 0x6000,
        c == 0 || c == 0x0800 || c == 0x1000 || c == 0x1800,
        d == 0 || d == 0x0400,
        e == 0 || e == 0x0200,
        f == 0 || f == 0x0080 || f == 0x0100 || f == 0x0180,
        g == 0 || g == 0x0040,
        h == 0 || h == 0x0020,
        i == 0 || i == 0x0002 || i == 0x0004 || i == 0x0006,
        j == 0 || j == 0x0001,
    ensures
        (a | b | c | d | e | f | g | h | i | j) & 0x8000 == a,
        (a | b | c | d | e | f | g | h | i | j) & 0x6000 == b,
        (a | b | c | d | e | f | g | h | i | j) & 0x1800 == c,
        (a | b | c | d | e | f | g | h | i | j) & 0x0400 == d,
        (a | b | c | d | e | f | g | h | i | j) & 0x0200 == e,
        (a | b | c | d | e | f | g | h | i | j) & 0x0180 == f,
        (a | b | c | d | e | f | g | h | i | j) & 0x0040 == g,
        (a | b | c | d | e | f | g | h | i | j) & 0x0020 == h,
        (a | b | c | d | e | f | g | h | i | j) & 0x0006 == i,
        (a | b | c | d | e | f | g | h | i | j) & 0x0001 == j,
{
}

/// Writing options to the ChargeOption() register and reading them back gives the
/// same options: `from_u16(to_u16(o)) == o`.
pub proof fn lemma_charge_options_roundtrip(o: ChargeOptions)
    ensures
        options_of_word(options_word(o)) == o,
{
    lemma_option_fields_disjoint(
        o.acok_deglitch_time.field(),
        o.watchdog_timer.field(),
        o.bat_depletion_threshold.field(),
        o.emi_sw_freq_adj.field(),
        o.emi_sw_freq_adj_en.field(),
        o.ifault_hi_threshold.field(),
        o.learn_en.field(),
        o.iout.field(),
        o.acoc_threshold.field(),
        o.charge_inhibit.field(),
    );
}

/// Decoding a ChargeOption() word and encoding it again gives the word back with the
/// reserved bits 4:3 cleared: `to_u16(from_u16(w)) == w & 0xFFE7`.
pub proof fn lemma_charge_option_word_roundtrip(data: u16)
    ensures
        options_word(options_of_word(data)) == data & 0xFFE7,
{
    let o = options_of_word(data);
    assert({
        &&& (data & 0x8000 == 0 || data & 0x8000 == 0x8000)
        &&& (data & 0x6000 == 0 || data & 0x6000 == 0x2000 || data & 0x6000 == 0x4000 || data
            & 0x6000 == 0x6000)
        &&& (data & 0x1800 == 0 || data & 0x1800 == 0x0800 || data & 0x1800 == 0x1000 || data
            & 0x1800 == 0x1800)
        &&& (data & 0x0400 == 0 || data & 0x0400 == 0x0400)
        &&& (data & 0x0200 == 0 || data & 0x0200 == 0x0200)
        &&& (data & 0x0180 == 0 || data & 0x0180 == 0x0080 || data & 0x0180 == 0x0100 || data
            & 0x0180 == 0x0180)
        &&& (data & 0x0040 == 0 || data & 0x0040 == 0x0040)
        &&& (data & 0x0020 == 0 || data & 0x0020 == 0x0020)
        &&& (data & 0x0006 == 0 || data & 0x0006 == 0x0002 || data & 0x0006 == 0x0004 || data
            & 0x0006 == 0x0006)
        &&& (data & 0x0001 == 0 || data & 0x0001 == 0x0001)
    }) by (bit_vector);
    assert(o.acok_deglitch_time.field() == data & 0x8000);
    assert(o.watchdog_timer.field() == data & 0x6000);
    assert(o.bat_depletion_threshold.field() == data & 0x1800);
    assert(o.emi_sw_freq_adj.field() == data & 0x0400);
    assert(o.emi_sw_freq_adj_en.field() == data & 0x0200);
    assert(o.ifault_hi_threshold.field() == data & 0x0180);
    assert(o.learn_en.field() == data & 0x0040);
    assert(o.iout.field() == data & 0x0020);
    assert(o.acoc_threshold.field() == data & 0x0006);
    assert(o.charge_inhibit.field() == data & 0x0001);
    assert(data & 0xFFE7 == (data & 0x8000) | (data & 0x6000) | (data & 0x1800) | (data & 0x0400)
        | (data & 0x0200) | (data & 0x0180) | (data & 0x0040) | (data & 0x0020) | (data & 0x0006)
        | (data & 0x0001)) by (bit_vector);
}

/// The power-on-reset options pack to the documented ChargeOption() word 0x7904.
pub proof fn lemma_por_default_word()
    ensures
        options_word(por_options()) == 0x7904,
{
    assert((0x0000u16 | 0x6000u16 | 0x1800u16 | 0x0000u16 | 0x0000u16 | 0x0100u16 | 0x0000u16
        | 0x0000u16 | 0x0004u16 | 0x0000u16) == 0x7904u16) by (bit_vector);
}

/// Every charge current the register accepts decodes back to itself, and every
/// register word decodes to a current that is a multiple of 64 mA no larger than 8128 mA.
pub proof fn lemma_charge_current_roundtrip(ma: u16, raw: u16)
    ensures
        valid_charge_current(ma as int) ==> charge_current_of(ma) == ma,
        charge_current_of(raw) % 64 == 0,
        0 <= charge_current_of(raw) <= 8128,
        charge_current_of(raw) != 64 ==> valid_charge_current(charge_current_of(raw)),
{
}

/// Every charge voltage the register accepts decodes back to itself, and every
/// register word decodes to a multiple of 16 mV no larger than 32752 mV.
pub proof fn lemma_charge_voltage_roundtrip(mv: u16, raw: u16)
    ensures
        valid_charge_voltage(mv as int) ==> charge_voltage_of(mv) == mv,
        charge_voltage_of(raw) % 16 == 0,
        0 <= charge_voltage_of(raw) <= 32752,
        (charge_voltage_of(raw) == 0 || 1024 <= charge_voltage_of(raw) <= 19200)
            ==> valid_charge_voltage(charge_voltage_of(raw)),
{
}

/// Every input current the register accepts decodes back to itself, and every register
/// word decodes to a current the register accepts.
pub proof fn lemma_input_current_roundtrip(ma: u16, raw: u16)
    ensures
        valid_input_current(ma as int) ==> input_current_of(ma) == ma,
        valid_input_current(input_current_of(raw)),
{
}

/// Enabling or disabling charging sticks: when the ChargeOption() word that
/// `set_charging_enabled` writes is read back, `query_charging_enabled` reports
/// the state that was asked for.
pub proof fn lemma_charging_enable_readback(before: u16, enabled: bool, after: u16)
    requires
        after == options_word(
            with_inhibit(
                options_of_word(before),
                if enabled {
                    ChargeInhibit::ChargeEnable
                } else {
                    ChargeInhibit::ChargeInhibit
                },
            ),
        ),
    ensures
        (options_of_word(after).charge_inhibit == ChargeInhibit::ChargeEnable) == enabled,
{
    let o = with_inhibit(
        options_of_word(before),
        if enabled {
            ChargeInhibit::ChargeEnable
        } else {
            ChargeInhibit::ChargeInhibit
        },
    );
    lemma_charge_options_roundtrip(o);
}

} // verus!

//! ADS1115 conversion protocol: the configuration word written before each
//! single-shot conversion, the decoding of the two-byte big-endian result
//! register, and the scaling of a raw reading to a voltage in microvolts.

use vstd::prelude::*;

verus! {

/// ADS1115 conversion register address.
pub const CONVERSION_REG: u8 = 0x00;
/// ADS1115 configuration register address.
pub const CONFIG_REG: u8 = 0x01;

/// Configuration bit: select input A0, single ended.
pub const A0_SINGLE_ENDED: u16 = 0x4000;
/// Configuration bit: full-scale range of 4.096 V.
pub const FSR_4_096V: u16 = 0x0200;
/// Configuration bit: single-shot conversion mode.
pub const MODE_SINGLE_SHOT: u16 = 0x0100;
/// Configuration bit: data rate of 128 samples per second.
pub const DATA_RATE_128SPS: u16 = 0x0080;
/// Configuration bit: start a single conversion.
pub const OS_START_SINGLE: u16 = 0x8000;

/// Full-scale voltage of the selected range, in microvolts (4.096 V).
pub const FULL_SCALE_MICROVOLTS: i32 = 4_096_000;
/// Number of positive ADC counts at full scale (2^15).
pub const ADC_COUNTS: i32 = 32768;

/// The voltage, in microvolts, that a raw ADC register value stands for:
/// `raw * full_scale / 2^15`. The division is exact, at 125 microvolts per
/// count, so the conversion is a linear function of the raw value.
pub open spec fn voltage_microvolts(raw: int) -> int {
    raw * FULL_SCALE_MICROVOLTS / ADC_COUNTS as int
}

proof fn lemma_voltage_is_125_per_count(raw: int)
    ensures
        voltage_microvolts(raw) == raw * 125,
{
    assert(raw * 4_096_000 == (raw * 125) * 32768) by (nonlinear_arith);
    assert((raw * 125) * 32768 / 32768 == raw * 125) by (nonlinear_arith);
}

/// Converts a raw ADC reading to a voltage in microvolts.
pub fn raw_to_microvolts(raw: i16) -> (v: i32)
    ensures
        v == voltage_microvolts(raw as int),
{
    proof {
        lemma_voltage_is_125_per_count(raw as int);
    }
    (raw as i32) * 125
}

/// Voltage conversion is linear and strictly monotonic: a larger raw reading
/// always stands for a strictly larger voltage, and a raw reading of zero
/// stands for exactly zero volts.
pub proof fn lemma_voltage_monotonic(r1: int, r2: int)
    requires
        r1 < r2,
    ensures
        voltage_microvolts(r1) < voltage_microvolts(r2),
        voltage_microvolts(0) == 0,
{
    lemma_voltage_is_125_per_count(r1);
    lemma_voltage_is_125_per_count(r2);
    lemma_voltage_is_125_per_count(0);
    assert(r1 * 125 < r2 * 125) by (nonlinear_arith)
        requires
            r1 < r2,
    ;
}

/// The configuration word selecting a started single-shot conversion on A0,
/// single ended, at the 4.096 V full-scale range and 128 samples per second.
pub fn config_word() -> (w: u16)
    ensures
        w == (OS_START_SINGLE | A0_SINGLE_ENDED | FSR_4_096V | MODE_SINGLE_SHOT | DATA_RATE_128SPS),
        w == 0xC380u16,
{
    assert((0x8000u16 | 0x4000u16 | 0x0200u16 | 0x0100u16 | 0x0080u16) == 0xC380u16) by (bit_vector);
    OS_START_SINGLE | A0_SINGLE_ENDED | FSR_4_096V | MODE_SINGLE_SHOT | DATA_RATE_128SPS
}

/// The three-byte frame written to the bus to start a conversion: the
/// configuration register address followed by the configuration word in
/// big-endian byte order.
pub fn config_frame() -> (frame: Vec<u8>)
    ensures
        frame@ == seq![CONFIG_REG, 0xC3u8, 0x80u8],
{
    let w = config_word();
    assert(0xC380u16 >> 8u16 == 0xC3u16) by (bit_vector);
    assert(0xC380u16 & 0xFFu16 == 0x80u16) by (bit_vector);
    let hi: u8 = (w >> 8) as u8;
    let lo: u8 = (w & 0xFF) as u8;
    let mut frame: Vec<u8> = Vec::new();
    frame.push(CONFIG_REG);
    frame.push(hi);
    frame.push(lo);
    assert(frame@ =~= seq![CONFIG_REG, 0xC3u8, 0x80u8]);
    frame
}

/// The signed sample that a big-endian two-byte read of the conversion
/// register stands for: the two's-complement interpretation of `hi * 256 + lo`.
pub open spec fn sample_value(hi: u8, lo: u8) -> int {
    let n = hi * 256 + lo;
    if n < 32768 {
        n
    } else {
        n - 65536
    }
}

/// Decodes the two bytes read back from the conversion register into the
/// signed raw sample they stand for.
pub fn decode_sample(hi: u8, lo: u8) -> (raw: i16)
    ensures
        raw as int == sample_value(hi, lo),
{
    let n: u32 = (hi as u32) * 256 + (lo as u32);
    if n < 32768 {
        n as i16
    } else {
        let m: u32 = 65536 - n;
        let raw: i16 = -((m - 1) as i16) - 1;
        raw
    }
}

} // verus!

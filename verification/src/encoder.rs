//! Frequency encoder: mapping a requested frequency in Hz to the OCT and
//! DAC register fields.
//!
//! The supported range [1039 Hz, 68.03 MHz] is partitioned into sixteen
//! octave bands, each roughly double the previous, with the chip's
//! published calibration boundaries used verbatim. The octave is the index
//! of the first band whose inclusive range contains the frequency; the
//! fine value then follows the closed form
//! `dac = 2048 - (2078 * 2^(10 + oct)) / f` with truncating division, the
//! result narrowed to the 10 bits of the DAC field.

use vstd::prelude::*;
use vstd::arithmetic::power2::{pow2, lemma2_to64};
use crate::types::FrequencyError;

verus! {

/// Lowest frequency the device can generate, in Hz.
pub const FREQU_MIN: u32 = 1_039;

/// Highest frequency the device can generate, in Hz.
pub const FREQU_MAX: u32 = 68_030_000;

/// Inclusive lower boundary of octave band `i`, from the chip's published
/// calibration table; 0 outside the sixteen bands.
pub open spec fn band_min(i: int) -> u32 {
    if i == 0 { 1_039 }
    else if i == 1 { 2_078 }
    else if i == 2 { 4_156 }
    else if i == 3 { 8_312 }
    else if i == 4 { 16_620 }
    else if i == 5 { 33_250 }
    else if i == 6 { 66_500 }
    else if i == 7 { 133_000 }
    else if i == 8 { 266_000 }
    else if i == 9 { 532_000 }
    else if i == 10 { 1_064_000 }
    else if i == 11 { 2_128_000 }
    else if i == 12 { 4_256_000 }
    else if i == 13 { 8_511_000 }
    else if i == 14 { 17_020_000 }
    else if i == 15 { 34_050_000 }
    else { 0 }
}

/// Inclusive upper boundary of octave band `i`, from the chip's published
/// calibration table; 0 outside the sixteen bands.
pub open spec fn band_max(i: int) -> u32 {
    if i == 0 { 2_076 }
    else if i == 1 { 4_152 }
    else if i == 2 { 8_304 }
    else if i == 3 { 16_610 }
    else if i == 4 { 33_220 }
    else if i == 5 { 66_430 }
    else if i == 6 { 132_900 }
    else if i == 7 { 265_700 }
    else if i == 8 { 531_400 }
    else if i == 9 { 1_063_000 }
    else if i == 10 { 2_126_000 }
    else if i == 11 { 4_252_000 }
    else if i == 12 { 8_503_000 }
    else if i == 13 { 17_010_000 }
    else if i == 14 { 34_010_000 }
    else if i == 15 { 68_030_000 }
    else { 0 }
}

/// Whether frequency `f` lies in octave band `i`, boundaries included.
pub open spec fn in_band(f: u32, i: int) -> bool {
    band_min(i) <= f && f <= band_max(i)
}

/// Index of the first octave band at or above `i` whose range contains
/// `f`; 0 when no band does.
pub open spec fn first_band_from(f: u32, i: int) -> u16
    decreases 16 - i,
{
    if i < 0 || i >= 16 {
        0
    } else if in_band(f, i) {
        i as u16
    } else {
        first_band_from(f, i + 1)
    }
}

/// The octave resolved for frequency `f`: the first band containing it,
/// scanning the sixteen bands in increasing order.
pub open spec fn spec_oct(f: u32) -> u16 {
    first_band_from(f, 0)
}

/// The dividend of the closed-form DAC formula: `2078 * 2^(10 + oct)`.
pub open spec fn osc_scale(oct: u16) -> int {
    2078 * (pow2((10 + oct) as nat) as int)
}

/// The DAC value for frequency `f` in octave `oct`:
/// `2048 - (2078 * 2^(10 + oct)) / f` under truncating division, narrowed
/// to the 10 bits of the DAC field.
pub open spec fn spec_dac(f: u32, oct: u16) -> u16 {
    (((2048 - osc_scale(oct) / (f as int)) % 1024) as u16)
}

/// The concrete value of `2078 * 2^(10 + oct)` for each of the sixteen
/// octaves.
proof fn lemma_osc_scale_values(oct: u16)
    requires
        oct < 16,
    ensures
        oct == 0 ==> osc_scale(oct) == 2_127_872,
        oct == 1 ==> osc_scale(oct) == 4_255_744,
        oct == 2 ==> osc_scale(oct) == 8_511_488,
        oct == 3 ==> osc_scale(oct) == 17_022_976,
        oct == 4 ==> osc_scale(oct) == 34_045_952,
        oct == 5 ==> osc_scale(oct) == 68_091_904,
        oct == 6 ==> osc_scale(oct) == 136_183_808,
        oct == 7 ==> osc_scale(oct) == 272_367_616,
        oct == 8 ==> osc_scale(oct) == 544_735_232,
        oct == 9 ==> osc_scale(oct) == 1_089_470_464,
        oct == 10 ==> osc_scale(oct) == 2_178_940_928,
        oct == 11 ==> osc_scale(oct) == 4_357_881_856,
        oct == 12 ==> osc_scale(oct) == 8_715_763_712,
        oct == 13 ==> osc_scale(oct) == 17_431_527_424,
        oct == 14 ==> osc_scale(oct) == 34_863_054_848,
        oct == 15 ==> osc_scale(oct) == 69_726_109_696,
{
    lemma2_to64();
}

/// For a frequency at or above the lower boundary of its octave band the
/// formula's quotient stays at or below 2048, so the subtraction in the
/// DAC formula cannot underflow.
proof fn lemma_scale_bound(f: u32, oct: u16)
    requires
        oct < 16,
        band_min(oct as int) <= f,
    ensures
        osc_scale(oct) < 2049 * (f as int),
{
    lemma_osc_scale_values(oct);
    assert(2049 * (band_min(oct as int) as int) <= 2049 * (f as int))
        by (nonlinear_arith)
        requires band_min(oct as int) <= f;
}

/// Every band boundary lies inside the supported frequency range.
proof fn lemma_band_min_low(oct: u16)
    requires
        oct < 16,
    ensures
        FREQU_MIN <= band_min(oct as int),
{
}

/// Scanning from any start index, the band found (or the fall-back band 0)
/// is one of the sixteen bands and its lower boundary does not exceed `f`.
proof fn lemma_first_band_from(f: u32, i: int)
    requires
        FREQU_MIN <= f,
        0 <= i <= 16,
    ensures
        first_band_from(f, i) < 16,
        band_min(first_band_from(f, i) as int) <= f,
    decreases 16 - i,
{
    if i >= 16 {
    } else if in_band(f, i) {
    } else {
        lemma_first_band_from(f, i + 1);
    }
}

/// The octave resolved for an in-range frequency is one of the sixteen
/// bands, and the frequency is at or above that band's lower boundary.
pub proof fn lemma_oct_in_range(f: u32)
    requires
        FREQU_MIN <= f,
    ensures
        spec_oct(f) < 16,
        band_min(spec_oct(f) as int) <= f,
{
    lemma_first_band_from(f, 0);
}

/// The published bands are ordered: every band ends strictly below the
/// lower boundary of every later band (so the bands are pairwise
/// disjoint).
proof fn lemma_band_order(j: int, i: int)
    requires
        0 <= j < i < 16,
    ensures
        band_max(j) < band_min(i),
    decreases i - j,
{
    if j + 1 < i {
        lemma_band_order(j + 1, i);
    }
}

/// The scan finds the unique containing band: a frequency that lies in
/// one of the sixteen published bands resolves to exactly that band's
/// index.
proof fn lemma_scan_hits(f: u32, i: int, k: int)
    requires
        0 <= k <= i < 16,
        in_band(f, i),
    ensures
        first_band_from(f, k) == i,
    decreases i - k,
{
    if k < i {
        lemma_band_order(k, i);
        lemma_scan_hits(f, i, k + 1);
    }
}

/// A frequency inside one of the sixteen published bands resolves to
/// exactly that band's octave: the bands are pairwise disjoint, so the
/// first containing band is the only one.
pub proof fn lemma_oct_unique(f: u32, i: int)
    requires
        0 <= i < 16,
        in_band(f, i),
    ensures
        spec_oct(f) == i as u16,
{
    lemma_scan_hits(f, i, 0);
}

/// The boundaries of octave band `i`, as the pair (lower, upper).
fn band_bounds(i: u16) -> (b: (u32, u32))
    ensures
        b.0 == band_min(i as int),
        b.1 == band_max(i as int),
{
    match i {
        0 => (1_039, 2_076),
        1 => (2_078, 4_152),
        2 => (4_156, 8_304),
        3 => (8_312, 16_610),
        4 => (16_620, 33_220),
        5 => (33_250, 66_430),
        6 => (66_500, 132_900),
        7 => (133_000, 265_700),
        8 => (266_000, 531_400),
        9 => (532_000, 1_063_000),
        10 => (1_064_000, 2_126_000),
        11 => (2_128_000, 4_252_000),
        12 => (4_256_000, 8_503_000),
        13 => (8_511_000, 17_010_000),
        14 => (17_020_000, 34_010_000),
        15 => (34_050_000, 68_030_000),
        _ => (0, 0),
    }
}

/// `2078 * 2^(10 + oct)` computed exactly, for each of the sixteen
/// octaves.
fn osc_scale_exec(oct: u16) -> (s: u64)
    requires
        oct < 16,
    ensures
        s as int == osc_scale(oct),
{
    proof {
        lemma_osc_scale_values(oct);
    }
    match oct {
        0 => 2_127_872,
        1 => 4_255_744,
        2 => 8_511_488,
        3 => 17_022_976,
        4 => 34_045_952,
        5 => 68_091_904,
        6 => 136_183_808,
        7 => 272_367_616,
        8 => 544_735_232,
        9 => 1_089_470_464,
        10 => 2_178_940_928,
        11 => 4_357_881_856,
        12 => 8_715_763_712,
        13 => 17_431_527_424,
        14 => 34_863_054_848,
        _ => 69_726_109_696,
    }
}

/// Resolve the octave for a requested frequency: scan the sixteen bands in
/// increasing order and return the index of the first whose inclusive
/// range contains `f`, or band 0 when the frequency falls in a crack
/// between two published bands. Frequencies outside the supported range
/// are rejected, below it as `TooLow` and above it as `TooHigh`.
pub fn calc_oct(f: u32) -> (r: Result<u16, FrequencyError>)
    ensures
        f < FREQU_MIN ==> r == Err::<u16, FrequencyError>(FrequencyError::TooLow),
        f > FREQU_MAX ==> r == Err::<u16, FrequencyError>(FrequencyError::TooHigh),
        FREQU_MIN <= f && f <= FREQU_MAX ==> r == Ok::<u16, FrequencyError>(spec_oct(f)),
{
    if f < FREQU_MIN {
        return Err(FrequencyError::TooLow);
    }
    if f > FREQU_MAX {
        return Err(FrequencyError::TooHigh);
    }
    let mut i: u16 = 0;
    while i < 16
        invariant
            i <= 16,
            spec_oct(f) == first_band_from(f, i as int),
        decreases 16 - i,
    {
        let b = band_bounds(i);
        if b.0 <= f && f <= b.1 {
            return Ok(i);
        }
        i = i + 1;
    }
    Ok(0)
}

/// The DAC value for frequency `f` in octave `oct`, by the closed form
/// `2048 - (2078 * 2^(10 + oct)) / f` with truncating division, the result
/// narrowed to 10 bits. For `f` at or above the matched band's lower
/// boundary the subtraction cannot underflow.
pub fn calc_dac(f: u32, oct: u16) -> (dac: u16)
    requires
        oct < 16,
        band_min(oct as int) <= f,
    ensures
        dac == spec_dac(f, oct),
        dac < 1024,
{
    proof {
        lemma_band_min_low(oct);
        lemma_scale_bound(f, oct);
    }
    let scale = osc_scale_exec(oct);
    let q: u64 = scale / (f as u64);
    proof {
        assert(q <= 2048) by (nonlinear_arith)
            requires
                q == (scale as int) / (f as int),
                (scale as int) < 2049 * (f as int),
                f >= 1,
        ;
    }
    let diff: u64 = 2048 - q;
    (diff % 1024) as u16
}

} // verus!

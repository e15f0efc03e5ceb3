//! Tests for the pure pieces: octave lookup, the DAC closed form, and the
//! two-byte wire codec.

use ltc6904::{calc_dac, calc_oct, reg_to_bytes, word_from_bytes, FrequencyError};

#[test]
fn calc_oct_band_boundaries() {
    // Every published band is found at both of its inclusive boundaries.
    let bands: Vec<(u32, u32)> = vec![
        (1_039, 2_076),
        (2_078, 4_152),
        (4_156, 8_304),
        (8_312, 16_610),
        (16_620, 33_220),
        (33_250, 66_430),
        (66_500, 132_900),
        (133_000, 265_700),
        (266_000, 531_400),
        (532_000, 1_063_000),
        (1_064_000, 2_126_000),
        (2_128_000, 4_252_000),
        (4_256_000, 8_503_000),
        (8_511_000, 17_010_000),
        (17_020_000, 34_010_000),
        (34_050_000, 68_030_000),
    ];
    for (i, (lo, hi)) in bands.iter().enumerate() {
        assert_eq!(calc_oct(*lo), Ok(i as u16), "lower boundary of band {}", i);
        assert_eq!(calc_oct(*hi), Ok(i as u16), "upper boundary of band {}", i);
    }
}

#[test]
fn calc_oct_gaps_fall_back_to_band_zero() {
    // Frequencies in the cracks between published bands resolve to 0.
    for f in [2_077u32, 4_154, 132_950, 34_030_000] {
        assert_eq!(calc_oct(f), Ok(0), "gap frequency {}", f);
    }
}

#[test]
fn calc_oct_rejects_out_of_range() {
    assert_eq!(calc_oct(0), Err(FrequencyError::TooLow));
    assert_eq!(calc_oct(1_038), Err(FrequencyError::TooLow));
    assert_eq!(calc_oct(68_030_001), Err(FrequencyError::TooHigh));
    assert_eq!(calc_oct(u32::MAX), Err(FrequencyError::TooHigh));
}

#[test]
fn calc_dac_closed_form() {
    // dac = 2048 - (2078 * 2^(10 + oct)) / f, truncating, narrowed to 10
    // bits.
    assert_eq!(calc_dac(108_000, 6), 788);
    assert_eq!(calc_dac(1_039, 0), 0);
    assert_eq!(calc_dac(1_500, 0), 630);
    assert_eq!(calc_dac(2_076, 0), 0);
    assert_eq!(calc_dac(34_050_000, 15), 1);
    assert_eq!(calc_dac(68_030_000, 15), 0);
    // Reference computation for an arbitrary in-band frequency.
    let f: u32 = 250_000;
    let oct: u16 = calc_oct(f).unwrap();
    assert_eq!(oct, 7);
    let expected = (2048u64 - (2078u64 << (10 + oct)) / f as u64) % 1024;
    assert_eq!(calc_dac(f, oct) as u64, expected);
}

#[test]
fn wire_codec_round_trips() {
    assert_eq!(reg_to_bytes(0x1234), (0x12, 0x34));
    assert_eq!(reg_to_bytes(0x0000), (0x00, 0x00));
    assert_eq!(reg_to_bytes(0xffff), (0xff, 0xff));
    assert_eq!(word_from_bytes(0xAB, 0xCD), 0xABCD);
    for reg in [0x0000u16, 0x0001, 0x1234, 0x8000, 0x6C51, 0xffff] {
        let (hi, lo) = reg_to_bytes(reg);
        assert_eq!(word_from_bytes(hi, lo), reg);
    }
}

//! Driver for the LTC6904 programmable oscillator.
//!
//! The device holds one 16-bit configuration register with three
//! non-overlapping fields: OCT (bits 15..=12, octave selector), DAC
//! (bits 11..=2, fine frequency control) and CNF (bits 1..=0, output
//! configuration). The driver turns a requested frequency in Hz into the
//! OCT/DAC encoding, keeps a cached copy of the register, and moves the
//! register to or from the device as two big-endian bytes over a two-wire
//! bus. The bus transport and the separate output-enable line are abstract
//! capabilities supplied by the platform.

mod reg;
mod types;
mod encoder;
mod driver;

pub use reg::{
    oct_of, dac_of, cnf_of, pack_oct, pack_dac, pack_cnf, hi_byte, lo_byte, word_of,
    reg_to_bytes, word_from_bytes, lemma_pack_oct, lemma_pack_dac, lemma_pack_cnf,
    lemma_wire_round_trip,
};
pub use types::{
    Address, FrequencyError, OutputSettings, address_bits, settings_from_bits,
    settings_to_bits, lemma_settings_bijection,
};
pub use encoder::{
    FREQU_MIN, FREQU_MAX, band_min, band_max, in_band, first_band_from, spec_oct,
    osc_scale, spec_dac, calc_oct, calc_dac, lemma_oct_in_range, lemma_oct_unique,
};
pub use driver::{I2cBus, OutputLine, LTC6904};

//! Register model: the 16-bit configuration word and its three fields.
//!
//! Layout, most significant bit first: OCT (bits 15..=12), DAC (bits
//! 11..=2), CNF (bits 1..=0). The fields never overlap: packing one field
//! clears exactly that field's mask bits and leaves the other two fields
//! untouched. On the wire the register travels as two bytes, most
//! significant byte first.

use vstd::prelude::*;

verus! {

/// Value of the OCT field (bits 15..=12) of a register word.
pub open spec fn oct_of(reg: u16) -> u16 {
    (reg & 0xf000) >> 12
}

/// Value of the DAC field (bits 11..=2) of a register word.
pub open spec fn dac_of(reg: u16) -> u16 {
    (reg & 0x0ffc) >> 2
}

/// Value of the CNF field (bits 1..=0) of a register word.
pub open spec fn cnf_of(reg: u16) -> u16 {
    reg & 0x0003
}

/// `reg` with the OCT field replaced by `oct` (read-modify-write through
/// the field mask).
pub open spec fn pack_oct(reg: u16, oct: u16) -> u16 {
    (reg & !0xf000) | (oct << 12)
}

/// `reg` with the DAC field replaced by `dac`.
pub open spec fn pack_dac(reg: u16, dac: u16) -> u16 {
    (reg & !0x0ffc) | (dac << 2)
}

/// `reg` with the CNF field replaced by `cnf`.
pub open spec fn pack_cnf(reg: u16, cnf: u16) -> u16 {
    (reg & !0x0003) | cnf
}

/// Most significant wire byte of a register word.
pub open spec fn hi_byte(reg: u16) -> u8 {
    (reg >> 8) as u8
}

/// Least significant wire byte of a register word.
pub open spec fn lo_byte(reg: u16) -> u8 {
    (reg & 0x00ff) as u8
}

/// Register word read back from two wire bytes, most significant first.
pub open spec fn word_of(hi: u8, lo: u8) -> u16 {
    ((hi as u16) << 8) | (lo as u16)
}

/// Packing the OCT field sets exactly that field: the DAC and CNF fields
/// keep their values, whatever the rest of the register holds.
pub proof fn lemma_pack_oct(reg: u16, oct: u16)
    requires
        oct < 16,
    ensures
        oct_of(pack_oct(reg, oct)) == oct,
        dac_of(pack_oct(reg, oct)) == dac_of(reg),
        cnf_of(pack_oct(reg, oct)) == cnf_of(reg),
{
    assert(((((reg & !0xf000) | (oct << 12)) & 0xf000) >> 12) == oct) by (bit_vector)
        requires oct < 16u16;
    assert(((((reg & !0xf000) | (oct << 12)) & 0x0ffc) >> 2) == ((reg & 0x0ffc) >> 2))
        by (bit_vector);
    assert((((reg & !0xf000) | (oct << 12)) & 0x0003) == (reg & 0x0003)) by (bit_vector);
}

/// Packing the DAC field sets exactly that field: the OCT and CNF fields
/// keep their values, whatever the rest of the register holds.
pub proof fn lemma_pack_dac(reg: u16, dac: u16)
    requires
        dac < 1024,
    ensures
        dac_of(pack_dac(reg, dac)) == dac,
        oct_of(pack_dac(reg, dac)) == oct_of(reg),
        cnf_of(pack_dac(reg, dac)) == cnf_of(reg),
{
    assert(((((reg & !0x0ffc) | (dac << 2)) & 0x0ffc) >> 2) == dac) by (bit_vector)
        requires dac < 1024u16;
    assert(((((reg & !0x0ffc) | (dac << 2)) & 0xf000) >> 12) == ((reg & 0xf000) >> 12))
        by (bit_vector)
        requires dac < 1024u16;
    assert((((reg & !0x0ffc) | (dac << 2)) & 0x0003) == (reg & 0x0003)) by (bit_vector);
}

/// Packing the CNF field sets exactly that field: the OCT and DAC fields
/// keep their values, whatever the rest of the register holds.
pub proof fn lemma_pack_cnf(reg: u16, cnf: u16)
    requires
        cnf < 4,
    ensures
        cnf_of(pack_cnf(reg, cnf)) == cnf,
        oct_of(pack_cnf(reg, cnf)) == oct_of(reg),
        dac_of(pack_cnf(reg, cnf)) == dac_of(reg),
{
    assert((((reg & !0x0003) | cnf) & 0x0003) == cnf) by (bit_vector)
        requires cnf < 4u16;
    assert(((((reg & !0x0003) | cnf) & 0xf000) >> 12) == ((reg & 0xf000) >> 12))
        by (bit_vector)
        requires cnf < 4u16;
    assert(((((reg & !0x0003) | cnf) & 0x0ffc) >> 2) == ((reg & 0x0ffc) >> 2))
        by (bit_vector)
        requires cnf < 4u16;
}

/// Splitting a register word into its two wire bytes and reading them back
/// round-trips, in both directions.
pub proof fn lemma_wire_round_trip(reg: u16, hi: u8, lo: u8)
    ensures
        word_of(hi_byte(reg), lo_byte(reg)) == reg,
        hi_byte(word_of(hi, lo)) == hi,
        lo_byte(word_of(hi, lo)) == lo,
{
    assert(((((reg >> 8) as u8) as u16) << 8) | (((reg & 0x00ff) as u8) as u16) == reg)
        by (bit_vector);
    assert(((((hi as u16) << 8) | (lo as u16)) >> 8) as u8 == hi) by (bit_vector);
    assert(((((hi as u16) << 8) | (lo as u16)) & 0x00ff) as u8 == lo) by (bit_vector);
}

/// The two wire bytes of a register word, most significant first.
pub fn reg_to_bytes(reg: u16) -> (b: (u8, u8))
    ensures
        b.0 == hi_byte(reg),
        b.1 == lo_byte(reg),
{
    proof {
        assert((reg >> 8) < 256) by (bit_vector);
        assert((reg & 0x00ff) < 256) by (bit_vector);
    }
    (((reg >> 8) as u8), ((reg & 0x00ff) as u8))
}

/// The register word carried by two wire bytes, most significant first.
pub fn word_from_bytes(hi: u8, lo: u8) -> (reg: u16)
    ensures
        reg == word_of(hi, lo),
{
    ((hi as u16) << 8) | (lo as u16)
}

} // verus!

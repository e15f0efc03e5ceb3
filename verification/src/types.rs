//! Output configuration, bus address and frequency-range errors.

use vstd::prelude::*;

verus! {

/// Output configuration of the oscillator, numerically the four legal
/// values of the 2-bit CNF field: 0 clocks on the negative edge, 1 on both
/// edges, 2 on the positive edge, 3 powers the output down.
#[derive(Clone, Copy, Debug, PartialEq, Eq, Structural, PartialOrd)]
pub enum OutputSettings {
    ClkNeg,
    ClkBoth,
    ClkPos,
    PowerDown,
}

/// The 2-bit CNF value of an output configuration.
pub open spec fn settings_to_bits(s: OutputSettings) -> u16 {
    match s {
        OutputSettings::ClkNeg => 0,
        OutputSettings::ClkBoth => 1,
        OutputSettings::ClkPos => 2,
        OutputSettings::PowerDown => 3,
    }
}

/// The output configuration named by a CNF value; every value of 3 and
/// above reads as the power-down configuration, so the mapping is total.
pub open spec fn settings_from_bits(bits: u16) -> OutputSettings {
    if bits == 0 {
        OutputSettings::ClkNeg
    } else if bits == 1 {
        OutputSettings::ClkBoth
    } else if bits == 2 {
        OutputSettings::ClkPos
    } else {
        OutputSettings::PowerDown
    }
}

/// On the four legal CNF values the two conversions are inverse to each
/// other, so configuration <-> 2-bit value is a total bijection on
/// {0, 1, 2, 3}.
pub proof fn lemma_settings_bijection(s: OutputSettings, bits: u16)
    ensures
        settings_from_bits(settings_to_bits(s)) == s,
        bits < 4 ==> settings_to_bits(settings_from_bits(bits)) == bits,
{
}

impl OutputSettings {
    /// The 2-bit CNF value of this configuration.
    pub fn to_bits(self) -> (bits: u16)
        ensures
            bits == settings_to_bits(self),
            bits < 4,
    {
        match self {
            OutputSettings::ClkNeg => 0,
            OutputSettings::ClkBoth => 1,
            OutputSettings::ClkPos => 2,
            OutputSettings::PowerDown => 3,
        }
    }

    /// The configuration named by a CNF value (total: values above 3 read
    /// as power-down).
    pub fn from_bits(bits: u16) -> (s: OutputSettings)
        ensures
            s == settings_from_bits(bits),
    {
        if bits == 0 {
            OutputSettings::ClkNeg
        } else if bits == 1 {
            OutputSettings::ClkBoth
        } else if bits == 2 {
            OutputSettings::ClkPos
        } else {
            OutputSettings::PowerDown
        }
    }
}

/// Which of the two hard-wired 7-bit bus addresses the device answers on,
/// fixed by the level of its address-select pin.
#[derive(Clone, Copy, Debug, PartialEq, Eq, Structural)]
pub enum Address {
    AddressHigh,
    AddressLow,
}

/// The 7-bit bus address selected: 0x17 with the address pin low, 0x16
/// with it high.
pub open spec fn address_bits(a: Address) -> u8 {
    match a {
        Address::AddressLow => 0x17,
        Address::AddressHigh => 0x16,
    }
}

impl Address {
    /// The 7-bit bus address this selector stands for.
    pub fn to_bits(self) -> (a: u8)
        ensures
            a == address_bits(self),
    {
        match self {
            Address::AddressLow => 0x17,
            Address::AddressHigh => 0x16,
        }
    }
}

/// Why a requested frequency was rejected: below 1039 Hz or above
/// 68.03 MHz, the absolute range the device can generate.
#[derive(Debug, Clone, Copy, PartialEq, Eq, Structural)]
pub enum FrequencyError {
    TooLow,
    TooHigh,
}

} // verus!

//! Device session: one bus handle, one fixed device address, the cached
//! register value, and the independent output-enable line.
//!
//! Every configuration setter mutates only the in-memory cache; the only
//! operation with a physical effect on the device is [`LTC6904::write_out`],
//! which commits the cached register over the bus in a single two-byte
//! transaction. Transport errors are handed back verbatim and the cache is
//! not rolled back: after a failed commit the caller re-issues
//! [`LTC6904::write_out`] to converge the device with the cache.

use vstd::prelude::*;
use crate::encoder::{
    FREQU_MIN, FREQU_MAX, calc_dac, calc_oct, lemma_oct_in_range, spec_dac, spec_oct,
};
use crate::reg::{
    cnf_of, dac_of, lemma_pack_cnf, lemma_pack_dac, lemma_pack_oct, oct_of, pack_cnf,
    pack_dac, pack_oct, reg_to_bytes, word_from_bytes,
};
use crate::types::{
    Address, FrequencyError, OutputSettings, settings_from_bits, settings_to_bits,
};

verus! {

/// Two-wire synchronous bus transport, supplied by the platform. The
/// driver performs exactly one two-byte write or one two-byte read per
/// logical operation, never partial-width transfers, so the capability is
/// stated in those terms. Each call blocks until the transaction is
/// complete and reports failures through the transport's own error type;
/// nothing is assumed of either outcome.
pub trait I2cBus: Sized {
    type Error;

    /// Write the two bytes `hi`, `lo`, in that order, addressed to the
    /// 7-bit device address `addr`.
    fn write_two(&mut self, addr: u8, hi: u8, lo: u8) -> Result<(), Self::Error>;

    /// Read two bytes from the 7-bit device address `addr`, returned in
    /// wire order.
    fn read_two(&mut self, addr: u8) -> Result<(u8, u8), Self::Error>;
}

/// A settable digital output line, supplied by the platform. The driver
/// uses one such line as the device's output-enable signal; the line is
/// physically separate from the two-wire bus and is not represented in the
/// configuration register.
pub trait OutputLine: Sized {
    type Error;

    /// Drive the line high, blocking until done.
    fn set_high(&mut self) -> Result<(), Self::Error>;

    /// Drive the line low, blocking until done.
    fn set_low(&mut self) -> Result<(), Self::Error>;
}

/// Driver session for one LTC6904 oscillator: owns the bus handle and the
/// output-enable line, and caches the device's 16-bit configuration
/// register together with the last successfully requested frequency.
///
/// The cached frequency is only ever set by [`LTC6904::set_frequency`];
/// reading the device back does not recompute it, since the register to
/// frequency mapping is lossy.
pub struct LTC6904<I2C, PIN> where I2C: I2cBus, PIN: OutputLine {
    /// The bus handle, owned for the session's lifetime.
    pub i2c: I2C,
    /// Cached copy of the device's 16-bit configuration register.
    pub reg: u16,
    /// The fixed 7-bit bus address selector, set by hardware wiring.
    pub addr: Address,
    /// The last frequency successfully requested, in Hz.
    pub frequ: u32,
    /// The output-enable line, owned for the session's lifetime.
    pub out_enable: PIN,
}

impl<I2C, PIN> LTC6904<I2C, PIN> where I2C: I2cBus, PIN: OutputLine {
    /// Open a session: take ownership of the bus handle and the enable
    /// line, fix the device address, and start from register 0 and the
    /// lowest supported frequency.
    pub fn new(i2c: I2C, address: Address, out_enable: PIN) -> (s: Self)
        ensures
            s.reg == 0,
            s.frequ == FREQU_MIN,
            s.addr == address,
            s.i2c == i2c,
            s.out_enable == out_enable,
    {
        Self { i2c, reg: 0, addr: address, frequ: FREQU_MIN, out_enable }
    }

    /// Drive the output-enable line high. Touches neither the cached
    /// register nor the bus; the line's own error is handed back verbatim.
    pub fn enable_output(&mut self) -> (r: Result<(), PIN::Error>)
        ensures
            final(self).i2c == old(self).i2c,
            final(self).reg == old(self).reg,
            final(self).addr == old(self).addr,
            final(self).frequ == old(self).frequ,
    {
        self.out_enable.set_high()
    }

    /// Drive the output-enable line low. Touches neither the cached
    /// register nor the bus; the line's own error is handed back verbatim.
    pub fn disable_output(&mut self) -> (r: Result<(), PIN::Error>)
        ensures
            final(self).i2c == old(self).i2c,
            final(self).reg == old(self).reg,
            final(self).addr == old(self).addr,
            final(self).frequ == old(self).frequ,
    {
        self.out_enable.set_low()
    }

    /// Replace the OCT field of the cached register, leaving the DAC and
    /// CNF fields untouched.
    fn set_oct(&mut self, oct: u16)
        requires
            oct < 16,
        ensures
            final(self).reg == pack_oct(old(self).reg, oct),
            final(self).i2c == old(self).i2c,
            final(self).addr == old(self).addr,
            final(self).frequ == old(self).frequ,
            final(self).out_enable == old(self).out_enable,
    {
        self.reg = (self.reg & !0xf000) | (oct << 12);
    }

    /// The OCT field of the cached register.
    pub fn get_oct(&self) -> (oct: u16)
        ensures
            oct == oct_of(self.reg),
            oct < 16,
    {
        let r: u16 = self.reg;
        proof {
            assert(((r & 0xf000) >> 12) < 16) by (bit_vector);
        }
        (r & 0xf000) >> 12
    }

    /// Replace the DAC field of the cached register, leaving the OCT and
    /// CNF fields untouched.
    fn set_dac(&mut self, dac: u16)
        requires
            dac < 1024,
        ensures
            final(self).reg == pack_dac(old(self).reg, dac),
            final(self).i2c == old(self).i2c,
            final(self).addr == old(self).addr,
            final(self).frequ == old(self).frequ,
            final(self).out_enable == old(self).out_enable,
    {
        self.reg = (self.reg & !0x0ffc) | (dac << 2);
    }

    /// The DAC field of the cached register.
    pub fn get_dac(&self) -> (dac: u16)
        ensures
            dac == dac_of(self.reg),
            dac < 1024,
    {
        let r: u16 = self.reg;
        proof {
            assert(((r & 0x0ffc) >> 2) < 1024) by (bit_vector);
        }
        (r & 0x0ffc) >> 2
    }

    /// Replace the CNF field of the cached register, leaving the OCT and
    /// DAC fields untouched.
    fn set_cnf(&mut self, cnf: u16)
        requires
            cnf < 4,
        ensures
            final(self).reg == pack_cnf(old(self).reg, cnf),
            final(self).i2c == old(self).i2c,
            final(self).addr == old(self).addr,
            final(self).frequ == old(self).frequ,
            final(self).out_enable == old(self).out_enable,
    {
        self.reg = (self.reg & !0x0003) | cnf;
    }

    /// The CNF field of the cached register.
    pub fn get_cnf(&self) -> (cnf: u16)
        ensures
            cnf == cnf_of(self.reg),
            cnf < 4,
    {
        let r: u16 = self.reg;
        proof {
            assert((r & 0x0003) < 4) by (bit_vector);
        }
        r & 0x0003
    }

    /// The whole cached register word.
    pub fn get_reg(&self) -> (reg: u16)
        ensures
            reg == self.reg,
    {
        self.reg
    }

    /// Read the device's current register: one two-byte bus read from the
    /// device address, interpreted most significant byte first, overwrites
    /// the cached register. The cached frequency is left as it was — the
    /// register does not determine it (see the type's documentation). On a
    /// transport error the cache is unchanged and the error is handed back
    /// verbatim.
    pub fn refresh(&mut self) -> (r: Result<(), I2C::Error>)
        ensures
            final(self).addr == old(self).addr,
            final(self).frequ == old(self).frequ,
            final(self).out_enable == old(self).out_enable,
            r is Err ==> final(self).reg == old(self).reg,
    {
        let a = self.addr.to_bits();
        match self.i2c.read_two(a) {
            Ok(b) => {
                self.reg = word_from_bytes(b.0, b.1);
                Ok(())
            },
            Err(e) => Err(e),
        }
    }

    /// Commit the cached register to the device: one two-byte bus write of
    /// the register, most significant byte first, addressed to the
    /// device's 7-bit address. Nothing of the cache changes, whether the
    /// transport reports success or hands back its error.
    pub fn write_out(&mut self) -> (r: Result<(), I2C::Error>)
        ensures
            final(self).reg == old(self).reg,
            final(self).addr == old(self).addr,
            final(self).frequ == old(self).frequ,
            final(self).out_enable == old(self).out_enable,
    {
        let a = self.addr.to_bits();
        let b = reg_to_bytes(self.reg);
        self.i2c.write_two(a, b.0, b.1)
    }

    /// Set the CNF field of the cached register to the given output
    /// configuration. Cache only: the device changes only on the next
    /// [`LTC6904::write_out`].
    pub fn set_output_conf(&mut self, output: OutputSettings)
        ensures
            final(self).reg == pack_cnf(old(self).reg, settings_to_bits(output)),
            cnf_of(final(self).reg) == settings_to_bits(output),
            oct_of(final(self).reg) == oct_of(old(self).reg),
            dac_of(final(self).reg) == dac_of(old(self).reg),
            final(self).i2c == old(self).i2c,
            final(self).addr == old(self).addr,
            final(self).frequ == old(self).frequ,
            final(self).out_enable == old(self).out_enable,
    {
        let bits = output.to_bits();
        self.set_cnf(bits);
        proof {
            lemma_pack_cnf(old(self).reg, settings_to_bits(output));
        }
    }

    /// The output configuration named by the CNF field of the cached
    /// register.
    pub fn get_output_conf(&self) -> (s: OutputSettings)
        ensures
            s == settings_from_bits(cnf_of(self.reg)),
    {
        OutputSettings::from_bits(self.get_cnf())
    }

    /// Encode a requested frequency into the cached register: resolve the
    /// octave band, compute the DAC value by the closed form, and pack
    /// both fields, leaving the CNF field untouched; the frequency is
    /// recorded as the new cached frequency and the updated register word
    /// is returned. A frequency outside [`FREQU_MIN`, `FREQU_MAX`] is
    /// rejected as `TooLow` or `TooHigh` with nothing mutated. Cache only:
    /// the device changes only on the next [`LTC6904::write_out`].
    pub fn set_frequency(&mut self, f: u32) -> (r: Result<u16, FrequencyError>)
        ensures
            f < FREQU_MIN ==> r == Err::<u16, FrequencyError>(FrequencyError::TooLow)
                && *final(self) == *old(self),
            f > FREQU_MAX ==> r == Err::<u16, FrequencyError>(FrequencyError::TooHigh)
                && *final(self) == *old(self),
            FREQU_MIN <= f && f <= FREQU_MAX ==> ({
                &&& r == Ok::<u16, FrequencyError>(final(self).reg)
                &&& final(self).frequ == f
                &&& oct_of(final(self).reg) == spec_oct(f)
                &&& dac_of(final(self).reg) == spec_dac(f, spec_oct(f))
                &&& cnf_of(final(self).reg) == cnf_of(old(self).reg)
                &&& final(self).i2c == old(self).i2c
                &&& final(self).addr == old(self).addr
                &&& final(self).out_enable == old(self).out_enable
            }),
    {
        let oct = match calc_oct(f) {
            Ok(oct) => oct,
            Err(e) => {
                return Err(e);
            },
        };
        proof {
            lemma_oct_in_range(f);
        }
        let dac = calc_dac(f, oct);
        self.frequ = f;
        self.set_oct(oct);
        self.set_dac(dac);
        proof {
            lemma_pack_oct(old(self).reg, spec_oct(f));
            lemma_pack_dac(pack_oct(old(self).reg, spec_oct(f)), spec_dac(f, spec_oct(f)));
        }
        Ok(self.reg)
    }

    /// The last frequency successfully requested, in Hz. Not derived from
    /// the register: after [`LTC6904::refresh`] it still reports the last
    /// value this driver was asked for.
    pub fn get_frequency(&self) -> (f: u32)
        ensures
            f == self.frequ,
    {
        self.frequ
    }

    /// Close the session and hand the bus handle back, leaving the
    /// device's last committed register untouched.
    pub fn free(self) -> (i2c: I2C)
        ensures
            i2c == self.i2c,
    {
        self.i2c
    }
}

} // verus!

//! Behavioral tests for the oscillator driver, run against in-memory
//! mock implementations of the bus and line capabilities.

use ltc6904::{Address, FrequencyError, I2cBus, LTC6904, OutputLine, OutputSettings};

/// Bus mock: records every two-byte write, answers reads from a fixed
/// payload, and can be switched to fail every transaction.
struct MockBus {
    writes: Vec<(u8, u8, u8)>,
    read_addrs: Vec<u8>,
    next_read: (u8, u8),
    fail: bool,
}

impl MockBus {
    fn new() -> MockBus {
        MockBus { writes: Vec::new(), read_addrs: Vec::new(), next_read: (0, 0), fail: false }
    }
}

impl I2cBus for MockBus {
    type Error = u8;

    fn write_two(&mut self, addr: u8, hi: u8, lo: u8) -> Result<(), u8> {
        if self.fail {
            return Err(7);
        }
        self.writes.push((addr, hi, lo));
        Ok(())
    }

    fn read_two(&mut self, addr: u8) -> Result<(u8, u8), u8> {
        if self.fail {
            return Err(9);
        }
        self.read_addrs.push(addr);
        Ok(self.next_read)
    }
}

/// Line mock: remembers the last level driven, and can be switched to
/// fail.
struct MockPin {
    level: Option<bool>,
    fail: bool,
}

impl MockPin {
    fn new() -> MockPin {
        MockPin { level: None, fail: false }
    }
}

impl OutputLine for MockPin {
    type Error = i32;

    fn set_high(&mut self) -> Result<(), i32> {
        if self.fail {
            return Err(-1);
        }
        self.level = Some(true);
        Ok(())
    }

    fn set_low(&mut self) -> Result<(), i32> {
        if self.fail {
            return Err(-2);
        }
        self.level = Some(false);
        Ok(())
    }
}

fn session(address: Address) -> LTC6904<MockBus, MockPin> {
    LTC6904::new(MockBus::new(), address, MockPin::new())
}

#[test]
fn new_session_starts_at_minimum() {
    let s = session(Address::AddressLow);
    assert_eq!(s.get_reg(), 0);
    assert_eq!(s.get_frequency(), 1_039);
    assert_eq!(s.get_oct(), 0);
    assert_eq!(s.get_dac(), 0);
    assert_eq!(s.get_cnf(), 0);
}

#[test]
fn set_frequency_round_trips_packed_fields() {
    // (frequency, expected octave, expected DAC value)
    let cases: Vec<(u32, u16, u16)> = vec![
        (1_039, 0, 0),
        (1_500, 0, 630),
        (2_076, 0, 0),
        (2_078, 1, 0),
        (50_000, 5, 687),
        (108_000, 6, 788),
        (34_050_000, 15, 1),
        (68_030_000, 15, 0),
    ];
    for (f, oct, dac) in cases {
        let mut s = session(Address::AddressLow);
        let reg = s.set_frequency(f).unwrap();
        assert_eq!(reg, s.get_reg());
        assert_eq!(s.get_oct(), oct, "octave for {} Hz", f);
        assert_eq!(s.get_dac(), dac, "dac for {} Hz", f);
        assert_eq!(s.get_frequency(), f);
    }
}

#[test]
fn set_frequency_gap_between_bands_falls_back_to_band_zero() {
    // 2077 Hz lies in the crack between the published bands 0 and 1.
    let mut s = session(Address::AddressLow);
    s.set_frequency(2_077).unwrap();
    assert_eq!(s.get_oct(), 0);
    // 2_127_872 / 2077 truncates to 1024; 2048 - 1024 narrowed to 10 bits.
    assert_eq!(s.get_dac(), 0);
}

#[test]
fn set_frequency_too_low_leaves_state_unchanged() {
    let mut s = session(Address::AddressLow);
    s.set_frequency(108_000).unwrap();
    let reg = s.get_reg();
    for f in [0u32, 1, 1_038] {
        assert_eq!(s.set_frequency(f), Err(FrequencyError::TooLow));
        assert_eq!(s.get_reg(), reg);
        assert_eq!(s.get_frequency(), 108_000);
    }
}

#[test]
fn set_frequency_too_high_leaves_state_unchanged() {
    let mut s = session(Address::AddressLow);
    s.set_frequency(108_000).unwrap();
    let reg = s.get_reg();
    for f in [68_030_001u32, u32::MAX] {
        assert_eq!(s.set_frequency(f), Err(FrequencyError::TooHigh));
        assert_eq!(s.get_reg(), reg);
        assert_eq!(s.get_frequency(), 108_000);
    }
}

#[test]
fn fields_are_independent() {
    let mut s = session(Address::AddressLow);
    s.set_frequency(108_000).unwrap();
    let (oct, dac) = (s.get_oct(), s.get_dac());
    // Setting CNF must not alter OCT or DAC.
    for conf in [
        OutputSettings::ClkNeg,
        OutputSettings::ClkBoth,
        OutputSettings::ClkPos,
        OutputSettings::PowerDown,
    ] {
        s.set_output_conf(conf);
        assert_eq!(s.get_oct(), oct);
        assert_eq!(s.get_dac(), dac);
    }
    // Setting OCT and DAC must not alter CNF.
    s.set_output_conf(OutputSettings::ClkPos);
    s.set_frequency(50_000).unwrap();
    assert_eq!(s.get_cnf(), 2);
    assert_eq!(s.get_output_conf(), OutputSettings::ClkPos);
}

#[test]
fn output_settings_bits_round_trip() {
    let all = [
        OutputSettings::ClkNeg,
        OutputSettings::ClkBoth,
        OutputSettings::ClkPos,
        OutputSettings::PowerDown,
    ];
    for (i, conf) in all.iter().enumerate() {
        assert_eq!(conf.to_bits(), i as u16);
        assert_eq!(OutputSettings::from_bits(i as u16), *conf);
        assert_eq!(OutputSettings::from_bits(conf.to_bits()), *conf);
    }
    // Values above 3 cannot come out of the 2-bit field, but the mapping
    // is total and reads them as power-down.
    assert_eq!(OutputSettings::from_bits(17), OutputSettings::PowerDown);
}

#[test]
fn output_conf_reaches_register_and_back() {
    let mut s = session(Address::AddressLow);
    for conf in [
        OutputSettings::PowerDown,
        OutputSettings::ClkNeg,
        OutputSettings::ClkPos,
        OutputSettings::ClkBoth,
    ] {
        s.set_output_conf(conf);
        assert_eq!(s.get_output_conf(), conf);
        assert_eq!(s.get_cnf(), conf.to_bits());
    }
}

#[test]
fn write_out_transmits_big_endian() {
    let mut s = session(Address::AddressLow);
    s.reg = 0x1234;
    s.write_out().unwrap();
    let bus = s.free();
    assert_eq!(bus.writes, vec![(0x17, 0x12, 0x34)]);
}

#[test]
fn refresh_reads_big_endian() {
    let mut s = session(Address::AddressLow);
    s.i2c.next_read = (0xAB, 0xCD);
    s.refresh().unwrap();
    assert_eq!(s.get_reg(), 0xABCD);
    let bus = s.free();
    assert_eq!(bus.read_addrs, vec![0x17]);
}

#[test]
fn refresh_keeps_cached_frequency() {
    let mut s = session(Address::AddressLow);
    s.set_frequency(108_000).unwrap();
    s.i2c.next_read = (0x00, 0x00);
    s.refresh().unwrap();
    assert_eq!(s.get_reg(), 0);
    // The frequency cache is not derived from the register.
    assert_eq!(s.get_frequency(), 108_000);
}

#[test]
fn full_scenario_108_khz() {
    let mut s = session(Address::AddressLow);
    let reg = s.set_frequency(108_000).unwrap();
    // 108 kHz falls in band 6 (66 500 ..= 132 900 Hz);
    // 2048 - (2078 << 16) / 108000 = 2048 - 1260 = 788.
    assert_eq!(s.get_oct(), 6);
    assert_eq!(s.get_dac(), 788);
    s.set_output_conf(OutputSettings::ClkBoth);
    assert_eq!(s.get_cnf(), 0b01);
    let expected: u16 = (6 << 12) | (788 << 2) | 1;
    assert_eq!(s.get_reg(), expected);
    assert_eq!(reg | 1, expected);
    s.write_out().unwrap();
    let bus = s.free();
    assert_eq!(bus.writes, vec![(0x17, (expected >> 8) as u8, (expected & 0xff) as u8)]);
}

#[test]
fn address_select_picks_the_wired_address() {
    assert_eq!(Address::AddressLow.to_bits(), 0x17);
    assert_eq!(Address::AddressHigh.to_bits(), 0x16);

    let mut low = session(Address::AddressLow);
    low.write_out().unwrap();
    low.write_out().unwrap();
    let bus = low.free();
    assert_eq!(bus.writes, vec![(0x17, 0, 0), (0x17, 0, 0)]);

    let mut high = session(Address::AddressHigh);
    high.write_out().unwrap();
    high.i2c.next_read = (0, 0);
    high.refresh().unwrap();
    let bus = high.free();
    assert_eq!(bus.writes, vec![(0x16, 0, 0)]);
    assert_eq!(bus.read_addrs, vec![0x16]);
}

#[test]
fn enable_and_disable_drive_the_line() {
    let mut s = session(Address::AddressLow);
    s.enable_output().unwrap();
    assert_eq!(s.out_enable.level, Some(true));
    s.disable_output().unwrap();
    assert_eq!(s.out_enable.level, Some(false));
    // The line is not part of the register.
    assert_eq!(s.get_reg(), 0);
}

#[test]
fn line_errors_propagate() {
    let mut s = session(Address::AddressLow);
    s.out_enable.fail = true;
    assert_eq!(s.enable_output(), Err(-1));
    assert_eq!(s.disable_output(), Err(-2));
}

#[test]
fn bus_errors_propagate_and_cache_survives() {
    let mut s = session(Address::AddressLow);
    s.set_frequency(108_000).unwrap();
    let reg = s.get_reg();
    s.i2c.fail = true;
    assert_eq!(s.write_out(), Err(7));
    assert_eq!(s.refresh(), Err(9));
    // The cache is not rolled back: the caller retries write_out.
    assert_eq!(s.get_reg(), reg);
    assert_eq!(s.get_frequency(), 108_000);
}

#[test]
fn free_returns_the_bus_handle() {
    let mut s = session(Address::AddressLow);
    s.write_out().unwrap();
    let bus = s.free();
    assert_eq!(bus.writes.len(), 1);
}

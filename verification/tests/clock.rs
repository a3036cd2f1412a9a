use k66_hal::mcg::{fll_ref_divider, Mcg, McgRegs};
use k66_hal::registry::Registry;
use k66_hal::ConfigError;

#[test]
fn full_sequence_reaches_pll_engaged() {
    // The staged protocol: the only path to the PLL-engaged value runs
    // through the FLL-bypassed and PLL-bypassed stages, in that order; the
    // types allow no other call sequence.
    let mut reg = Registry::new();
    let mut regs = McgRegs::new(3);
    let mcg = Mcg::take(&mut reg).unwrap();

    let fbe = mcg.into_fbe(&mut regs, 16_000_000).unwrap();
    // range very high and high gain with the external reference selected
    assert_eq!(regs.c2, 0x2C);
    // external reference as output clock, divide-by-512 FLL reference,
    // internal reference left
    assert_eq!(regs.c1, 0xA0);
    // oscillator initialised, FLL reference external, output clock external
    assert_eq!(regs.s, 0x0A);

    let pbe = fbe.into_pbe(&mut regs, 2, 24).unwrap();
    // reference divider two, encoded as one
    assert_eq!(regs.c5, 0x01);
    // PLL selected, multiplier twenty-four encoded as eight
    assert_eq!(regs.c6, 0x48);
    // PLL selected and locked, output clock still external
    assert_eq!(regs.s, 0x6A);

    let _pee = pbe.into_pee(&mut regs);
    // the FLL/PLL switch drives the output clock
    assert_eq!(regs.c1, 0x20);
    // the output-clock-source status field reads the PLL's own code
    assert_eq!((regs.s >> 2) & 0x3, 0b11);
    assert_eq!(regs.s, 0x6E);
}

#[test]
fn polls_consume_the_settling_delay() {
    let mut reg = Registry::new();
    let mut regs = McgRegs::new(10);
    let mcg = Mcg::take(&mut reg).unwrap();
    let _fbe = mcg.into_fbe(&mut regs, 16_000_000).unwrap();
    assert_eq!(regs.settle, 0);
    assert_eq!(regs.latency, 10);
}

#[test]
fn zero_latency_backend_confirms_immediately() {
    let mut reg = Registry::new();
    let mut regs = McgRegs::new(0);
    let mcg = Mcg::take(&mut reg).unwrap();
    let fbe = mcg.into_fbe(&mut regs, 8_000_000).unwrap();
    // divide-by-256 for the eight megahertz crystal
    assert_eq!((regs.c1 >> 3) & 0x7, 0b011);
    let _pbe = fbe.into_pbe(&mut regs, 1, 16).unwrap();
    assert_eq!(regs.c5, 0x00);
    assert_eq!(regs.c6, 0x40);
}

#[test]
fn unsupported_crystal_is_rejected_untouched() {
    let mut reg = Registry::new();
    let mut regs = McgRegs::new(3);
    let mcg = Mcg::take(&mut reg).unwrap();
    let fbe = mcg.into_fbe(&mut regs, 12_000_000);
    assert_eq!(fbe.err(), Some(ConfigError::UnsupportedCrystalFrequency));
    assert_eq!(regs.c1, 0x04);
    assert_eq!(regs.c2, 0);
    assert_eq!(regs.s, 0x10);
}

#[test]
fn fll_reference_divider_table() {
    assert_eq!(fll_ref_divider(4_000_000), Some(2));
    assert_eq!(fll_ref_divider(8_000_000), Some(3));
    assert_eq!(fll_ref_divider(16_000_000), Some(4));
    assert_eq!(fll_ref_divider(10_000_000), None);
    assert_eq!(fll_ref_divider(0), None);
}

#[test]
fn pll_divider_out_of_range_is_rejected() {
    let mut reg = Registry::new();
    let mut regs = McgRegs::new(2);
    let mcg = Mcg::take(&mut reg).unwrap();
    let fbe = mcg.into_fbe(&mut regs, 16_000_000).unwrap();
    let c5_before = regs.c5;
    let c6_before = regs.c6;
    let pbe = fbe.into_pbe(&mut regs, 0, 24);
    assert_eq!(pbe.err(), Some(ConfigError::PllDividerOutOfRange));
    assert_eq!(regs.c5, c5_before);
    assert_eq!(regs.c6, c6_before);
}

#[test]
fn pll_divider_nine_is_rejected() {
    let mut reg = Registry::new();
    let mut regs = McgRegs::new(2);
    let mcg = Mcg::take(&mut reg).unwrap();
    let fbe = mcg.into_fbe(&mut regs, 16_000_000).unwrap();
    let pbe = fbe.into_pbe(&mut regs, 9, 24);
    assert_eq!(pbe.err(), Some(ConfigError::PllDividerOutOfRange));
}

#[test]
fn pll_multiplier_out_of_range_is_rejected() {
    let mut reg = Registry::new();
    let mut regs = McgRegs::new(2);
    let mcg = Mcg::take(&mut reg).unwrap();
    let fbe = mcg.into_fbe(&mut regs, 16_000_000).unwrap();
    let c5_before = regs.c5;
    let c6_before = regs.c6;
    let pbe = fbe.into_pbe(&mut regs, 2, 48);
    assert_eq!(pbe.err(), Some(ConfigError::PllMultiplierOutOfRange));
    assert_eq!(regs.c5, c5_before);
    assert_eq!(regs.c6, c6_before);
}

#[test]
fn pll_multiplier_fifteen_is_rejected() {
    let mut reg = Registry::new();
    let mut regs = McgRegs::new(2);
    let mcg = Mcg::take(&mut reg).unwrap();
    let fbe = mcg.into_fbe(&mut regs, 16_000_000).unwrap();
    let pbe = fbe.into_pbe(&mut regs, 2, 15);
    assert_eq!(pbe.err(), Some(ConfigError::PllMultiplierOutOfRange));
}

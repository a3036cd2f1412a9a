//! The multipurpose clock generator: the staged clock-source protocol.
//!
//! The device starts on its internal reference with the FLL engaged and must
//! be walked, stage by hardware-mandated stage, to the PLL-engaged external
//! configuration: first the external crystal is selected and confirmed, then
//! the PLL is configured and locked behind the scenes, then the output clock
//! is switched over to it. Each stage is a consuming operation on a typed
//! value, so a program that skips or reorders a stage is rejected when it is
//! compiled, not at run time.
//!
//! Every transition writes its control registers and then busy-polls the
//! status register until the hardware confirms the change; there is no
//! timeout, because proceeding on an unconfirmed clock is worse than a
//! visible hang. In this model the status register settles to the value the
//! control registers call for after a bounded number of reads - the `settle`
//! countdown of [`McgRegs`], re-armed by every control write - which is how
//! a harness keeps the polls finite while the contracts still speak only of
//! what the status showed.

use crate::bits::{
    lemma_small_shifts, spec_u8_set_bit, spec_u8_set_field, u8_bit, u8_field, u8_get_bit,
    u8_get_field, u8_set_bit, u8_set_field,
};
use crate::registry::{BlockId, Registry};
use crate::ConfigError;
use vstd::prelude::*;

verus! {

/// The image of the clock generator's registers that the protocol touches:
/// control registers one, two, five and six, and the status register, with
/// the settling model of the status bits.
pub struct McgRegs {
    /// Control one: output clock selection, FLL reference divider, internal
    /// reference selection.
    pub c1: u8,
    /// Control two: oscillator frequency range, gain, external reference
    /// selection.
    pub c2: u8,
    /// Control five: PLL external reference divider.
    pub c5: u8,
    /// Control six: PLL selection and VCO multiplier.
    pub c6: u8,
    /// Status: the confirmation bits the poll loops watch.
    pub s: u8,
    /// How many more status reads return the stale value before the status
    /// settles to what the control registers call for.
    pub settle: u32,
    /// The settling delay that every control write re-arms `settle` to.
    pub latency: u32,
}

/// The output-clock-source status field implied by the control registers:
/// the internal or external reference as selected, or the PLL once control
/// one hands the switch to the FLL/PLL side while control six selects the
/// PLL.
pub open spec fn mcg_target_clkst(c1: u8, c6: u8) -> u8 {
    if u8_field(c1, 6, 2) == 1 {
        1
    } else if u8_field(c1, 6, 2) == 2 {
        2
    } else if u8_field(c1, 6, 2) == 0 && u8_bit(c6, 6) {
        3
    } else {
        0
    }
}

/// The status value the hardware settles to for the given control values:
/// oscillator initialised when the external reference is selected, the FLL
/// reference source following the internal-reference select, the output
/// clock source as selected, and the PLL selected and locked when control
/// six asks for it.
pub open spec fn mcg_target_status(c1: u8, c2: u8, c6: u8) -> u8 {
    (if u8_bit(c2, 2) {
        0x02u8
    } else {
        0u8
    }) | (mcg_target_clkst(c1, c6) << 2u8) | (if u8_bit(c1, 2) {
        0x10u8
    } else {
        0u8
    }) | (if u8_bit(c6, 6) {
        0x60u8
    } else {
        0u8
    })
}

proof fn lemma_target_status_bits(c1: u8, c2: u8, c6: u8)
    by (bit_vector)
    ensures
        u8_bit(mcg_target_status(c1, c2, c6), 1) == u8_bit(c2, 2),
        u8_bit(mcg_target_status(c1, c2, c6), 4) == u8_bit(c1, 2),
        u8_field(mcg_target_status(c1, c2, c6), 2, 2) == mcg_target_clkst(c1, c6),
        u8_bit(mcg_target_status(c1, c2, c6), 5) == u8_bit(c6, 6),
        u8_bit(mcg_target_status(c1, c2, c6), 6) == u8_bit(c6, 6),
{
}

fn target_status(c1: u8, c2: u8, c6: u8) -> (r: u8)
    ensures
        r == mcg_target_status(c1, c2, c6),
{
    let clks = u8_get_field(c1, 6, 2);
    let clkst: u8 = if clks == 1 {
        1
    } else if clks == 2 {
        2
    } else if clks == 0 && u8_get_bit(c6, 6) {
        3
    } else {
        0
    };
    let osc: u8 = if u8_get_bit(c2, 2) {
        0x02
    } else {
        0
    };
    let iref: u8 = if u8_get_bit(c1, 2) {
        0x10
    } else {
        0
    };
    let pll: u8 = if u8_get_bit(c6, 6) {
        0x60
    } else {
        0
    };
    osc | (clkst << 2u8) | iref | pll
}

impl McgRegs {
    /// A register image in reset state - internal reference selected and the
    /// status already confirming it - whose status settles `latency` reads
    /// after each control write.
    pub fn new(latency: u32) -> (r: McgRegs)
        ensures
            r.c1 == 0x04,
            r.c2 == 0,
            r.c5 == 0,
            r.c6 == 0,
            r.s == 0x10,
            r.settle == latency,
            r.latency == latency,
    {
        McgRegs { c1: 0x04, c2: 0, c5: 0, c6: 0, s: 0x10, settle: latency, latency }
    }

    /// Writes control register one and re-arms the status settling delay.
    pub fn write_c1(&mut self, v: u8)
        ensures
            final(self).c1 == v,
            final(self).c2 == old(self).c2,
            final(self).c5 == old(self).c5,
            final(self).c6 == old(self).c6,
            final(self).s == old(self).s,
            final(self).latency == old(self).latency,
            final(self).settle == old(self).latency,
    {
        self.c1 = v;
        self.settle = self.latency;
    }

    /// Writes control register two and re-arms the status settling delay.
    pub fn write_c2(&mut self, v: u8)
        ensures
            final(self).c2 == v,
            final(self).c1 == old(self).c1,
            final(self).c5 == old(self).c5,
            final(self).c6 == old(self).c6,
            final(self).s == old(self).s,
            final(self).latency == old(self).latency,
            final(self).settle == old(self).latency,
    {
        self.c2 = v;
        self.settle = self.latency;
    }

    /// Writes control register five and re-arms the status settling delay.
    pub fn write_c5(&mut self, v: u8)
        ensures
            final(self).c5 == v,
            final(self).c1 == old(self).c1,
            final(self).c2 == old(self).c2,
            final(self).c6 == old(self).c6,
            final(self).s == old(self).s,
            final(self).latency == old(self).latency,
            final(self).settle == old(self).latency,
    {
        self.c5 = v;
        self.settle = self.latency;
    }

    /// Writes control register six and re-arms the status settling delay.
    pub fn write_c6(&mut self, v: u8)
        ensures
            final(self).c6 == v,
            final(self).c1 == old(self).c1,
            final(self).c2 == old(self).c2,
            final(self).c5 == old(self).c5,
            final(self).s == old(self).s,
            final(self).latency == old(self).latency,
            final(self).settle == old(self).latency,
    {
        self.c6 = v;
        self.settle = self.latency;
    }

    /// One read of the status register. While the settling delay runs, the
    /// read returns the stale status and counts the delay down; once it has
    /// run out, the status holds the value the control registers call for.
    pub fn read_status(&mut self) -> (r: u8)
        ensures
            final(self).c1 == old(self).c1,
            final(self).c2 == old(self).c2,
            final(self).c5 == old(self).c5,
            final(self).c6 == old(self).c6,
            final(self).latency == old(self).latency,
            old(self).settle > 0 ==> final(self).settle == old(self).settle - 1 && final(self).s
                == old(self).s,
            old(self).settle == 0 ==> final(self).settle == 0 && final(self).s == mcg_target_status(
                old(self).c1,
                old(self).c2,
                old(self).c6,
            ),
            r == final(self).s,
    {
        if self.settle > 0 {
            self.settle = self.settle - 1;
        } else {
            self.s = target_status(self.c1, self.c2, self.c6);
        }
        self.s
    }
}

/// One condition a poll loop waits for on the status register.
#[derive(Clone, Copy)]
enum StatusCheck {
    /// The numbered status bit reads as one.
    BitSet(u8),
    /// The numbered status bit reads as zero.
    BitClear(u8),
    /// The two-bit output-clock-source field reads as the given code.
    ClockSource(u8),
}

spec fn status_check_wf(k: StatusCheck) -> bool {
    match k {
        StatusCheck::BitSet(i) => i < 8,
        StatusCheck::BitClear(i) => i < 8,
        StatusCheck::ClockSource(v) => v < 4,
    }
}

spec fn status_check_holds(k: StatusCheck, s: u8) -> bool {
    match k {
        StatusCheck::BitSet(i) => u8_bit(s, i),
        StatusCheck::BitClear(i) => !u8_bit(s, i),
        StatusCheck::ClockSource(v) => u8_field(s, 2, 2) == v,
    }
}

fn status_check(s: u8, k: StatusCheck) -> (r: bool)
    requires
        status_check_wf(k),
    ensures
        r == status_check_holds(k, s),
{
    match k {
        StatusCheck::BitSet(i) => u8_get_bit(s, i),
        StatusCheck::BitClear(i) => !u8_get_bit(s, i),
        StatusCheck::ClockSource(v) => u8_get_field(s, 2, 2) == v,
    }
}

/// Busy-polls the status register until the condition is observed. The
/// condition must hold of the status the control registers call for, so the
/// wait ends once the status has settled; on return the condition held of
/// the last status read, and the status register holds either the stale
/// value that already satisfied it or the settled one.
fn poll_until(regs: &mut McgRegs, k: StatusCheck)
    requires
        status_check_wf(k),
        status_check_holds(
            k,
            mcg_target_status(old(regs).c1, old(regs).c2, old(regs).c6),
        ),
    ensures
        final(regs).c1 == old(regs).c1,
        final(regs).c2 == old(regs).c2,
        final(regs).c5 == old(regs).c5,
        final(regs).c6 == old(regs).c6,
        final(regs).latency == old(regs).latency,
        final(regs).settle <= old(regs).settle,
        final(regs).s == old(regs).s || (final(regs).s == mcg_target_status(
            old(regs).c1,
            old(regs).c2,
            old(regs).c6,
        ) && final(regs).settle == 0),
        status_check_holds(k, final(regs).s),
{
    let ghost r0 = *regs;
    loop
        invariant
            status_check_wf(k),
            regs.c1 == r0.c1,
            regs.c2 == r0.c2,
            regs.c5 == r0.c5,
            regs.c6 == r0.c6,
            regs.latency == r0.latency,
            status_check_holds(k, mcg_target_status(r0.c1, r0.c2, r0.c6)),
            regs.settle <= r0.settle,
            regs.s == r0.s || (regs.s == mcg_target_status(r0.c1, r0.c2, r0.c6) && regs.settle
                == 0),
        ensures
            regs.c1 == r0.c1,
            regs.c2 == r0.c2,
            regs.c5 == r0.c5,
            regs.c6 == r0.c6,
            regs.latency == r0.latency,
            regs.settle <= r0.settle,
            regs.s == r0.s || (regs.s == mcg_target_status(r0.c1, r0.c2, r0.c6) && regs.settle
                == 0),
            status_check_holds(k, regs.s),
        decreases regs.settle,
    {
        let s = regs.read_status();
        if status_check(s, k) {
            break ;
        }
    }
}

/// The FLL reference divider validated for each supported crystal, as a
/// code for control register one. With the oscillator range set to very
/// high, code `n` divides by `32 * 2^n`: a 4, 8 or 16 megahertz crystal is
/// divided by 128, 256 or 512, landing the FLL reference at 31.25
/// kilohertz, inside its required 31.25 to 39.0625 kilohertz band. Other
/// crystals have no validated entry.
pub open spec fn spec_fll_ref_divider(crystal_hz: u32) -> Option<u8> {
    if crystal_hz == 4_000_000 {
        Some(2)
    } else if crystal_hz == 8_000_000 {
        Some(3)
    } else if crystal_hz == 16_000_000 {
        Some(4)
    } else {
        None
    }
}

/// The FLL reference divider code validated for the crystal, when there is
/// one.
pub fn fll_ref_divider(crystal_hz: u32) -> (r: Option<u8>)
    ensures
        r == spec_fll_ref_divider(crystal_hz),
{
    if crystal_hz == 4_000_000 {
        Some(2)
    } else if crystal_hz == 8_000_000 {
        Some(3)
    } else if crystal_hz == 16_000_000 {
        Some(4)
    } else {
        None
    }
}

/// Control register two selects the external crystal: very high frequency
/// range, high gain, external reference from the oscillator.
pub open spec fn external_osc_selected(c2: u8) -> bool {
    u8_field(c2, 4, 2) == 2 && u8_bit(c2, 3) && u8_bit(c2, 2)
}

/// The register imprint of the FLL-bypassed-external stage: the crystal
/// selected, the external reference driving the output clock, and the
/// internal reference left behind.
pub open spec fn fbe_configured(regs: McgRegs) -> bool {
    external_osc_selected(regs.c2) && u8_field(regs.c1, 6, 2) == 2 && !u8_bit(regs.c1, 2)
}

/// The register imprint of the PLL-bypassed-external stage: everything the
/// previous stage wrote, with the PLL now selected behind the switch.
pub open spec fn pbe_configured(regs: McgRegs) -> bool {
    fbe_configured(regs) && u8_bit(regs.c6, 6)
}

/// The register imprint of the terminal PLL-engaged stage: the crystal and
/// PLL selections of the earlier stages, with the output clock switched to
/// the FLL/PLL side.
pub open spec fn pee_configured(regs: McgRegs) -> bool {
    external_osc_selected(regs.c2) && !u8_bit(regs.c1, 2) && u8_bit(regs.c6, 6) && u8_field(
        regs.c1,
        6,
        2,
    ) == 0
}

/// FLL engaged, internal reference: the reset state of the device.
#[derive(Debug, Clone, Copy)]
pub struct StateFei;

/// FLL engaged, external reference: a mode of the device that the start-up
/// path of this core does not pass through.
#[derive(Debug, Clone, Copy)]
pub struct StateFee;

/// FLL bypassed, internal reference: a mode of the device that the start-up
/// path of this core does not pass through.
#[derive(Debug, Clone, Copy)]
pub struct StateFbi;

/// FLL bypassed, external reference: the first stage of the start-up path.
#[derive(Debug, Clone, Copy)]
pub struct StateFbe;

/// PLL bypassed, external reference: the second stage of the start-up path.
#[derive(Debug, Clone, Copy)]
pub struct StatePbe;

/// PLL engaged, external reference: the target of the start-up path.
#[derive(Debug, Clone, Copy)]
pub struct StatePee;

/// The exclusive claim on the clock generator, tagged with the protocol
/// stage the hardware has confirmed. The only way to a later stage is the
/// transition that consumes the value of the stage before it.
pub struct Mcg<State> {
    state: State,
}

impl Mcg<StateFei> {
    /// Claims the clock generator, in its reset stage: a single non-blocking
    /// attempt that returns the handle, or nothing when the block is already
    /// claimed.
    pub fn take(reg: &mut Registry) -> (r: Option<Mcg<StateFei>>)
        ensures
            r is Some <==> !old(reg).claimed(BlockId::Mcg),
            old(reg).claimed(BlockId::Mcg) ==> *final(reg) == *old(reg),
            !old(reg).claimed(BlockId::Mcg) ==> *final(reg) == old(reg).with_claim(
                BlockId::Mcg,
                true,
            ),
            final(reg).claimed(BlockId::Mcg),
            forall|b: BlockId|
                crate::registry::block_id_wf(b) && b != BlockId::Mcg ==> #[trigger] final(reg).claimed(b) == old(reg).claimed(b),
    {
        if reg.try_claim(BlockId::Mcg) {
            Some(Mcg { state: StateFei })
        } else {
            None
        }
    }

    /// The first stage: hands the clock over to the external crystal.
    ///
    /// Selects the oscillator's range, gain and external reference, selects
    /// the external reference as the output clock with the FLL reference
    /// divider validated for the crystal, leaves the internal reference, and
    /// then waits for the three confirmations in turn: the crystal
    /// initialised, the FLL reference external, and the output clock source
    /// external. A crystal with no validated divider is rejected before any
    /// register is touched; the handle is spent either way, as an
    /// unsupported crystal is a build defect of the board, not a condition
    /// to retry.
    pub fn into_fbe(self, regs: &mut McgRegs, crystal_hz: u32) -> (r: Result<
        Mcg<StateFbe>,
        ConfigError,
    >)
        ensures
            r is Ok <==> spec_fll_ref_divider(crystal_hz) is Some,
            match r {
                Ok(_) => {
                    &&& fbe_configured(*final(regs))
                    &&& spec_fll_ref_divider(crystal_hz) == Some(
                        u8_field(final(regs).c1, 3, 3),
                    )
                    &&& u8_bit(final(regs).c1, 0) == u8_bit(old(regs).c1, 0)
                    &&& u8_bit(final(regs).c1, 1) == u8_bit(old(regs).c1, 1)
                    &&& u8_bit(final(regs).c2, 0) == u8_bit(old(regs).c2, 0)
                    &&& u8_bit(final(regs).c2, 1) == u8_bit(old(regs).c2, 1)
                    &&& u8_bit(final(regs).c2, 6) == u8_bit(old(regs).c2, 6)
                    &&& u8_bit(final(regs).c2, 7) == u8_bit(old(regs).c2, 7)
                    &&& final(regs).c5 == old(regs).c5
                    &&& final(regs).c6 == old(regs).c6
                    &&& final(regs).latency == old(regs).latency
                    &&& u8_bit(final(regs).s, 1)
                    &&& !u8_bit(final(regs).s, 4)
                    &&& u8_field(final(regs).s, 2, 2) == 2
                },
                Err(e) => e == ConfigError::UnsupportedCrystalFrequency && *final(regs) == *old(
                    regs,
                ),
            },
    {
        let frdiv = match fll_ref_divider(crystal_hz) {
            Some(d) => d,
            None => {
                return Err(ConfigError::UnsupportedCrystalFrequency);
            },
        };
        proof {
            lemma_small_shifts();
        }
        let c2_0 = regs.c2;
        let c2a = u8_set_field(c2_0, 4, 2, 2);  // very high oscillator frequency range
        let c2b = u8_set_bit(c2a, 3, true);  // high gain operation
        let c2c = u8_set_bit(c2b, 2, true);  // external reference from the oscillator
        regs.write_c2(c2c);
        let c1_0 = regs.c1;
        let c1a = u8_set_field(c1_0, 6, 2, 2);  // external reference drives the output clock
        let c1b = u8_set_field(c1a, 3, 3, frdiv);  // FLL reference divider for the crystal
        let c1c = u8_set_bit(c1b, 2, false);  // leave the internal reference
        regs.write_c1(c1c);
        proof {
            assert(u8_field(c2c, 4, 2) == 2 && u8_bit(c2c, 3) && u8_bit(c2c, 2) && u8_bit(c2c, 0)
                == u8_bit(c2_0, 0) && u8_bit(c2c, 1) == u8_bit(c2_0, 1) && u8_bit(c2c, 6) == u8_bit(
                c2_0,
                6,
            ) && u8_bit(c2c, 7) == u8_bit(c2_0, 7)) by (bit_vector)
                requires
                    c2c == spec_u8_set_bit(
                        spec_u8_set_bit(spec_u8_set_field(c2_0, 4, 2, 2), 3, true),
                        2,
                        true,
                    ),
            ;
            assert(u8_field(c1c, 6, 2) == 2 && u8_field(c1c, 3, 3) == frdiv && !u8_bit(c1c, 2)
                && u8_bit(c1c, 0) == u8_bit(c1_0, 0) && u8_bit(c1c, 1) == u8_bit(c1_0, 1)) by (bit_vector)
                requires
                    frdiv < 8,
                    c1c == spec_u8_set_bit(
                        spec_u8_set_field(spec_u8_set_field(c1_0, 6, 2, 2), 3, 3, frdiv),
                        2,
                        false,
                    ),
            ;
            lemma_target_status_bits(regs.c1, regs.c2, regs.c6);
        }
        poll_until(regs, StatusCheck::BitSet(1));  // crystal oscillator initialised
        poll_until(regs, StatusCheck::BitClear(4));  // FLL reference is the external clock
        poll_until(regs, StatusCheck::ClockSource(2));  // output clock runs on the external reference
        Ok(Mcg { state: StateFbe })
    }
}

impl Mcg<StateFbe> {
    /// The second stage: configures and selects the PLL while the output
    /// clock keeps running on the external reference.
    ///
    /// Divides the external reference by `divide` (1 to 8) into the PLL,
    /// multiplies it by `multiply` (16 to 47) to the target VCO frequency,
    /// selects the PLL behind the FLL/PLL switch, and waits until the
    /// hardware confirms both that the switch observes the PLL and that the
    /// PLL has locked. An out-of-range divider or multiplier is rejected
    /// before any register is touched.
    pub fn into_pbe(self, regs: &mut McgRegs, divide: u8, multiply: u8) -> (r: Result<
        Mcg<StatePbe>,
        ConfigError,
    >)
        requires
            fbe_configured(*old(regs)),
        ensures
            r is Ok <==> (1 <= divide <= 8 && 16 <= multiply <= 47),
            match r {
                Ok(_) => {
                    &&& pbe_configured(*final(regs))
                    &&& final(regs).c1 == old(regs).c1
                    &&& final(regs).c2 == old(regs).c2
                    &&& u8_field(final(regs).c5, 0, 3) == (divide - 1) as u8
                    &&& forall|j: u8|
                        3 <= j < 8 ==> u8_bit(final(regs).c5, j) == u8_bit(old(regs).c5, j)
                    &&& u8_bit(final(regs).c6, 6)
                    &&& u8_field(final(regs).c6, 0, 5) == (multiply - 16) as u8
                    &&& u8_bit(final(regs).c6, 5) == u8_bit(old(regs).c6, 5)
                    &&& u8_bit(final(regs).c6, 7) == u8_bit(old(regs).c6, 7)
                    &&& final(regs).latency == old(regs).latency
                    &&& u8_bit(final(regs).s, 5)
                    &&& u8_bit(final(regs).s, 6)
                },
                Err(e) => {
                    &&& *final(regs) == *old(regs)
                    &&& (!(1 <= divide <= 8) ==> e == ConfigError::PllDividerOutOfRange)
                    &&& (1 <= divide <= 8 && !(16 <= multiply <= 47)
                        ==> e == ConfigError::PllMultiplierOutOfRange)
                },
            },
    {
        if divide < 1 || divide > 8 {
            return Err(ConfigError::PllDividerOutOfRange);
        }
        if multiply < 16 || multiply > 47 {
            return Err(ConfigError::PllMultiplierOutOfRange);
        }
        let dv = divide - 1;
        let mv = multiply - 16;
        proof {
            lemma_small_shifts();
        }
        let c5_0 = regs.c5;
        let c5a = u8_set_field(c5_0, 0, 3, dv);  // PLL external reference divider
        regs.write_c5(c5a);
        let c6_0 = regs.c6;
        let c6a = u8_set_field(c6_0, 0, 5, mv);  // VCO multiplier
        let c6b = u8_set_bit(c6a, 6, true);  // select the PLL behind the FLL/PLL switch
        regs.write_c6(c6b);
        proof {
            assert(u8_field(c5a, 0, 3) == dv && forall|j: u8|
                3 <= j < 8 ==> #[trigger] u8_bit(c5a, j) == u8_bit(c5_0, j)) by (bit_vector)
                requires
                    dv < 8,
                    c5a == spec_u8_set_field(c5_0, 0, 3, dv),
            ;
            assert(u8_field(c6b, 0, 5) == mv && u8_bit(c6b, 6) && u8_bit(c6b, 5) == u8_bit(c6_0, 5)
                && u8_bit(c6b, 7) == u8_bit(c6_0, 7)) by (bit_vector)
                requires
                    mv < 32,
                    c6b == spec_u8_set_bit(spec_u8_set_field(c6_0, 0, 5, mv), 6, true),
            ;
            lemma_target_status_bits(regs.c1, regs.c2, regs.c6);
        }
        poll_until(regs, StatusCheck::BitSet(5));  // the FLL/PLL switch observes the PLL
        poll_until(regs, StatusCheck::BitSet(6));  // the PLL has locked
        Ok(Mcg { state: StatePbe })
    }
}

impl Mcg<StatePbe> {
    /// The final stage: switches the output clock over to the locked PLL.
    ///
    /// Hands the output-clock switch to the FLL/PLL side - which the
    /// previous stage already pointed at the PLL - and waits until the
    /// output-clock-source status field reads the PLL's own code, distinct
    /// from the external-reference code of the first stage.
    pub fn into_pee(self, regs: &mut McgRegs) -> (r: Mcg<StatePee>)
        requires
            pbe_configured(*old(regs)),
        ensures
            pee_configured(*final(regs)),
            u8_field(final(regs).c1, 6, 2) == 0,
            forall|j: u8| j < 6 ==> u8_bit(final(regs).c1, j) == u8_bit(old(regs).c1, j),
            final(regs).c2 == old(regs).c2,
            final(regs).c5 == old(regs).c5,
            final(regs).c6 == old(regs).c6,
            final(regs).latency == old(regs).latency,
            u8_field(final(regs).s, 2, 2) == 3,
    {
        proof {
            lemma_small_shifts();
        }
        let c1_0 = regs.c1;
        let c1a = u8_set_field(c1_0, 6, 2, 0);  // the FLL/PLL switch drives the output clock
        regs.write_c1(c1a);
        proof {
            assert(u8_field(c1a, 6, 2) == 0 && forall|j: u8|
                j < 6 ==> #[trigger] u8_bit(c1a, j) == u8_bit(c1_0, j)) by (bit_vector)
                requires
                    c1a == spec_u8_set_field(c1_0, 6, 2, 0),
            ;
            lemma_target_status_bits(regs.c1, regs.c2, regs.c6);
        }
        poll_until(regs, StatusCheck::ClockSource(3));  // the output clock runs on the PLL
        Mcg { state: StatePee }
    }
}

impl<State> Mcg<State> {
    /// Releases the claim on the clock generator, whatever stage it reached.
    pub fn release(self, reg: &mut Registry)
        requires
            old(reg).claimed(BlockId::Mcg),
        ensures
            *final(reg) == old(reg).with_claim(BlockId::Mcg, false),
            !final(reg).claimed(BlockId::Mcg),
            forall|b: BlockId|
                crate::registry::block_id_wf(b) && b != BlockId::Mcg ==> #[trigger] final(reg).claimed(b) == old(reg).claimed(b),
    {
        reg.release(BlockId::Mcg);
    }
}

/// Stage ordering, the register half: the terminal PLL-engaged imprint
/// contains the imprints the two earlier stages wrote - the crystal
/// selection of the first and the PLL selection of the second - so no
/// register state can read as PLL-engaged without both. The call-order half
/// is enforced by the types themselves: the only constructor of a
/// PLL-engaged value consumes a PLL-bypassed value, whose only constructor
/// consumes an FLL-bypassed value, whose only constructor consumes the
/// reset-stage claim.
pub proof fn lemma_pee_presupposes_stages(regs: McgRegs)
    ensures
        pee_configured(regs) ==> external_osc_selected(regs.c2) && !u8_bit(regs.c1, 2) && u8_bit(
            regs.c6,
            6,
        ),
{
}

} // verus!

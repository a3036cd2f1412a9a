//! The system integration module: peripheral clock gates and system clock
//! dividers.
//!
//! A port's registers are dead until its clock gate is enabled here: writes
//! to an unclocked block are silently ignored and reads return stale values,
//! so gating comes first in every start-up sequence. The core, bus and flash
//! dividers are validated and written in one combined register write, so no
//! other bus master can observe a half-updated divider set.

use crate::bits::{
    lemma_small_shifts, lemma_u32_set_bit, spec_u32_set_bit, spec_u32_set_field, u32_bit,
    u32_field, u32_set_bit, u32_set_field,
};
use crate::port::PortName;
use crate::registry::{BlockId, Registry};
use crate::ConfigError;
use vstd::prelude::*;

verus! {

/// The image of the system integration module's registers that this core
/// touches: one clock-gating word and one divider word.
pub struct SimRegs {
    /// System clock gating control register five: the port clock gates.
    pub scgc5: u32,
    /// System clock divider register one: core, bus and flash dividers.
    pub clkdiv1: u32,
}

impl SimRegs {
    /// A register image with every gate closed and every divider field zero.
    pub fn new() -> (r: SimRegs)
        ensures
            r.scgc5 == 0,
            r.clkdiv1 == 0,
    {
        SimRegs { scgc5: 0, clkdiv1: 0 }
    }
}

/// The clock-gate flag position of each port in the gating register.
pub open spec fn port_gate_bit(p: PortName) -> u32 {
    match p {
        PortName::A => 9,
        PortName::B => 10,
        PortName::C => 11,
        PortName::D => 12,
        PortName::E => 13,
    }
}

/// The clock-gate flag position of each port in the gating register.
pub fn port_gate_index(p: PortName) -> (r: u32)
    ensures
        r == port_gate_bit(p),
{
    match p {
        PortName::A => 9,
        PortName::B => 10,
        PortName::C => 11,
        PortName::D => 12,
        PortName::E => 13,
    }
}

/// The dividers each slow their clock by a factor of 1 to 16.
pub open spec fn valid_divider(d: u8) -> bool {
    1 <= d <= 16
}

/// An exclusive claim on the system integration module.
pub struct Sim {
    _priv: (),
}

impl Sim {
    /// Claims the system integration module: a single non-blocking attempt
    /// that returns the handle, or nothing when the block is already
    /// claimed.
    pub fn take(reg: &mut Registry) -> (r: Option<Sim>)
        ensures
            r is Some <==> !old(reg).claimed(BlockId::Sim),
            old(reg).claimed(BlockId::Sim) ==> *final(reg) == *old(reg),
            !old(reg).claimed(BlockId::Sim) ==> *final(reg) == old(reg).with_claim(
                BlockId::Sim,
                true,
            ),
            final(reg).claimed(BlockId::Sim),
            forall|b: BlockId|
                crate::registry::block_id_wf(b) && b != BlockId::Sim ==> #[trigger] final(reg).claimed(b) == old(reg).claimed(b),
    {
        if reg.try_claim(BlockId::Sim) {
            Some(Sim { _priv: () })
        } else {
            None
        }
    }

    /// Releases the claim on the system integration module.
    pub fn release(self, reg: &mut Registry)
        requires
            old(reg).claimed(BlockId::Sim),
        ensures
            *final(reg) == old(reg).with_claim(BlockId::Sim, false),
            !final(reg).claimed(BlockId::Sim),
            forall|b: BlockId|
                crate::registry::block_id_wf(b) && b != BlockId::Sim ==> #[trigger] final(reg).claimed(b) == old(reg).claimed(b),
    {
        reg.release(BlockId::Sim);
    }

    /// Opens the named port's clock gate: sets that port's flag in the
    /// gating register and changes nothing else, making the port's own
    /// registers live.
    pub fn enable_clock_gate(&mut self, regs: &mut SimRegs, p: PortName)
        ensures
            *final(self) == *old(self),
            final(regs).scgc5 == spec_u32_set_bit(old(regs).scgc5, port_gate_bit(p), true),
            u32_bit(final(regs).scgc5, port_gate_bit(p)),
            forall|j: u32|
                j < 32 && j != port_gate_bit(p) ==> u32_bit(final(regs).scgc5, j) == u32_bit(
                    old(regs).scgc5,
                    j,
                ),
            final(regs).clkdiv1 == old(regs).clkdiv1,
    {
        let i = port_gate_index(p);
        regs.scgc5 = u32_set_bit(regs.scgc5, i, true);
        proof {
            lemma_u32_set_bit(old(regs).scgc5, port_gate_bit(p), true);
        }
    }

    /// Opens the clock gate of port C, the port the start-up sequence of
    /// this device drives its indicator from.
    pub fn enable_portc_clock_gate(&mut self, regs: &mut SimRegs)
        ensures
            *final(self) == *old(self),
            final(regs).scgc5 == spec_u32_set_bit(old(regs).scgc5, 11, true),
            u32_bit(final(regs).scgc5, 11),
            forall|j: u32|
                j < 32 && j != 11 ==> u32_bit(final(regs).scgc5, j) == u32_bit(old(regs).scgc5, j),
            final(regs).clkdiv1 == old(regs).clkdiv1,
    {
        self.enable_clock_gate(regs, PortName::C)
    }

    /// Validates the core, bus and flash dividers and writes all three
    /// fields of the divider register in one combined write, each encoded as
    /// the divider value minus one. A divider outside 1..=16 is rejected and
    /// the register is not touched.
    pub fn set_clock_dividers(&mut self, regs: &mut SimRegs, core: u8, bus: u8, flash: u8) -> (r:
        Result<(), ConfigError>)
        ensures
            *final(self) == *old(self),
            r is Ok <==> valid_divider(core) && valid_divider(bus) && valid_divider(flash),
            final(regs).scgc5 == old(regs).scgc5,
            match r {
                Ok(_) => {
                    &&& final(regs).clkdiv1 == spec_u32_set_field(
                        spec_u32_set_field(
                            spec_u32_set_field(old(regs).clkdiv1, 16, 4, (flash - 1) as u32),
                            24,
                            4,
                            (bus - 1) as u32,
                        ),
                        28,
                        4,
                        (core - 1) as u32,
                    )
                    &&& u32_field(final(regs).clkdiv1, 28, 4) == (core - 1) as u32
                    &&& u32_field(final(regs).clkdiv1, 24, 4) == (bus - 1) as u32
                    &&& u32_field(final(regs).clkdiv1, 16, 4) == (flash - 1) as u32
                    &&& forall|j: u32|
                        j < 32 && !(16 <= j < 20) && !(24 <= j < 32) ==> u32_bit(
                            final(regs).clkdiv1,
                            j,
                        ) == u32_bit(old(regs).clkdiv1, j)
                },
                Err(e) => e == ConfigError::DividerOutOfRange && final(regs).clkdiv1 == old(
                    regs,
                ).clkdiv1,
            },
    {
        if core < 1 || core > 16 || bus < 1 || bus > 16 || flash < 1 || flash > 16 {
            return Err(ConfigError::DividerOutOfRange);
        }
        let co: u32 = (core - 1) as u32;
        let bs: u32 = (bus - 1) as u32;
        let fl: u32 = (flash - 1) as u32;
        proof {
            lemma_small_shifts();
        }
        let v0 = regs.clkdiv1;
        let v1 = u32_set_field(v0, 16, 4, fl);
        let v2 = u32_set_field(v1, 24, 4, bs);
        let v3 = u32_set_field(v2, 28, 4, co);
        regs.clkdiv1 = v3;
        proof {
            assert(u32_field(v3, 28, 4) == co && u32_field(v3, 24, 4) == bs && u32_field(v3, 16, 4)
                == fl && forall|j: u32|
                j < 32 && !(16 <= j < 20) && !(24 <= j < 32) ==> #[trigger] u32_bit(v3, j)
                    == u32_bit(v0, j)) by (bit_vector)
                requires
                    co < 16,
                    bs < 16,
                    fl < 16,
                    v3 == spec_u32_set_field(
                        spec_u32_set_field(spec_u32_set_field(v0, 16, 4, fl), 24, 4, bs),
                        28,
                        4,
                        co,
                    ),
            ;
        }
        Ok(())
    }
}

} // verus!

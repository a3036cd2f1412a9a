//! The crystal oscillator block: load capacitance selection and enable.
//!
//! The crystal needs a configured load capacitance before the clock
//! generator may hand the system over to it. The device offers four
//! selectable load capacitors of 2, 4, 8 and 16 picofarads, so exactly the
//! even values 0 to 30 can be configured; the four select flags sit in the
//! control register in the reverse order of their weights.

use crate::bits::{u8_bit, u8_get_bit};
use crate::registry::{BlockId, Registry};
use crate::ConfigError;
use vstd::prelude::*;

verus! {

/// The image of the oscillator's control register.
pub struct OscRegs {
    /// Control register: the enable flag and the capacitance selects.
    pub cr: u8,
}

impl OscRegs {
    /// A register image with the oscillator disabled and no capacitance
    /// selected.
    pub fn new() -> (r: OscRegs)
        ensures
            r.cr == 0,
    {
        OscRegs { cr: 0 }
    }
}

/// The device can only realise even load capacitance values up to 30
/// picofarads.
pub open spec fn valid_capacitance(c: u8) -> bool {
    c % 2 == 0 && c <= 30
}

/// The control-register image that enables the oscillator with `c`
/// picofarads of load: the enable flag in bit 7, and the 2, 4, 8 and 16
/// picofarad selects in bits 3 down to 0 - the reverse of the weight order
/// of the bits of `c` itself.
pub open spec fn spec_osc_cr(c: u8) -> u8 {
    (if u8_bit(c, 1) {
        0x08u8
    } else {
        0u8
    }) | (if u8_bit(c, 2) {
        0x04u8
    } else {
        0u8
    }) | (if u8_bit(c, 3) {
        0x02u8
    } else {
        0u8
    }) | (if u8_bit(c, 4) {
        0x01u8
    } else {
        0u8
    }) | 0x80u8
}

/// An exclusive claim on the oscillator block.
pub struct Osc {
    _priv: (),
}

impl Osc {
    /// Claims the oscillator block: a single non-blocking attempt that
    /// returns the handle, or nothing when the block is already claimed.
    pub fn take(reg: &mut Registry) -> (r: Option<Osc>)
        ensures
            r is Some <==> !old(reg).claimed(BlockId::Osc),
            old(reg).claimed(BlockId::Osc) ==> *final(reg) == *old(reg),
            !old(reg).claimed(BlockId::Osc) ==> *final(reg) == old(reg).with_claim(
                BlockId::Osc,
                true,
            ),
            final(reg).claimed(BlockId::Osc),
            forall|b: BlockId|
                crate::registry::block_id_wf(b) && b != BlockId::Osc ==> #[trigger] final(reg).claimed(b) == old(reg).claimed(b),
    {
        if reg.try_claim(BlockId::Osc) {
            Some(Osc { _priv: () })
        } else {
            None
        }
    }

    /// Releases the claim on the oscillator block.
    pub fn release(self, reg: &mut Registry)
        requires
            old(reg).claimed(BlockId::Osc),
        ensures
            *final(reg) == old(reg).with_claim(BlockId::Osc, false),
            !final(reg).claimed(BlockId::Osc),
            forall|b: BlockId|
                crate::registry::block_id_wf(b) && b != BlockId::Osc ==> #[trigger] final(reg).claimed(b) == old(reg).claimed(b),
    {
        reg.release(BlockId::Osc);
    }

    /// Enables the crystal oscillator with the requested load capacitance.
    /// An odd value or one above 30 picofarads is rejected and the register
    /// is not touched; a valid value writes the enable flag and the four
    /// bit-reversed capacitance selects in one register write.
    pub fn enable(&mut self, regs: &mut OscRegs, capacitance: u8) -> (r: Result<(), ConfigError>)
        ensures
            *final(self) == *old(self),
            r is Ok <==> valid_capacitance(capacitance),
            match r {
                Ok(_) => {
                    &&& final(regs).cr == spec_osc_cr(capacitance)
                    &&& u8_bit(final(regs).cr, 7)
                    &&& u8_bit(final(regs).cr, 3) == u8_bit(capacitance, 1)
                    &&& u8_bit(final(regs).cr, 2) == u8_bit(capacitance, 2)
                    &&& u8_bit(final(regs).cr, 1) == u8_bit(capacitance, 3)
                    &&& u8_bit(final(regs).cr, 0) == u8_bit(capacitance, 4)
                    &&& !u8_bit(final(regs).cr, 4)
                    &&& !u8_bit(final(regs).cr, 5)
                    &&& !u8_bit(final(regs).cr, 6)
                },
                Err(e) => e == ConfigError::CapacitanceOutOfRange && *final(regs) == *old(regs),
            },
    {
        if capacitance % 2 == 1 || capacitance > 30 {
            return Err(ConfigError::CapacitanceOutOfRange);
        }
        let s2: u8 = if u8_get_bit(capacitance, 1) {
            0x08
        } else {
            0
        };
        let s4: u8 = if u8_get_bit(capacitance, 2) {
            0x04
        } else {
            0
        };
        let s8: u8 = if u8_get_bit(capacitance, 3) {
            0x02
        } else {
            0
        };
        let s16: u8 = if u8_get_bit(capacitance, 4) {
            0x01
        } else {
            0
        };
        let cr = s2 | s4 | s8 | s16 | 0x80;
        regs.cr = cr;
        proof {
            let c = capacitance;
            assert(u8_bit(spec_osc_cr(c), 7) && u8_bit(spec_osc_cr(c), 3) == u8_bit(c, 1) && u8_bit(
                spec_osc_cr(c),
                2,
            ) == u8_bit(c, 2) && u8_bit(spec_osc_cr(c), 1) == u8_bit(c, 3) && u8_bit(
                spec_osc_cr(c),
                0,
            ) == u8_bit(c, 4) && !u8_bit(spec_osc_cr(c), 4) && !u8_bit(spec_osc_cr(c), 5) && !u8_bit(
                spec_osc_cr(c),
                6,
            )) by (bit_vector);
        }
        Ok(())
    }
}

/// The capacitance encoding is one to one: two distinct valid capacitance
/// values never select the same control-register image.
pub proof fn lemma_capacitance_encoding_injective(a: u8, b: u8)
    by (bit_vector)
    requires
        valid_capacitance(a),
        valid_capacitance(b),
        a != b,
    ensures
        spec_osc_cr(a) != spec_osc_cr(b),
{
}

} // verus!

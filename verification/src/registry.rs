//! The resource registry: process-wide exclusivity for singleton hardware.
//!
//! Every peripheral block and every pin of every port is an exclusively owned
//! singleton. The registry keeps one availability flag per identity; a claim
//! is a single non-blocking check-and-set that either hands the identity out
//! or reports it taken, and a release makes it available again. The handle
//! types of the other modules are created only through a successful claim
//! and are consumed on release, so a live handle can never be duplicated and
//! a release can never happen twice.

use crate::bits::{
    lemma_u32_set_bit, lemma_u8_set_bit, spec_u32_set_bit, spec_u8_set_bit, u32_bit, u32_get_bit,
    u32_set_bit, u8_bit, u8_get_bit, u8_set_bit,
};
use crate::port::PortName;
use vstd::prelude::*;

verus! {

/// The identity of one claimable singleton: a peripheral block, or a single
/// pin within a port.
#[derive(Clone, Copy, Debug, PartialEq, Eq, Structural)]
pub enum BlockId {
    /// The system integration module (clock gates and dividers).
    Sim,
    /// The multipurpose clock generator.
    Mcg,
    /// The crystal oscillator block.
    Osc,
    /// One whole port block.
    Port(PortName),
    /// One pin, indexed 0 to 31, within a port.
    Pin(PortName, u8),
}

/// Pin indices run from 0 to 31; every other identity is unconditionally
/// meaningful.
pub open spec fn block_id_wf(id: BlockId) -> bool {
    match id {
        BlockId::Pin(_, n) => n < 32,
        _ => true,
    }
}

/// The flag position of a port in the port availability mask.
pub open spec fn port_bit(p: PortName) -> u8 {
    match p {
        PortName::A => 0,
        PortName::B => 1,
        PortName::C => 2,
        PortName::D => 3,
        PortName::E => 4,
    }
}

/// The flag position of a port in the port availability mask.
pub fn port_index(p: PortName) -> (r: u8)
    ensures
        r == port_bit(p),
{
    match p {
        PortName::A => 0,
        PortName::B => 1,
        PortName::C => 2,
        PortName::D => 3,
        PortName::E => 4,
    }
}

/// Availability flags for every claimable identity: one bit or boolean per
/// singleton, nothing else.
pub struct Registry {
    sim: bool,
    mcg: bool,
    osc: bool,
    ports: u8,
    pins_a: u32,
    pins_b: u32,
    pins_c: u32,
    pins_d: u32,
    pins_e: u32,
}

impl Registry {
    /// The taken-mask of one port's 32 pins.
    pub closed spec fn pin_mask(self, p: PortName) -> u32 {
        match p {
            PortName::A => self.pins_a,
            PortName::B => self.pins_b,
            PortName::C => self.pins_c,
            PortName::D => self.pins_d,
            PortName::E => self.pins_e,
        }
    }

    /// Whether the identity is currently claimed.
    pub closed spec fn claimed(self, id: BlockId) -> bool {
        match id {
            BlockId::Sim => self.sim,
            BlockId::Mcg => self.mcg,
            BlockId::Osc => self.osc,
            BlockId::Port(p) => u8_bit(self.ports, port_bit(p)),
            BlockId::Pin(p, n) => u32_bit(self.pin_mask(p), n as u32),
        }
    }

    /// The registry with one identity's flag forced to `v` and every other
    /// flag as it was.
    pub closed spec fn with_claim(self, id: BlockId, v: bool) -> Registry {
        match id {
            BlockId::Sim => Registry { sim: v, ..self },
            BlockId::Mcg => Registry { mcg: v, ..self },
            BlockId::Osc => Registry { osc: v, ..self },
            BlockId::Port(p) => Registry {
                ports: spec_u8_set_bit(self.ports, port_bit(p), v),
                ..self
            },
            BlockId::Pin(p, n) => self.with_pin_mask(p, spec_u32_set_bit(self.pin_mask(p), n as u32, v)),
        }
    }

    /// The registry with one port's pin mask replaced.
    pub closed spec fn with_pin_mask(self, p: PortName, m: u32) -> Registry {
        match p {
            PortName::A => Registry { pins_a: m, ..self },
            PortName::B => Registry { pins_b: m, ..self },
            PortName::C => Registry { pins_c: m, ..self },
            PortName::D => Registry { pins_d: m, ..self },
            PortName::E => Registry { pins_e: m, ..self },
        }
    }

    /// A registry in which nothing has been claimed yet.
    pub fn new() -> (r: Registry)
        ensures
            forall|id: BlockId| block_id_wf(id) ==> !(#[trigger] r.claimed(id)),
    {
        proof {
            assert(forall|i: u8| i < 8 ==> !u8_bit(0u8, i)) by (bit_vector);
            assert(forall|i: u32| i < 32 ==> !u32_bit(0u32, i)) by (bit_vector);
        }
        Registry {
            sim: false,
            mcg: false,
            osc: false,
            ports: 0,
            pins_a: 0,
            pins_b: 0,
            pins_c: 0,
            pins_d: 0,
            pins_e: 0,
        }
    }

    /// Forcing one identity's flag changes that flag and no other.
    pub proof fn lemma_with_claim(self, id: BlockId, v: bool, b: BlockId)
        requires
            block_id_wf(id),
            block_id_wf(b),
        ensures
            self.with_claim(id, v).claimed(b) == if b == id {
                v
            } else {
                self.claimed(b)
            },
    {
        match id {
            BlockId::Port(p) => {
                lemma_u8_set_bit(self.ports, port_bit(p), v);
            },
            BlockId::Pin(p, n) => {
                lemma_u32_set_bit(self.pin_mask(p), n as u32, v);
            },
            _ => {},
        }
    }

    fn read_pin_mask(&self, p: PortName) -> (r: u32)
        ensures
            r == self.pin_mask(p),
    {
        match p {
            PortName::A => self.pins_a,
            PortName::B => self.pins_b,
            PortName::C => self.pins_c,
            PortName::D => self.pins_d,
            PortName::E => self.pins_e,
        }
    }

    fn write_pin_mask(&mut self, p: PortName, m: u32)
        ensures
            *final(self) == old(self).with_pin_mask(p, m),
    {
        match p {
            PortName::A => self.pins_a = m,
            PortName::B => self.pins_b = m,
            PortName::C => self.pins_c = m,
            PortName::D => self.pins_d = m,
            PortName::E => self.pins_e = m,
        }
    }

    /// One non-blocking claim attempt: checks the identity's flag and, when
    /// it was free, sets it. Returns whether the claim was granted; a refusal
    /// leaves the registry exactly as it was.
    pub fn try_claim(&mut self, id: BlockId) -> (r: bool)
        requires
            block_id_wf(id),
        ensures
            r == !old(self).claimed(id),
            old(self).claimed(id) ==> *final(self) == *old(self),
            !old(self).claimed(id) ==> *final(self) == old(self).with_claim(id, true),
            final(self).claimed(id),
            forall|b: BlockId|
                block_id_wf(b) && b != id ==> #[trigger] final(self).claimed(b) == old(self).claimed(b),
    {
        let granted = match id {
            BlockId::Sim => {
                if self.sim {
                    false
                } else {
                    self.sim = true;
                    true
                }
            },
            BlockId::Mcg => {
                if self.mcg {
                    false
                } else {
                    self.mcg = true;
                    true
                }
            },
            BlockId::Osc => {
                if self.osc {
                    false
                } else {
                    self.osc = true;
                    true
                }
            },
            BlockId::Port(p) => {
                let i = port_index(p);
                if u8_get_bit(self.ports, i) {
                    false
                } else {
                    self.ports = u8_set_bit(self.ports, i, true);
                    true
                }
            },
            BlockId::Pin(p, n) => {
                let mask = self.read_pin_mask(p);
                if u32_get_bit(mask, n as u32) {
                    false
                } else {
                    self.write_pin_mask(p, u32_set_bit(mask, n as u32, true));
                    true
                }
            },
        };
        proof {
            if !old(self).claimed(id) {
                old(self).lemma_with_claim(id, true, id);
                assert forall|b: BlockId| block_id_wf(b) && b != id implies final(self).claimed(b)
                    == old(self).claimed(b) by {
                    old(self).lemma_with_claim(id, true, b);
                }
            }
        }
        granted
    }

    /// Releases a claimed identity, making it available again. Each handle
    /// type calls this exactly once, from the method that consumes it, so a
    /// double release of a live handle is ruled out at the type level.
    pub fn release(&mut self, id: BlockId)
        requires
            block_id_wf(id),
            old(self).claimed(id),
        ensures
            *final(self) == old(self).with_claim(id, false),
            !final(self).claimed(id),
            forall|b: BlockId|
                block_id_wf(b) && b != id ==> #[trigger] final(self).claimed(b) == old(self).claimed(b),
    {
        match id {
            BlockId::Sim => self.sim = false,
            BlockId::Mcg => self.mcg = false,
            BlockId::Osc => self.osc = false,
            BlockId::Port(p) => {
                let i = port_index(p);
                self.ports = u8_set_bit(self.ports, i, false);
            },
            BlockId::Pin(p, n) => {
                let mask = self.read_pin_mask(p);
                self.write_pin_mask(p, u32_set_bit(mask, n as u32, false));
            },
        }
        proof {
            old(self).lemma_with_claim(id, false, id);
            assert forall|b: BlockId| block_id_wf(b) && b != id implies final(self).claimed(b)
                == old(self).claimed(b) by {
                old(self).lemma_with_claim(id, false, b);
            }
        }
    }
}

/// Exclusivity law for every resource identity: an unclaimed identity can be
/// claimed; while that claim is live, the same identity reads as claimed (so
/// a second claim attempt is refused) and every other identity keeps its
/// state; after the release, the identity is available again.
pub proof fn lemma_claim_release_cycle(r: Registry, id: BlockId, other: BlockId)
    requires
        block_id_wf(id),
        block_id_wf(other),
        !r.claimed(id),
    ensures
        r.with_claim(id, true).claimed(id),
        !r.with_claim(id, true).with_claim(id, false).claimed(id),
        other != id ==> r.with_claim(id, true).claimed(other) == r.claimed(other),
        other != id ==> r.with_claim(id, true).with_claim(id, false).claimed(other) == r.claimed(
            other,
        ),
{
    let taken = r.with_claim(id, true);
    r.lemma_with_claim(id, true, id);
    r.lemma_with_claim(id, true, other);
    taken.lemma_with_claim(id, false, id);
    taken.lemma_with_claim(id, false, other);
}

} // verus!

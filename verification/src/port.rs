//! Port control and GPIO: claimed ports, claimed pins, and typed pin roles.
//!
//! A claimed port hands out its pins one at a time through the resource
//! registry; a claimed pin is then moved, consuming step by consuming step,
//! into a GPIO input, then a GPIO output, or into a validated alternate
//! function. Each role exposes only the operations that are legal for it, so
//! using a pin in the wrong role is rejected when the program is compiled,
//! not at run time.
//!
//! The port's registers are modelled as plain integer images: the per-pin
//! control words of the control block, and the data-output, data-input and
//! data-direction words of the GPIO block. Output writes go through the
//! dedicated set, clear and toggle registers, which rewrite single bits in
//! one write and so leave no read-modify-write window.

use crate::bits::{
    lemma_small_shifts, lemma_u32_flip_bit, lemma_u32_set_bit, lemma_u32_set_field, spec_u32_set_bit,
    spec_u32_set_field, u32_bit, u32_field, u32_get_bit, u32_set_bit, u32_set_field,
};
use crate::registry::{BlockId, Registry};
use crate::ConfigError;
use vstd::prelude::*;

verus! {

/// The five physical ports of the device.
#[derive(Clone, Copy, Debug, PartialEq, Eq, Structural)]
pub enum PortName {
    A,
    B,
    C,
    D,
    E,
}

/// The image of one port's control block: the 32 per-pin control words. On
/// the device the pin multiplexer field of each word sits in bits 8 to 10.
pub struct PortControlRegs {
    /// The port this register block belongs to (a specification-only tag).
    pub owner: Ghost<PortName>,
    /// One pin control word per pin index.
    pub pcr: Vec<u32>,
}

/// The image of one port's GPIO block: data output, data input and data
/// direction. The dedicated set, clear and toggle registers are modelled as
/// the single-write operations below rather than as stored words, which is
/// how the device treats them.
pub struct PortGpioRegs {
    /// The port this register block belongs to (a specification-only tag).
    pub owner: Ghost<PortName>,
    /// Port data output register: the level driven on each output pin.
    pub pdor: u32,
    /// Port data input register: the level observed on each pin.
    pub pdir: u32,
    /// Port data direction register: one bit per pin, set for output.
    pub pddr: u32,
}

impl PortControlRegs {
    /// The port this register block belongs to.
    pub open spec fn owner(self) -> PortName {
        self.owner@
    }

    /// The image always holds exactly one control word per pin.
    pub open spec fn wf(self) -> bool {
        self.pcr@.len() == 32
    }

    /// A control block image in reset state: every pin control word zero.
    pub fn new(name: PortName) -> (r: PortControlRegs)
        ensures
            r.wf(),
            r.owner() == name,
            forall|i: int| 0 <= i < 32 ==> r.pcr@[i] == 0,
    {
        let mut pcr: Vec<u32> = Vec::new();
        let mut i: usize = 0;
        while i < 32
            invariant
                i <= 32,
                pcr@.len() == i,
                forall|k: int| 0 <= k < i ==> pcr@[k] == 0,
            decreases 32 - i,
        {
            pcr.push(0);
            i = i + 1;
        }
        PortControlRegs { owner: Ghost(name), pcr }
    }
}

impl PortGpioRegs {
    /// The port this register block belongs to.
    pub open spec fn owner(self) -> PortName {
        self.owner@
    }

    /// A GPIO block image in reset state: nothing driven, nothing observed,
    /// every pin an input.
    pub fn new(name: PortName) -> (r: PortGpioRegs)
        ensures
            r.owner() == name,
            r.pdor == 0,
            r.pdir == 0,
            r.pddr == 0,
    {
        PortGpioRegs { owner: Ghost(name), pdor: 0, pdir: 0, pddr: 0 }
    }

    /// One write to the port set-output register: every mask bit forces the
    /// matching data-output bit high, in a single write.
    pub fn write_psor(&mut self, mask: u32)
        ensures
            final(self).pdor == old(self).pdor | mask,
            final(self).pdir == old(self).pdir,
            final(self).pddr == old(self).pddr,
            final(self).owner() == old(self).owner(),
    {
        self.pdor = self.pdor | mask;
    }

    /// One write to the port clear-output register: every mask bit forces the
    /// matching data-output bit low, in a single write.
    pub fn write_pcor(&mut self, mask: u32)
        ensures
            final(self).pdor == old(self).pdor & (!mask),
            final(self).pdir == old(self).pdir,
            final(self).pddr == old(self).pddr,
            final(self).owner() == old(self).owner(),
    {
        self.pdor = self.pdor & (!mask);
    }

    /// One write to the port toggle-output register: every mask bit inverts
    /// the matching data-output bit, in a single write.
    pub fn write_ptor(&mut self, mask: u32)
        ensures
            final(self).pdor == old(self).pdor ^ mask,
            final(self).pdir == old(self).pdir,
            final(self).pddr == old(self).pddr,
            final(self).owner() == old(self).owner(),
    {
        self.pdor = self.pdor ^ mask;
    }
}

/// An exclusive claim on one whole port block.
pub struct Port {
    name: PortName,
}

impl Port {
    /// The identity of the claimed port.
    pub closed spec fn name_spec(self) -> PortName {
        self.name
    }

    /// The claimed port's identity, for callers that route register blocks.
    pub fn name(&self) -> (r: PortName)
        ensures
            r == self.name_spec(),
    {
        self.name
    }

    /// Claims the named port from the registry: a single non-blocking
    /// attempt that returns the port handle, or nothing when the port is
    /// already claimed.
    pub fn take(reg: &mut Registry, name: PortName) -> (r: Option<Port>)
        ensures
            r is Some <==> !old(reg).claimed(BlockId::Port(name)),
            old(reg).claimed(BlockId::Port(name)) ==> *final(reg) == *old(reg),
            !old(reg).claimed(BlockId::Port(name)) ==> *final(reg) == old(reg).with_claim(
                BlockId::Port(name),
                true,
            ),
            final(reg).claimed(BlockId::Port(name)),
            forall|b: BlockId|
                crate::registry::block_id_wf(b) && b != BlockId::Port(name) ==> #[trigger] final(reg).claimed(b) == old(reg).claimed(b),
            r matches Some(p) ==> p.name_spec() == name,
    {
        if reg.try_claim(BlockId::Port(name)) {
            Some(Port { name })
        } else {
            None
        }
    }

    /// Claims one pin index of this port from the registry. The claim is
    /// keyed by the pair of port identity and pin index, so every pin of
    /// every port is its own singleton.
    pub fn take_pin(&self, reg: &mut Registry, num: u8) -> (r: Option<Pin>)
        requires
            num < 32,
        ensures
            r is Some <==> !old(reg).claimed(BlockId::Pin(self.name_spec(), num)),
            old(reg).claimed(BlockId::Pin(self.name_spec(), num)) ==> *final(reg) == *old(reg),
            !old(reg).claimed(BlockId::Pin(self.name_spec(), num)) ==> *final(reg) == old(
                reg,
            ).with_claim(BlockId::Pin(self.name_spec(), num), true),
            final(reg).claimed(BlockId::Pin(self.name_spec(), num)),
            forall|b: BlockId|
                crate::registry::block_id_wf(b) && b != BlockId::Pin(self.name_spec(), num)
                    ==> #[trigger] final(reg).claimed(b) == old(reg).claimed(b),
            r matches Some(p) ==> p.wf() && p.port_name() == self.name_spec() && p.num() == num,
    {
        if reg.try_claim(BlockId::Pin(self.name, num)) {
            Some(Pin { port: self.name, num })
        } else {
            None
        }
    }

    /// Releases the port claim. Every pin of the port must have been
    /// released first: a pin handle must not outlive the port it came from.
    pub fn release(self, reg: &mut Registry)
        requires
            old(reg).claimed(BlockId::Port(self.name_spec())),
            forall|n: u8| n < 32 ==> !old(reg).claimed(BlockId::Pin(self.name_spec(), n)),
        ensures
            *final(reg) == old(reg).with_claim(BlockId::Port(self.name_spec()), false),
            !final(reg).claimed(BlockId::Port(self.name_spec())),
            forall|b: BlockId|
                crate::registry::block_id_wf(b) && b != BlockId::Port(self.name_spec())
                    ==> #[trigger] final(reg).claimed(b) == old(reg).claimed(b),
    {
        reg.release(BlockId::Port(self.name));
    }
}

/// An exclusive claim on one pin, not yet given a role.
pub struct Pin {
    port: PortName,
    num: u8,
}

/// The table of validated alternate-function routings: the serial pairs of
/// this device, each on multiplexer function code 3.
pub open spec fn spec_alt_function_allowed(p: PortName, n: u8, f: u8) -> bool {
    f == 3 && ((p == PortName::B && (n == 16 || n == 17)) || (p == PortName::C && (n == 3 || n
        == 4)) || (p == PortName::D && (n == 2 || n == 3)))
}

/// Whether the static routing table validates the requested function for the
/// pin.
pub fn alt_function_allowed(p: PortName, n: u8, f: u8) -> (r: bool)
    ensures
        r == spec_alt_function_allowed(p, n, f),
{
    f == 3 && match p {
        PortName::B => n == 16 || n == 17,
        PortName::C => n == 3 || n == 4,
        PortName::D => n == 2 || n == 3,
        _ => false,
    }
}

impl Pin {
    /// The port this pin belongs to.
    pub closed spec fn port_name(self) -> PortName {
        self.port
    }

    /// The pin's index within its port.
    pub closed spec fn num(self) -> u8 {
        self.num
    }

    /// Pin indices run from 0 to 31.
    pub open spec fn wf(self) -> bool {
        self.num() < 32
    }

    /// Configures the pin's multiplexer to the GPIO function and moves the
    /// pin into the GPIO input role. Only the multiplexer field of this
    /// pin's control word changes; every other pin's word is untouched.
    pub fn into_gpio(self, ctrl: &mut PortControlRegs) -> (r: GpioInputPin)
        requires
            self.wf(),
            old(ctrl).wf(),
            old(ctrl).owner() == self.port_name(),
        ensures
            final(ctrl).wf(),
            final(ctrl).owner() == old(ctrl).owner(),
            r.wf(),
            r.port_name() == self.port_name(),
            r.num() == self.num(),
            final(ctrl).pcr@ == old(ctrl).pcr@.update(
                self.num() as int,
                spec_u32_set_field(old(ctrl).pcr@[self.num() as int], 8, 3, 1),
            ),
            u32_field(final(ctrl).pcr@[self.num() as int], 8, 3) == 1,
            forall|j: u32|
                j < 32 && !(8 <= j < 11) ==> u32_bit(final(ctrl).pcr@[self.num() as int], j)
                    == u32_bit(old(ctrl).pcr@[self.num() as int], j),
    {
        let idx = self.num as usize;
        let cur = ctrl.pcr[idx];
        proof {
            lemma_small_shifts();
        }
        ctrl.pcr[idx] = u32_set_field(cur, 8, 3, 1);
        proof {
            lemma_u32_set_field(cur, 8, 3, 1);
        }
        GpioInputPin { pin: self }
    }

    /// Configures the pin's multiplexer to a validated alternate function.
    /// A routing outside the static table is rejected and no register is
    /// touched; the pin handle itself is spent either way, as the failure is
    /// a configuration defect, not a run-time condition to recover from.
    pub fn into_alt(self, ctrl: &mut PortControlRegs, function: u8) -> (r: Result<
        AltFunctionPin,
        ConfigError,
    >)
        requires
            self.wf(),
            old(ctrl).wf(),
            old(ctrl).owner() == self.port_name(),
        ensures
            final(ctrl).wf(),
            final(ctrl).owner() == old(ctrl).owner(),
            r is Ok <==> spec_alt_function_allowed(self.port_name(), self.num(), function),
            r is Err ==> *final(ctrl) == *old(ctrl) && (r matches Err(e) && e
                == ConfigError::UnsupportedAltFunction),
            r matches Ok(a) ==> a.wf() && a.port_name() == self.port_name() && a.num() == self.num()
                && a.function() == function && final(ctrl).pcr@ == old(ctrl).pcr@.update(
                self.num() as int,
                spec_u32_set_field(old(ctrl).pcr@[self.num() as int], 8, 3, function as u32),
            ) && u32_field(final(ctrl).pcr@[self.num() as int], 8, 3) == function as u32,
    {
        if !alt_function_allowed(self.port, self.num, function) {
            return Err(ConfigError::UnsupportedAltFunction);
        }
        let idx = self.num as usize;
        let cur = ctrl.pcr[idx];
        proof {
            lemma_small_shifts();
        }
        ctrl.pcr[idx] = u32_set_field(cur, 8, 3, function as u32);
        proof {
            lemma_u32_set_field(cur, 8, 3, function as u32);
        }
        Ok(AltFunctionPin { pin: self, function })
    }

    /// Releases the pin claim without having given the pin a role.
    pub fn release(self, reg: &mut Registry)
        requires
            self.wf(),
            old(reg).claimed(BlockId::Pin(self.port_name(), self.num())),
        ensures
            *final(reg) == old(reg).with_claim(BlockId::Pin(self.port_name(), self.num()), false),
            !final(reg).claimed(BlockId::Pin(self.port_name(), self.num())),
            forall|b: BlockId|
                crate::registry::block_id_wf(b) && b != BlockId::Pin(self.port_name(), self.num())
                    ==> #[trigger] final(reg).claimed(b) == old(reg).claimed(b),
    {
        reg.release(BlockId::Pin(self.port, self.num));
    }
}

/// A pin configured as a GPIO input.
pub struct GpioInputPin {
    pin: Pin,
}

impl GpioInputPin {
    /// The port this pin belongs to.
    pub closed spec fn port_name(self) -> PortName {
        self.pin.port_name()
    }

    /// The pin's index within its port.
    pub closed spec fn num(self) -> u8 {
        self.pin.num()
    }

    /// Pin indices run from 0 to 31.
    pub open spec fn wf(self) -> bool {
        self.num() < 32
    }

    /// Sets the pin's data-direction bit and moves it into the GPIO output
    /// role. Only this pin's direction bit changes.
    pub fn into_output(self, gpio: &mut PortGpioRegs) -> (r: GpioOutputPin)
        requires
            self.wf(),
            old(gpio).owner() == self.port_name(),
        ensures
            r.wf(),
            r.port_name() == self.port_name(),
            r.num() == self.num(),
            final(gpio).owner() == old(gpio).owner(),
            final(gpio).pddr == spec_u32_set_bit(old(gpio).pddr, self.num() as u32, true),
            u32_bit(final(gpio).pddr, self.num() as u32),
            forall|j: u32|
                j < 32 && j != self.num() as u32 ==> u32_bit(final(gpio).pddr, j) == u32_bit(
                    old(gpio).pddr,
                    j,
                ),
            final(gpio).pdor == old(gpio).pdor,
            final(gpio).pdir == old(gpio).pdir,
    {
        gpio.pddr = u32_set_bit(gpio.pddr, self.pin.num as u32, true);
        proof {
            lemma_u32_set_bit(old(gpio).pddr, self.pin.num() as u32, true);
        }
        GpioOutputPin { pin: self.pin }
    }

    /// Reads the pin's level from the data-input register: one register
    /// read, masked to this pin's bit.
    pub fn read(&self, gpio: &PortGpioRegs) -> (r: bool)
        requires
            self.wf(),
            gpio.owner() == self.port_name(),
        ensures
            r == u32_bit(gpio.pdir, self.num() as u32),
    {
        u32_get_bit(gpio.pdir, self.pin.num as u32)
    }

    /// Releases the pin claim, giving the index back to the registry.
    pub fn release(self, reg: &mut Registry)
        requires
            self.wf(),
            old(reg).claimed(BlockId::Pin(self.port_name(), self.num())),
        ensures
            *final(reg) == old(reg).with_claim(BlockId::Pin(self.port_name(), self.num()), false),
            !final(reg).claimed(BlockId::Pin(self.port_name(), self.num())),
            forall|b: BlockId|
                crate::registry::block_id_wf(b) && b != BlockId::Pin(self.port_name(), self.num())
                    ==> #[trigger] final(reg).claimed(b) == old(reg).claimed(b),
    {
        reg.release(BlockId::Pin(self.pin.port, self.pin.num));
    }
}

/// A pin configured as a GPIO output.
pub struct GpioOutputPin {
    pin: Pin,
}

impl GpioOutputPin {
    /// The port this pin belongs to.
    pub closed spec fn port_name(self) -> PortName {
        self.pin.port_name()
    }

    /// The pin's index within its port.
    pub closed spec fn num(self) -> u8 {
        self.pin.num()
    }

    /// Pin indices run from 0 to 31.
    pub open spec fn wf(self) -> bool {
        self.num() < 32
    }

    /// Drives the pin high with one write to the dedicated set register:
    /// this pin's output bit becomes one and no other bit changes.
    pub fn high(&mut self, gpio: &mut PortGpioRegs)
        requires
            old(self).wf(),
            old(gpio).owner() == old(self).port_name(),
        ensures
            *final(self) == *old(self),
            final(gpio).owner() == old(gpio).owner(),
            final(gpio).pdor == spec_u32_set_bit(old(gpio).pdor, old(self).num() as u32, true),
            u32_bit(final(gpio).pdor, old(self).num() as u32),
            forall|j: u32|
                j < 32 && j != old(self).num() as u32 ==> u32_bit(final(gpio).pdor, j) == u32_bit(
                    old(gpio).pdor,
                    j,
                ),
            final(gpio).pddr == old(gpio).pddr,
            final(gpio).pdir == old(gpio).pdir,
    {
        gpio.write_psor(1u32 << (self.pin.num as u32));
        proof {
            lemma_u32_set_bit(old(gpio).pdor, old(self).num() as u32, true);
        }
    }

    /// Drives the pin low with one write to the dedicated clear register:
    /// this pin's output bit becomes zero and no other bit changes.
    pub fn low(&mut self, gpio: &mut PortGpioRegs)
        requires
            old(self).wf(),
            old(gpio).owner() == old(self).port_name(),
        ensures
            *final(self) == *old(self),
            final(gpio).owner() == old(gpio).owner(),
            final(gpio).pdor == spec_u32_set_bit(old(gpio).pdor, old(self).num() as u32, false),
            !u32_bit(final(gpio).pdor, old(self).num() as u32),
            forall|j: u32|
                j < 32 && j != old(self).num() as u32 ==> u32_bit(final(gpio).pdor, j) == u32_bit(
                    old(gpio).pdor,
                    j,
                ),
            final(gpio).pddr == old(gpio).pddr,
            final(gpio).pdir == old(gpio).pdir,
    {
        gpio.write_pcor(1u32 << (self.pin.num as u32));
        proof {
            lemma_u32_set_bit(old(gpio).pdor, old(self).num() as u32, false);
        }
    }

    /// Inverts the pin with one write to the dedicated toggle register: this
    /// pin's output bit flips exactly once and no other bit changes.
    pub fn toggle(&mut self, gpio: &mut PortGpioRegs)
        requires
            old(self).wf(),
            old(gpio).owner() == old(self).port_name(),
        ensures
            *final(self) == *old(self),
            final(gpio).owner() == old(gpio).owner(),
            final(gpio).pdor == old(gpio).pdor ^ (1u32 << (old(self).num() as u32)),
            u32_bit(final(gpio).pdor, old(self).num() as u32) == !u32_bit(
                old(gpio).pdor,
                old(self).num() as u32,
            ),
            forall|j: u32|
                j < 32 && j != old(self).num() as u32 ==> u32_bit(final(gpio).pdor, j) == u32_bit(
                    old(gpio).pdor,
                    j,
                ),
            final(gpio).pddr == old(gpio).pddr,
            final(gpio).pdir == old(gpio).pdir,
    {
        gpio.write_ptor(1u32 << (self.pin.num as u32));
        proof {
            lemma_u32_flip_bit(old(gpio).pdor, old(self).num() as u32);
        }
    }

    /// Releases the pin claim, giving the index back to the registry.
    pub fn release(self, reg: &mut Registry)
        requires
            self.wf(),
            old(reg).claimed(BlockId::Pin(self.port_name(), self.num())),
        ensures
            *final(reg) == old(reg).with_claim(BlockId::Pin(self.port_name(), self.num()), false),
            !final(reg).claimed(BlockId::Pin(self.port_name(), self.num())),
            forall|b: BlockId|
                crate::registry::block_id_wf(b) && b != BlockId::Pin(self.port_name(), self.num())
                    ==> #[trigger] final(reg).claimed(b) == old(reg).claimed(b),
    {
        reg.release(BlockId::Pin(self.pin.port, self.pin.num));
    }
}

/// A pin routed to a validated alternate function.
pub struct AltFunctionPin {
    pin: Pin,
    function: u8,
}

impl AltFunctionPin {
    /// The port this pin belongs to.
    pub closed spec fn port_name(self) -> PortName {
        self.pin.port_name()
    }

    /// The pin's index within its port.
    pub closed spec fn num(self) -> u8 {
        self.pin.num()
    }

    /// The multiplexer function code the pin was routed to.
    pub closed spec fn function(self) -> u8 {
        self.function
    }

    /// Pin indices run from 0 to 31.
    pub open spec fn wf(self) -> bool {
        self.num() < 32
    }

    /// Releases the pin claim, giving the index back to the registry.
    pub fn release(self, reg: &mut Registry)
        requires
            self.wf(),
            old(reg).claimed(BlockId::Pin(self.port_name(), self.num())),
        ensures
            *final(reg) == old(reg).with_claim(BlockId::Pin(self.port_name(), self.num()), false),
            !final(reg).claimed(BlockId::Pin(self.port_name(), self.num())),
            forall|b: BlockId|
                crate::registry::block_id_wf(b) && b != BlockId::Pin(self.port_name(), self.num())
                    ==> #[trigger] final(reg).claimed(b) == old(reg).claimed(b),
    {
        reg.release(BlockId::Pin(self.pin.port, self.pin.num));
    }
}

/// Pin exclusivity within a port: claiming a pin index marks exactly that
/// index taken, so a second claim of the same index is refused while the
/// first is live, claims of distinct indices succeed or fail independently
/// of one another, and the port's own claim is untouched.
pub proof fn lemma_pin_claims_independent(r: Registry, p: PortName, n: u8, m: u8)
    requires
        n < 32,
        m < 32,
        !r.claimed(BlockId::Pin(p, n)),
    ensures
        r.with_claim(BlockId::Pin(p, n), true).claimed(BlockId::Pin(p, n)),
        m != n ==> r.with_claim(BlockId::Pin(p, n), true).claimed(BlockId::Pin(p, m)) == r.claimed(
            BlockId::Pin(p, m),
        ),
        r.with_claim(BlockId::Pin(p, n), true).claimed(BlockId::Port(p)) == r.claimed(
            BlockId::Port(p),
        ),
{
    r.lemma_with_claim(BlockId::Pin(p, n), true, BlockId::Pin(p, n));
    r.lemma_with_claim(BlockId::Pin(p, n), true, BlockId::Pin(p, m));
    r.lemma_with_claim(BlockId::Pin(p, n), true, BlockId::Port(p));
}

} // verus!

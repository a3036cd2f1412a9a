//! Hardware-abstraction core for a Kinetis K66-class microcontroller.
//!
//! The crate manages exclusive access to singleton peripheral blocks and to
//! the pins of each port, models typed GPIO pin roles, configures clock
//! gating and clock dividers, and sequences the multipurpose clock generator
//! from its internal reference up to a locked PLL-derived system clock.
//!
//! Every peripheral's control and status registers are modelled as plain
//! integer register images, so that each configuration step carries a
//! machine-checked contract stating exactly which bits it sets and leaves
//! alone. On the target device the same images are applied with volatile
//! writes at the documented base addresses; a test harness acts as the
//! hardware by reading and setting the image fields directly.

use vstd::prelude::*;

pub mod bits;
pub mod mcg;
pub mod osc;
pub mod port;
pub mod registry;
pub mod sim;

verus! {

/// A configuration request that the hardware cannot honour: such a value is
/// rejected at the call site and no register is touched.
#[derive(Clone, Copy, Debug, PartialEq, Eq, Structural)]
pub enum ConfigError {
    /// A core, bus or flash clock divider outside 1..=16.
    DividerOutOfRange,
    /// A crystal load capacitance that is odd or above 30 pF.
    CapacitanceOutOfRange,
    /// A crystal frequency with no hardware-validated FLL reference divider.
    UnsupportedCrystalFrequency,
    /// A PLL external reference divider outside 1..=8.
    PllDividerOutOfRange,
    /// A PLL multiplier outside 16..=47.
    PllMultiplierOutOfRange,
    /// A pin function with no validated routing for the requested pin.
    UnsupportedAltFunction,
}

} // verus!

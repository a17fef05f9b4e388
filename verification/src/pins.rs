use vstd::prelude::*;

verus! {

/// The signals on the boundary between the processor and its host.
#[derive(Clone, Copy, Debug, PartialEq, Eq, Structural)]
pub struct Pins {
    /// The address bus.
    pub address: u16,
    /// The data bus.
    pub data: u8,
    /// The direction of the cycle: `true` for a read, `false` for a write.
    pub rw: bool,
    /// The interrupt request line, sampled by level.
    pub irq: bool,
    /// The non-maskable interrupt line, sampled by its rising edge.
    pub nmi: bool,
    /// The reset line, sampled by level and latched.
    pub rst: bool,
}

impl Pins {
    /// The pins at power-up: a read of address zero with every interrupt line low.
    pub open spec fn idle() -> Pins {
        Pins { address: 0, data: 0, rw: true, irq: false, nmi: false, rst: false }
    }
}

impl Default for Pins {
    /// The pins at power-up.
    fn default() -> (pins: Pins)
        ensures
            pins == Pins::idle(),
    {
        Pins { address: 0, data: 0, rw: true, irq: false, nmi: false, rst: false }
    }
}

} // verus!

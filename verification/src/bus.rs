use vstd::prelude::*;
use crate::pins::Pins;

verus! {

/// One call of the host: the pins as they were handed to it and as it left them.
pub struct Tick {
    /// The pins as the processor handed them over.
    pub sent: Pins,
    /// The pins as the host left them.
    pub back: Pins,
}

/// The host's side of the bus: memory, peripherals and the sources of interrupts.
pub trait Bus {
    /// Every call of `tick` that the host has taken, the first one first. This is the
    /// host's own record of its calls, and says nothing of what the host does in them. A
    /// host that is verified keeps the record as ghost state and gives it here; the record
    /// given here by default is empty, which no verified host can leave it at.
    open spec fn ticks(&self) -> Seq<Tick> {
        Seq::empty()
    }

    /// Runs one bus cycle.
    ///
    /// On a read (`pins.rw` set) the host puts the byte at `pins.address` on `pins.data`; on a
    /// write it takes `pins.data` for `pins.address`. It may also drive `pins.irq`, `pins.nmi`
    /// and `pins.rst` as they stand at the end of the cycle. The processor assumes nothing of
    /// what comes back; the call is put on record, and that is all that is asked of the host.
    fn tick(&mut self, pins: &mut Pins)
        ensures
            final(self).ticks() == old(self).ticks().push(Tick { sent: *old(pins), back: *final(pins) }),
    ;
}

} // verus!

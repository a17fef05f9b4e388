use vstd::prelude::*;
use crate::pins::Pins;

verus! {

/// The software interrupt, entered by the BRK instruction.
pub const BRK: u8 = 0;

/// The maskable interrupt request.
pub const IRQ: u8 = 1;

/// The non-maskable interrupt.
pub const NMI: u8 = 2;

/// The reset.
pub const RST: u8 = 3;

/// What the processor remembers of its interrupt lines: the mathematical view of
/// [`Interrupts`].
pub struct Latches {
    /// `irq` as it stood one bus cycle earlier.
    pub prev_irq: bool,
    /// Whether the IRQ line was high, and interrupts enabled, at the last bus cycle.
    pub irq: bool,
    /// The level of the NMI line at the last bus cycle.
    pub prev_nmi: bool,
    /// `need_nmi` as it stood one bus cycle earlier.
    pub prev_need_nmi: bool,
    /// Whether a rising edge of the NMI line waits to be served.
    pub need_nmi: bool,
    /// Whether a reset waits to be served.
    pub rst: bool,
}

impl Latches {
    /// The latches at power-up: a reset is due, and nothing else.
    pub open spec fn power_up() -> Latches {
        Latches {
            prev_irq: false,
            irq: false,
            prev_nmi: false,
            prev_need_nmi: false,
            need_nmi: false,
            rst: true,
        }
    }

    /// The latches after the lines of `pins` were sampled at the end of a bus cycle, with
    /// interrupt requests disabled if `masked`.
    #[verifier::opaque]
    pub open spec fn poll(self, pins: Pins, masked: bool) -> Latches {
        Latches {
            prev_irq: self.irq,
            irq: pins.irq && !masked,
            prev_nmi: pins.nmi,
            prev_need_nmi: self.need_nmi,
            need_nmi: self.need_nmi || (!self.prev_nmi && pins.nmi),
            rst: self.rst || pins.rst,
        }
    }

    /// The interrupt to serve in place of the next instruction, if any: a reset before a
    /// non-maskable interrupt before an interrupt request.
    pub open spec fn due(self) -> Option<u8> {
        if self.rst {
            Some(RST)
        } else if self.prev_need_nmi {
            Some(NMI)
        } else if self.prev_irq {
            Some(IRQ)
        } else {
            None
        }
    }

    /// The latches once the interrupt that is due has been taken up: the reset or the edge of
    /// the NMI line is forgotten; an interrupt request stays for as long as its line is high.
    pub open spec fn acknowledge(self) -> Latches {
        if self.rst {
            Latches { rst: false, ..self }
        } else if self.prev_need_nmi {
            Latches { need_nmi: false, ..self }
        } else {
            self
        }
    }
}

/// The processor's record of its interrupt lines.
#[derive(Clone, Copy, Debug)]
pub struct Interrupts {
    prev_irq: bool,
    irq: bool,
    prev_nmi: bool,
    prev_need_nmi: bool,
    need_nmi: bool,
    rst: bool,
}

impl Interrupts {
    /// The latches that the record holds.
    pub closed spec fn view(&self) -> Latches {
        Latches {
            prev_irq: self.prev_irq,
            irq: self.irq,
            prev_nmi: self.prev_nmi,
            prev_need_nmi: self.prev_need_nmi,
            need_nmi: self.need_nmi,
            rst: self.rst,
        }
    }

    /// The record at power-up.
    pub fn power_up() -> (interrupts: Interrupts)
        ensures
            interrupts@ == Latches::power_up(),
    {
        Interrupts {
            prev_irq: false,
            irq: false,
            prev_nmi: false,
            prev_need_nmi: false,
            need_nmi: false,
            rst: true,
        }
    }

    /// Samples the interrupt lines of `pins` at the end of a bus cycle.
    pub fn poll(&mut self, pins: &Pins, masked: bool)
        ensures
            final(self)@ == old(self)@.poll(*pins, masked),
    {
        proof {
            reveal(Latches::poll);
        }
        // The lines as they stood one cycle earlier are kept: what they show at the end of
        // an instruction's second-to-last cycle decides whether an interrupt comes next.
        self.prev_irq = self.irq;
        self.irq = pins.irq && !masked;

        self.prev_need_nmi = self.need_nmi;

        // A rising edge of the NMI line stays latched until it is served.
        if !self.prev_nmi && pins.nmi {
            self.need_nmi = true;
        }
        self.prev_nmi = pins.nmi;

        if !self.rst && pins.rst {
            self.rst = pins.rst;
        }
    }

    /// Takes up the interrupt that is due, if any, and returns its kind.
    pub fn acknowledge(&mut self) -> (kind: Option<u8>)
        ensures
            kind == old(self)@.due(),
            final(self)@ == old(self)@.acknowledge(),
    {
        if self.rst {
            self.rst = false;
            Some(RST)
        } else if self.prev_need_nmi {
            self.need_nmi = false;
            Some(NMI)
        } else if self.prev_irq {
            Some(IRQ)
        } else {
            None
        }
    }
}

} // verus!

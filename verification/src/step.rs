use vstd::prelude::*;
use crate::bus::Bus;
use crate::cpu::Cpu;
use crate::interrupts::{Latches, IRQ, NMI, RST};
use crate::laws::{irq_asks, nmi_rises};
use crate::model::{Cycle, State};
use crate::status::Flag;

verus! {

impl State {
    /// The processor once the interrupt that is due, if any, has been taken up.
    pub open spec fn acknowledged(self) -> State {
        State { latch: self.latch.acknowledge(), ..self }
    }

    /// One step of the processor: where an interrupt is due, it is taken up, the byte at
    /// the program counter is read and dropped, and the interrupt is entered; otherwise
    /// the opcode at the program counter is fetched and its instruction run.
    pub open spec fn step(self, log: Seq<Cycle>) -> State {
        match self.latch.due() {
            Some(kind) => self.acknowledged().read(self.pc, log).interrupt(kind, log),
            None => self.consume_byte(log).execute(self.opcode(log), log),
        }
    }

    /// The opcode that the next step fetches, if no interrupt is due.
    pub open spec fn opcode(self, log: Seq<Cycle>) -> u8 {
        log[self.now()].back.data
    }

    /// The number of bus cycles that `step` runs: seven to enter an interrupt, and for an
    /// instruction what the timing table says, with the cycles that a page crossing or a
    /// taken branch adds.
    pub open spec fn step_cycles(self, log: Seq<Cycle>) -> nat {
        if self.latch.due() is Some {
            7
        } else {
            1 + self.consume_byte(log).execute_cycles(self.opcode(log), log)
        }
    }
}

impl<B: Bus> Cpu<B> {
    /// Executes the next instruction, or enters the interrupt that is due.
    ///
    /// The state after is what `State::step` gives for the state before and the answers of
    /// the host. The step takes the cycles of the timing table and counts them. Whatever
    /// the register held before, U reads as set after the step and B as clear. A rise of the NMI line in any bus cycle but the last makes
    /// the non-maskable interrupt due at the end; while the line does not rise, nothing is
    /// latched. An interrupt request is due at the end exactly if its line was high, and
    /// requests enabled, at the end of the second-to-last cycle. Every bus cycle of the
    /// step is one call of the host, which the state holds among the calls taken.
    pub fn step(&mut self)
        requires
            old(self).cycles + 8 <= u64::MAX,
        ensures
            final(self)@ == old(self)@.step(final(self)@.trace),
            old(self)@.acknowledged().advances(final(self)@, old(self)@.step_cycles(final(self)@.trace)),
            final(self).cycles == old(self).cycles + old(self)@.step_cycles(final(self)@.trace),
            final(self)@.p.get(Flag::U),
            !final(self)@.p.get(Flag::B),
            final(self)@.p.bits() & 0x20 != 0,
            final(self)@.p.bits() & 0x10 == 0,
            forall|k: int|
                old(self)@.now() <= k < final(self)@.now() - 1 && #[trigger] nmi_rises(final(self)@.trace, k)
                    ==> final(self)@.latch.prev_need_nmi,
            (forall|k: int|
                old(self)@.now() <= k < final(self)@.now() ==> !#[trigger] nmi_rises(final(self)@.trace, k))
                ==> final(self)@.latch.need_nmi == old(self)@.latch.acknowledge().need_nmi,
            final(self)@.latch.prev_irq == irq_asks(final(self)@.trace, final(self)@.now() - 2),
            final(self)@.latch.settled(),
    {
        let ghost taken = self@.acknowledged();
        match self.interrupts.acknowledge() {
            Some(kind) => {
                self.read_byte(self.pc);
                if kind == RST {
                    self.brk::<RST>();
                } else if kind == NMI {
                    self.brk::<NMI>();
                } else {
                    self.brk::<IRQ>();
                }
            },
            None => {
                let opcode = self.consume_byte();
                self.execute(opcode);
            },
        }
        proof {
            let after = self@;
            after.p.lemma_from_bits_of_bits();
            let n = old(self)@.step_cycles(after.trace);
            taken.law_irq_level_is_served(after, n);
            assert(after.latch.settled()) by {
                reveal(Latches::poll);
            }
            assert forall|k: int| taken.now() <= k < after.now() - 1 && #[trigger] nmi_rises(
                after.trace,
                k,
            ) implies after.latch.prev_need_nmi by {
                taken.law_nmi_edge_is_served(after, n, k);
            }
            if forall|k: int| taken.now() <= k < after.now() ==> !#[trigger] nmi_rises(after.trace, k) {
                taken.law_nmi_level_is_not_served(after, n);
            }
        }
    }
}

} // verus!

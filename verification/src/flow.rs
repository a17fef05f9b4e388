use vstd::prelude::*;
use crate::addressing::addressable;
use crate::bus::Bus;
use crate::bytes::{displace, high, low, word};
use crate::cpu::Cpu;
use crate::interrupts::{BRK, IRQ, NMI, RST};
use crate::model::{same_answers, Cycle, State};
use crate::status::{Flags, Status};

verus! {

/// Where the address of the handler of a non-maskable interrupt is kept.
pub const NMI_VECTOR: u16 = 0xfffa;

/// Where the address that a reset starts from is kept.
pub const RESET_VECTOR: u16 = 0xfffc;

/// Where the address of the handler of an interrupt request, and of BRK, is kept.
pub const IRQ_VECTOR: u16 = 0xfffe;

/// Where the address of the handler of an interrupt of `kind` is kept.
pub open spec fn vector(kind: u8) -> u16 {
    if kind == NMI {
        NMI_VECTOR
    } else if kind == RST {
        RESET_VECTOR
    } else {
        IRQ_VECTOR
    }
}

impl State {
    /// The byte after the opcode of a branch, which is its offset.
    pub open spec fn offset(self, log: Seq<Cycle>) -> u8 {
        log[self.now()].back.data
    }

    /// Whether a branch that is taken lands in another page than the one that the
    /// instruction after it starts in.
    pub open spec fn branch_crosses(self, log: Seq<Cycle>) -> bool {
        high(displace(self.pc.wrapping_add(1), self.offset(log))) != high(self.pc.wrapping_add(1))
    }

    /// A branch on `condition`: the offset is read; if the branch is taken, the next
    /// opcode is read and dropped, and if the target lies in another page, so is the byte
    /// at the target's low byte in the old page.
    #[verifier::opaque]
    pub open spec fn branch(self, condition: bool, log: Seq<Cycle>) -> State {
        let operand = self.consume_byte(log);
        if !condition {
            operand
        } else {
            let idle = operand.read(operand.pc, log);
            let target = displace(idle.pc, operand.data());
            let moved = State { pc: target, ..idle };
            if high(idle.pc) != high(target) {
                moved.read(word(low(idle.pc).wrapping_add(operand.data()), high(idle.pc)), log)
            } else {
                moved
            }
        }
    }

    /// The number of bus cycles that `branch` runs.
    pub open spec fn branch_cycles(self, condition: bool, log: Seq<Cycle>) -> nat {
        if !condition {
            1
        } else if self.branch_crosses(log) {
            3
        } else {
            2
        }
    }

    /// JMP: the effective address is the new program counter.
    pub open spec fn jmp(self, mode: u8, log: Seq<Cycle>) -> State {
        let (resolved, address) = self.resolve(mode, false, log);
        State { pc: address, ..resolved }
    }

    /// JSR: the low byte of the target is read, the stack is read idly, the address of the
    /// instruction's last byte is pushed, high byte first, and the high byte of the target
    /// is read.
    #[verifier::opaque]
    pub open spec fn jsr(self, log: Seq<Cycle>) -> State {
        let target_low = self.consume_byte(log);
        let idle = target_low.peek(log);
        let pushed = idle.push(high(idle.pc), log).push(low(idle.pc), log);
        let target_high = pushed.consume_byte(log);
        State { pc: word(target_low.data(), target_high.data()), ..target_high }
    }

    /// RTS: after two idle reads the return address is pulled, low byte first; the byte
    /// there is read and stepped over.
    #[verifier::opaque]
    pub open spec fn rts(self, log: Seq<Cycle>) -> State {
        let idle = self.read(self.pc, log).peek(log);
        let return_low = idle.pop(log);
        let return_high = return_low.pop(log);
        let address = word(return_low.data(), return_high.data());
        State { pc: address.wrapping_add(1), ..State { pc: address, ..return_high }.read(address, log) }
    }

    /// RTI: after two idle reads the status register is pulled, then the program counter,
    /// low byte first.
    #[verifier::opaque]
    pub open spec fn rti(self, log: Seq<Cycle>) -> State {
        let idle = self.read(self.pc, log).peek(log);
        let status = idle.pop(log);
        let restored = State { p: status.p.pulled(status.data()), ..status };
        let return_low = restored.pop(log);
        let return_high = return_low.pop(log);
        State { pc: word(return_low.data(), return_high.data()), ..return_high }
    }

    /// An idle read of the stack that moves the stack pointer down, as a reset does where
    /// the other interrupts push.
    pub open spec fn skip(self, log: Seq<Cycle>) -> State {
        State { s: self.s.wrapping_sub(1), ..self.peek(log) }
    }

    /// Three idle reads of the stack, the stack pointer moving down after each: what a
    /// reset does where the other interrupts push.
    #[verifier::opaque]
    pub open spec fn skipped(self, log: Seq<Cycle>) -> State {
        self.skip(log).skip(log).skip(log)
    }

    /// The program counter is pushed, high byte first, and then `status`.
    #[verifier::opaque]
    pub open spec fn saved(self, status: u8, log: Seq<Cycle>) -> State {
        self.push(high(self.pc), log).push(low(self.pc), log).push(status, log)
    }

    /// The start of the entry into an interrupt of `kind`: an idle read at the program
    /// counter, which BRK steps over.
    pub open spec fn entered(self, kind: u8, log: Seq<Cycle>) -> State {
        let idle = self.read(self.pc, log);
        if kind == BRK {
            State { pc: idle.pc.wrapping_add(1), ..idle }
        } else {
            idle
        }
    }

    /// The byte that the entry into an interrupt of `kind` pushes for the status register:
    /// the register, with B set for BRK alone.
    pub open spec fn pushed_status(self, kind: u8) -> u8 {
        self.p.pushed(kind == BRK)
    }

    /// The middle of the entry into an interrupt of `kind`: the program counter and the
    /// status register are pushed, where a reset only reads the stack.
    pub open spec fn stacked(self, kind: u8, log: Seq<Cycle>) -> State {
        if kind == RST {
            self.skipped(log)
        } else {
            self.saved(self.pushed_status(kind), log)
        }
    }

    /// The end of the entry into an interrupt of `kind`: interrupt requests are disabled,
    /// and the program counter is read from the vector.
    #[verifier::opaque]
    pub open spec fn vectored(self, kind: u8, log: Seq<Cycle>) -> State {
        let (read, target) = State { p: Flags { i: true, ..self.p }, ..self }.read_word(vector(kind), log);
        State { pc: target, ..read }
    }

    /// The entry into an interrupt of `kind`, which BRK shares: an idle read at the program
    /// counter, which BRK steps over; the program counter and the status register are
    /// pushed, with B set in the pushed byte for BRK alone, where a reset only reads the
    /// stack; interrupt requests are disabled; and the program counter is read from the
    /// vector.
    pub open spec fn interrupt(self, kind: u8, log: Seq<Cycle>) -> State {
        self.entered(kind, log).stacked(kind, log).vectored(kind, log)
    }

    /// `skipped` reads nothing of the log but the answers to its three bus cycles.
    pub(crate) proof fn lemma_skipped_reads(self, first: Seq<Cycle>, second: Seq<Cycle>)
        requires
            same_answers(first, second, self.now(), self.now() + 3),
        ensures
            self.skipped(first) == self.skipped(second),
    {
        reveal(State::skipped);
    }

    /// `saved` reads nothing of the log but the answers to its three bus cycles.
    pub(crate) proof fn lemma_saved_reads(self, status: u8, first: Seq<Cycle>, second: Seq<Cycle>)
        requires
            same_answers(first, second, self.now(), self.now() + 3),
        ensures
            self.saved(status, first) == self.saved(status, second),
    {
        reveal(State::saved);
    }
}

impl<B: Bus> Cpu<B> {
    /// Branches if `condition` holds.
    pub(crate) fn branch(&mut self, condition: bool)
        requires
            old(self).cycles + 7 <= u64::MAX,
        ensures
            final(self)@ == old(self)@.branch(condition, final(self)@.trace),
            old(self)@.advances(final(self)@, old(self)@.branch_cycles(condition, final(self)@.trace)),
    {
        proof {
            reveal(State::branch);
        }
        let offset = self.consume_byte();
        let ghost operand = self@;
        if condition {
            self.read_byte(self.pc);
            let ghost idle = self@;

            let old_pc = self.pc;
            self.pc = displace(self.pc, offset);

            if high(old_pc) != high(self.pc) {
                self.read_byte(word(low(old_pc).wrapping_add(offset), high(old_pc)));
            }
            proof {
                let log = self@.trace;
                assert(operand == old(self)@.consume_byte(log));
                assert(idle == operand.read(operand.pc, log));
            }
        }
    }

    /// JMP: the effective address is the new program counter.
    pub(crate) fn jmp<const M: u8>(&mut self)
        requires
            addressable(M),
            old(self).cycles + 7 <= u64::MAX,
        ensures
            final(self)@ == old(self)@.jmp(M, final(self)@.trace),
            old(self)@.advances(final(self)@, old(self)@.resolve_cycles(M, false, final(self)@.trace)),
    {
        self.pc = self.effective_address::<M, false>();
    }

    /// JSR: pushes the address of its own last byte and jumps.
    pub(crate) fn jsr(&mut self)
        requires
            old(self).cycles + 7 <= u64::MAX,
        ensures
            final(self)@ == old(self)@.jsr(final(self)@.trace),
            old(self)@.advances(final(self)@, 5),
    {
        proof {
            reveal(State::jsr);
        }
        let pcl = self.consume_byte();
        let ghost target_low = self@;
        self.peek();
        let ghost idle = self@;
        self.push(high(self.pc));
        let ghost first = self@;
        self.push(low(self.pc));
        let ghost pushed = self@;
        let pch = self.consume_byte();
        self.pc = word(pcl, pch);
        proof {
            let log = self@.trace;
            assert(target_low == old(self)@.consume_byte(log));
            assert(idle == target_low.peek(log));
            assert(first == idle.push(high(idle.pc), log));
            assert(pushed == first.push(low(idle.pc), log));
        }
    }

    /// RTS: pulls the return address and steps over the byte there.
    pub(crate) fn rts(&mut self)
        requires
            old(self).cycles + 7 <= u64::MAX,
        ensures
            final(self)@ == old(self)@.rts(final(self)@.trace),
            old(self)@.advances(final(self)@, 5),
    {
        proof {
            reveal(State::rts);
        }
        self.read_byte(self.pc);
        let ghost read = self@;
        self.peek();
        let ghost idle = self@;
        let pcl = self.pop();
        let ghost return_low = self@;
        let pch = self.pop();
        let ghost return_high = self@;
        self.pc = word(pcl, pch);
        self.read_byte(self.pc);
        self.pc = self.pc.wrapping_add(1);
        proof {
            let log = self@.trace;
            assert(read == old(self)@.read(old(self)@.pc, log));
            assert(idle == read.peek(log));
            assert(return_low == idle.pop(log));
            assert(return_high == return_low.pop(log));
        }
    }

    /// RTI: pulls the status register and the program counter.
    pub(crate) fn rti(&mut self)
        requires
            old(self).cycles + 7 <= u64::MAX,
        ensures
            final(self)@ == old(self)@.rti(final(self)@.trace),
            old(self)@.advances(final(self)@, 5),
    {
        proof {
            reveal(State::rti);
        }
        self.read_byte(self.pc);
        let ghost read = self@;
        self.peek();
        let ghost idle = self@;
        let status = self.pop();
        let ghost pulled = self@;
        self.p = self.p.pulled(status);
        let pcl = self.pop();
        let ghost return_low = self@;
        let pch = self.pop();
        self.pc = word(pcl, pch);
        proof {
            let log = self@.trace;
            assert(read == old(self)@.read(old(self)@.pc, log));
            assert(idle == read.peek(log));
            assert(pulled == idle.pop(log));
            assert(return_low == State { p: pulled.p.pulled(pulled.data()), ..pulled }.pop(log));
        }
    }

    /// Reads the stack idly three times, the stack pointer moving down after each.
    fn skip_pushes(&mut self)
        requires
            old(self).cycles + 3 <= u64::MAX,
        ensures
            final(self)@ == old(self)@.skipped(final(self)@.trace),
            old(self)@.advances(final(self)@, 3),
    {
        proof {
            reveal(State::skipped);
        }
        self.peek();
        self.s = self.s.wrapping_sub(1);
        self.peek();
        self.s = self.s.wrapping_sub(1);
        self.peek();
        self.s = self.s.wrapping_sub(1);
    }

    /// Pushes the program counter, high byte first, and then `status`.
    fn save(&mut self, status: u8)
        requires
            old(self).cycles + 3 <= u64::MAX,
        ensures
            final(self)@ == old(self)@.saved(status, final(self)@.trace),
            old(self)@.advances(final(self)@, 3),
    {
        proof {
            reveal(State::saved);
        }
        self.push(high(self.pc));
        self.push(low(self.pc));
        self.push(status);
    }

    /// The entry into an interrupt of kind `I`, which BRK shares.
    pub(crate) fn brk<const I: u8>(&mut self)
        requires
            I <= RST,
            old(self).cycles + 7 <= u64::MAX,
        ensures
            final(self)@ == old(self)@.interrupt(I, final(self)@.trace),
            old(self)@.advances(final(self)@, 6),
    {
        self.read_byte(self.pc);
        if I == BRK {
            self.pc = self.pc.wrapping_add(1);
        }
        let ghost entered = self@;

        if I == RST {
            // A reset goes through the motions of the pushes, but only reads.
            self.skip_pushes();
        } else {
            self.save(self.p.pushed(I == BRK));
        }
        let ghost stacked = self@;

        self.p.insert(Status::I);
        let vector = match I {
            BRK | IRQ => IRQ_VECTOR,
            NMI => NMI_VECTOR,
            RST => RESET_VECTOR,
            _ => vstd::pervasive::unreached(),
        };
        self.pc = self.read_word(vector);
        proof {
            reveal(State::vectored);
            let log = self@.trace;
            assert(entered == old(self)@.entered(I, log));
            if I == RST {
                entered.lemma_skipped_reads(stacked.trace, log);
            } else {
                entered.lemma_saved_reads(entered.pushed_status(I), stacked.trace, log);
            }
            assert(stacked == entered.stacked(I, log));
        }
    }
}

} // verus!

use vstd::prelude::*;
use crate::addressing::{
    addressable, ABSOLUTE, ABSOLUTE_X, ABSOLUTE_Y, INDEXED_INDIRECT, INDIRECT, INDIRECT_INDEXED, ZERO_PAGE_X,
    ZERO_PAGE_Y,
};
use crate::alu::modified;
use crate::bus::Tick;
use crate::bytes::{high, low, negative, stack, word};
use crate::decode::{base_cycles, decode, pays_for_crossing};
use crate::flow::vector;
use crate::interrupts::{Latches, IRQ, NMI};
use crate::model::{Cycle, State};
use crate::status::{Flag, Flags};

verus! {

/// Whether the NMI line rose in bus cycle `k` of `trace`: it was low when the cycle began
/// and high when the lines were sampled at its end.
pub open spec fn nmi_rises(trace: Seq<Cycle>, k: int) -> bool {
    trace[k].back.nmi && !trace[k].latch.prev_nmi
}

/// Whether the IRQ line was high, and interrupt requests enabled, when the lines were
/// sampled at the end of bus cycle `k` of `trace`.
pub open spec fn irq_asks(trace: Seq<Cycle>, k: int) -> bool {
    trace[k].back.irq && !trace[k].masked
}

impl State {
    /// Once the NMI line has risen in cycle `k`, the edge is held at the end of every
    /// later cycle `j`.
    proof fn lemma_edge_is_held(self, after: State, n: nat, k: int, j: int)
        requires
            self.advances(after, n),
            self.now() <= k <= j < after.now(),
            nmi_rises(after.trace, k),
        ensures
            after.trace[j].sampled().need_nmi,
        decreases j - k,
    {
        reveal(Latches::poll);
        if j > k {
            self.lemma_edge_is_held(after, n, k, j - 1);
            assert(after.trace[j].latch == after.trace[j - 1].sampled());
        }
    }

    /// The non-maskable interrupt goes by the edge: a rise of the NMI line in any bus
    /// cycle is latched, and if the cycle is not the last one, the interrupt is due when
    /// the cycles are over, unless a reset goes first.
    pub proof fn law_nmi_edge_is_served(self, after: State, n: nat, k: int)
        requires
            self.advances(after, n),
            self.now() <= k < after.now(),
            nmi_rises(after.trace, k),
        ensures
            after.latch.need_nmi,
            k < after.now() - 1 ==> after.latch.prev_need_nmi,
            k < after.now() - 1 && !after.latch.rst ==> after.latch.due() == Some(crate::interrupts::NMI),
    {
        reveal(Latches::poll);
        self.lemma_edge_is_held(after, n, k, after.now() - 1);
        if k < after.now() - 1 {
            self.lemma_edge_is_held(after, n, k, after.now() - 2);
            assert(after.trace[after.now() - 1].latch == after.trace[after.now() - 2].sampled());
        }
    }

    /// Without a rise of the NMI line nothing is latched at the end of cycle `j`.
    proof fn lemma_level_is_not_held(self, after: State, n: nat, j: int)
        requires
            self.advances(after, n),
            self.now() <= j < after.now(),
            forall|k: int| self.now() <= k < after.now() ==> !nmi_rises(after.trace, k),
        ensures
            after.trace[j].sampled().need_nmi == self.latch.need_nmi,
        decreases j - self.now(),
    {
        reveal(Latches::poll);
        assert(!nmi_rises(after.trace, j));
        if j > self.now() {
            self.lemma_level_is_not_held(after, n, j - 1);
            assert(after.trace[j].latch == after.trace[j - 1].sampled());
        }
    }

    /// The non-maskable interrupt does not go by the level: while the NMI line does not
    /// rise, be it high all the time, no interrupt is latched.
    pub proof fn law_nmi_level_is_not_served(self, after: State, n: nat)
        requires
            self.advances(after, n),
            forall|k: int| self.now() <= k < after.now() ==> !nmi_rises(after.trace, k),
        ensures
            after.latch.need_nmi == self.latch.need_nmi,
    {
        if n > 0 {
            self.lemma_level_is_not_held(after, n, after.now() - 1);
        }
    }

    /// The interrupt request goes by the level: it is due after two bus cycles or more
    /// exactly if the IRQ line was high, and interrupt requests enabled, at the end of the
    /// second-to-last cycle; a reset and a non-maskable interrupt go first.
    pub proof fn law_irq_level_is_served(self, after: State, n: nat)
        requires
            self.advances(after, n),
            n >= 2,
        ensures
            after.latch.prev_irq == irq_asks(after.trace, after.now() - 2),
            !after.latch.rst && !after.latch.prev_need_nmi ==> (after.latch.due() == Some(
                crate::interrupts::IRQ,
            ) <==> irq_asks(after.trace, after.now() - 2)),
    {
        reveal(Latches::poll);
        assert(after.trace[after.now() - 1].latch == after.trace[after.now() - 2].sampled());
    }

    /// The reset line goes by the level and is latched: a reset is due once the line was
    /// high at the end of any bus cycle.
    pub proof fn law_reset_is_latched(self, after: State, n: nat, k: int)
        requires
            self.advances(after, n),
            self.now() <= k < after.now(),
            after.trace[k].back.rst,
        ensures
            after.latch.rst,
            after.latch.due() == Some(crate::interrupts::RST),
    {
        self.lemma_reset_is_held(after, n, k, after.now() - 1);
    }

    /// Once the reset line was high at the end of cycle `k`, the reset is held at the end
    /// of every later cycle `j`.
    proof fn lemma_reset_is_held(self, after: State, n: nat, k: int, j: int)
        requires
            self.advances(after, n),
            self.now() <= k <= j < after.now(),
            after.trace[k].back.rst,
        ensures
            after.trace[j].sampled().rst,
        decreases j - k,
    {
        reveal(Latches::poll);
        if j > k {
            self.lemma_reset_is_held(after, n, k, j - 1);
            assert(after.trace[j].latch == after.trace[j - 1].sampled());
        }
    }
}

/// Whether every bus cycle of `trace` from `from` up to, not including, `to` is a read.
pub open spec fn only_reads(trace: Seq<Cycle>, from: int, to: int) -> bool {
    forall|k: int| from <= k < to ==> (#[trigger] trace[k]).sent.rw
}

/// Whether bus cycle `k` of `trace` is a read of `address`.
pub open spec fn reads_at(trace: Seq<Cycle>, k: int, address: u16) -> bool {
    trace[k].sent.rw && trace[k].sent.address == address
}

/// Whether bus cycle `k` of `trace` is a write of `data` to `address`.
pub open spec fn writes_at(trace: Seq<Cycle>, k: int, address: u16, data: u8) -> bool {
    !trace[k].sent.rw && trace[k].sent.address == address && trace[k].sent.data == data
}

impl State {
    /// The address that an indexed mode puts on the bus before the carry into the high
    /// byte is added: the low byte is the sum's, the high byte is the base's.
    pub open spec fn uncorrected(self, mode: u8, log: Seq<Cycle>) -> u16 {
        if mode == INDIRECT_INDEXED {
            word(log[self.now() + 1].back.data.wrapping_add(self.y), log[self.now() + 2].back.data)
        } else {
            word(log[self.now()].back.data.wrapping_add(self.index(mode)), log[self.now() + 1].back.data)
        }
    }

    /// `after` is `self` exactly `n` bus cycles later, all of them reads, with no register
    /// changed but the program counter.
    pub open spec fn fetches(self, after: State, n: nat) -> bool {
        &&& self.advances(after, n)
        &&& only_reads(after.trace, self.now(), after.now())
        &&& after.a == self.a
        &&& after.x == self.x
        &&& after.y == self.y
        &&& after.s == self.s
        &&& after.p == self.p
    }

    /// `zero_page_indexed` runs two read cycles.
    proof fn lemma_zero_page_indexed_fetches(self, index: u8, log: Seq<Cycle>)
        ensures
            self.fetches(self.zero_page_indexed(index, log).0, 2),
    {
        reveal(State::zero_page_indexed);
        let operand = self.consume_byte(log);
        assert(self.fetches(operand, 1));
    }

    /// `absolute_indexed` runs two read cycles, and a third, at the uncorrected address,
    /// where the low byte carries or the instruction writes.
    proof fn lemma_absolute_indexed_fetches(self, index: u8, write: bool, log: Seq<Cycle>)
        ensures
            ({
                let resolved = self.absolute_indexed(index, write, log).0;
                let low = log[self.now()].back.data;
                let high = log[self.now() + 1].back.data;
                &&& self.fetches(resolved, if write || low + index > 0xff { 3 } else { 2 })
                &&& write ==> reads_at(resolved.trace, resolved.now() - 1, word(low.wrapping_add(index), high))
            }),
    {
        reveal(State::absolute_indexed);
        let first = self.consume_byte(log);
        assert(self.fetches(first, 1));
        let second = first.consume_byte(log);
        assert(self.fetches(second, 2));
    }

    /// `indirect` runs four read cycles.
    proof fn lemma_indirect_fetches(self, log: Seq<Cycle>)
        ensures
            self.fetches(self.indirect(log).0, 4),
    {
        reveal(State::indirect);
        let operand = self.consume_word(log).0;
        assert(self.fetches(self.read(self.pc, log), 1));
        assert(self.fetches(operand, 2));
        let pointer = self.consume_word(log).1;
        assert(self.fetches(operand.read(pointer, log), 3));
    }

    /// `indexed_indirect` runs four read cycles.
    proof fn lemma_indexed_indirect_fetches(self, log: Seq<Cycle>)
        ensures
            self.fetches(self.indexed_indirect(log).0, 4),
    {
        reveal(State::indexed_indirect);
        let operand = self.consume_byte(log);
        assert(self.fetches(operand, 1));
        let idle = operand.read(operand.data() as u16, log);
        assert(self.fetches(idle, 2));
        assert(self.fetches(idle.read(operand.data().wrapping_add(self.x) as u16, log), 3));
    }

    /// `indirect_indexed` runs three read cycles, and a fourth, at the uncorrected address,
    /// where the low byte carries or the instruction writes.
    proof fn lemma_indirect_indexed_fetches(self, write: bool, log: Seq<Cycle>)
        ensures
            ({
                let resolved = self.indirect_indexed(write, log).0;
                let low = log[self.now() + 1].back.data;
                let high = log[self.now() + 2].back.data;
                &&& self.fetches(resolved, if write || low + self.y > 0xff { 4 } else { 3 })
                &&& write ==> reads_at(resolved.trace, resolved.now() - 1, word(low.wrapping_add(self.y), high))
            }),
    {
        reveal(State::indirect_indexed);
        let operand = self.consume_byte(log);
        assert(self.fetches(operand, 1));
        let first = operand.read(operand.data() as u16, log);
        assert(self.fetches(first, 2));
        let second = first.read(operand.data().wrapping_add(1) as u16, log);
        assert(self.fetches(second, 3));
    }

    /// Resolving an address only reads: it runs the number of cycles that `resolve_cycles`
    /// gives, all of them reads, and changes no register but the program counter. For an
    /// instruction that writes through an address indexed by a full register, the last of
    /// these cycles reads the uncorrected address.
    pub proof fn lemma_resolve_only_reads(self, mode: u8, write: bool, log: Seq<Cycle>)
        requires
            addressable(mode),
        ensures
            ({
                let resolved = self.resolve(mode, write, log).0;
                &&& self.fetches(resolved, self.resolve_cycles(mode, write, log))
                &&& write && (mode == ABSOLUTE_X || mode == ABSOLUTE_Y || mode == INDIRECT_INDEXED)
                    ==> reads_at(resolved.trace, resolved.now() - 1, self.uncorrected(mode, log))
            }),
    {
        reveal(State::resolve);
        if mode == ZERO_PAGE_X || mode == ZERO_PAGE_Y {
            self.lemma_zero_page_indexed_fetches(self.index(mode), log);
        } else if mode == ABSOLUTE_X || mode == ABSOLUTE_Y {
            self.lemma_absolute_indexed_fetches(self.index(mode), write, log);
        } else if mode == INDIRECT {
            self.lemma_indirect_fetches(log);
        } else if mode == INDEXED_INDIRECT {
            self.lemma_indexed_indirect_fetches(log);
        } else if mode == INDIRECT_INDEXED {
            self.lemma_indirect_indexed_fetches(write, log);
        } else if mode == ABSOLUTE {
            assert(self.fetches(self.read(self.pc, log), 1));
        }
    }

    /// An instruction that stores writes exactly once, and last: every bus cycle before
    /// the last is a read, and the last writes the value to the effective address. Where
    /// the address is indexed by a full register, the cycle before the write reads the
    /// uncorrected address. This is the law of STA, STX, STY and SAX.
    pub proof fn law_store_writes_once(self, mode: u8, value: u8, log: Seq<Cycle>)
        requires
            addressable(mode),
        ensures
            ({
                let stored = self.store(mode, value, log);
                let address = self.resolve(mode, true, log).1;
                &&& self.advances(stored, self.store_cycles(mode, log))
                &&& only_reads(stored.trace, self.now(), stored.now() - 1)
                &&& writes_at(stored.trace, stored.now() - 1, address, value)
                &&& mode == ABSOLUTE_X || mode == ABSOLUTE_Y || mode == INDIRECT_INDEXED ==> reads_at(
                    stored.trace,
                    stored.now() - 2,
                    self.uncorrected(mode, log),
                )
            }),
    {
        self.lemma_resolve_only_reads(mode, true, log);
    }

    /// An instruction that reads, modifies and writes runs, once the address is resolved
    /// by reads alone, exactly three bus cycles on the effective address: it reads the
    /// value, writes the same value back, and writes the modified value.
    pub proof fn law_read_modify_write_cycles(self, mode: u8, kind: u8, log: Seq<Cycle>)
        requires
            addressable(mode),
        ensures
            ({
                let (written, result) = self.read_modify_write(mode, kind, log);
                let (resolved, address) = self.resolve(mode, true, log);
                let value = log[resolved.now()].back.data;
                &&& self.advances(written, self.read_modify_write_cycles(mode, log))
                &&& written.now() == resolved.now() + 3
                &&& only_reads(written.trace, self.now(), resolved.now())
                &&& reads_at(written.trace, resolved.now(), address)
                &&& writes_at(written.trace, resolved.now() + 1, address, value)
                &&& writes_at(written.trace, resolved.now() + 2, address, result)
                &&& result == modified(kind, value, self.p.c)
            }),
    {
        reveal(State::read_modify_write);
        self.lemma_resolve_only_reads(mode, true, log);
        let (resolved, address) = self.resolve(mode, true, log);
        let read = resolved.read(address, log);
        assert(self.advances(read, self.resolve_cycles(mode, true, log) + 1));
        let unchanged = read.write(address, read.data(), log);
        assert(self.advances(unchanged, self.resolve_cycles(mode, true, log) + 2));
    }

    /// Pushing and pulling are dual: a pull after a push reads the address that the push
    /// wrote, leaves the stack pointer where it was before the push, and returns what the
    /// host answers, which is the byte pushed if the host is a memory.
    pub proof fn law_push_pop(self, data: u8, log: Seq<Cycle>)
        ensures
            ({
                let pushed = self.push(data, log);
                let pulled = pushed.pop(log);
                &&& writes_at(pulled.trace, self.now(), stack(self.s), data)
                &&& reads_at(pulled.trace, self.now() + 1, stack(self.s))
                &&& pulled.s == self.s
                &&& pulled.data() == log[self.now() + 1].back.data
            }),
    {
    }

    /// PHA followed by PLA restores A: if PHA runs in `self`, PLA runs in any later state
    /// with the stack pointer where PHA left it, and the host answers the pull with the
    /// byte that was pushed, then A is what it was before PHA, Z and N go by it, and the
    /// stack pointer is back where it was.
    pub proof fn law_pha_pla(self, later: State, log: Seq<Cycle>)
        requires
            self.latch.due() is None,
            self.opcode(log) == 0x48,
            later.latch.due() is None,
            later.opcode(log) == 0x68,
            later.s == self.step(log).s,
            log[later.now() + 3].back.data == self.a,
        ensures
            writes_at(self.step(log).trace, self.now() + 2, stack(self.s), self.a),
            reads_at(later.step(log).trace, later.now() + 3, stack(self.s)),
            later.step(log).a == self.a,
            later.step(log).p.z == (self.a == 0),
            later.step(log).p.n == negative(self.a),
            later.step(log).s == self.s,
    {
    }

    /// PHP followed by PLP restores the flags: if PHP runs in `self`, PLP runs in any later
    /// state with the stack pointer where PHP left it, and the host answers the pull with
    /// the byte that was pushed, then C, Z, I, D, V and N are what they were before PHP. B
    /// and U are set in the byte pushed; in the register U reads as set and B as clear, as
    /// ever.
    pub proof fn law_php_plp(self, later: State, log: Seq<Cycle>)
        requires
            self.latch.due() is None,
            self.opcode(log) == 0x08,
            later.latch.due() is None,
            later.opcode(log) == 0x28,
            later.s == self.step(log).s,
            log[later.now() + 3].back.data == self.p.pushed(true),
        ensures
            writes_at(self.step(log).trace, self.now() + 2, stack(self.s), self.p.pushed(true)),
            self.p.pushed(true) & 0x30 == 0x30,
            reads_at(later.step(log).trace, later.now() + 3, stack(self.s)),
            later.step(log).p == self.p,
            later.step(log).p.get(Flag::U) && !later.step(log).p.get(Flag::B),
            later.step(log).s == self.s,
    {
        self.p.lemma_from_bits_of_bits();
        let pushed = self.p.pushed(true);
        assert(pushed & 0x30 == 0x30) by (bit_vector)
            requires
                pushed & 0x20 != 0,
                pushed & 0x10 != 0,
        ;
    }

    /// JSR followed by RTS comes back: if JSR runs in `self`, RTS runs in any later state
    /// with the stack pointer where JSR left it, and the host answers the two pulls with
    /// the bytes that were pushed, then the program counter is at the instruction after
    /// the JSR, three bytes on, and the stack pointer is back where it was. What JSR pushes
    /// is the address of its own last byte; RTS adds one to what it pulls.
    pub proof fn law_jsr_rts(self, later: State, log: Seq<Cycle>)
        requires
            self.latch.due() is None,
            self.opcode(log) == 0x20,
            later.latch.due() is None,
            later.opcode(log) == 0x60,
            later.s == self.step(log).s,
            log[later.now() + 3].back.data == low(self.pc.wrapping_add(2)),
            log[later.now() + 4].back.data == high(self.pc.wrapping_add(2)),
        ensures
            self.step(log).pc == word(log[self.now() + 1].back.data, log[self.now() + 5].back.data),
            writes_at(self.step(log).trace, self.now() + 3, stack(self.s), high(self.pc.wrapping_add(2))),
            writes_at(
                self.step(log).trace,
                self.now() + 4,
                stack(self.s.wrapping_sub(1)),
                low(self.pc.wrapping_add(2)),
            ),
            later.step(log).pc == self.pc.wrapping_add(3),
            later.step(log).s == self.s,
    {
        reveal(State::jsr);
        reveal(State::rts);
    }

    /// A reset goes to the reset vector whatever the state: the step takes seven bus
    /// cycles, all of them reads, the last two of the vector at 0xfffc and 0xfffd, which
    /// give the new program counter. A, X and Y stay as they are, interrupt requests are
    /// disabled and no other flag changes, and the stack pointer moves down by three.
    pub proof fn law_reset(self, log: Seq<Cycle>)
        requires
            self.latch.rst,
        ensures
            ({
                let after = self.step(log);
                &&& after.now() == self.now() + 7
                &&& after.cycles == self.cycles + 7
                &&& only_reads(after.trace, self.now(), after.now())
                &&& reads_at(after.trace, self.now() + 5, 0xfffc)
                &&& reads_at(after.trace, self.now() + 6, 0xfffd)
                &&& after.pc == word(log[self.now() + 5].back.data, log[self.now() + 6].back.data)
                &&& after.a == self.a && after.x == self.x && after.y == self.y
                &&& after.p == Flags { i: true, ..self.p }
                &&& after.s == self.s.wrapping_sub(3)
            }),
    {
        reveal(State::skipped);
        reveal(State::vectored);
    }

    /// An interrupt that is due comes in place of the next instruction: the step takes
    /// seven bus cycles, pushes the program counter and the status register, with B clear
    /// in the pushed byte, disables interrupt requests, and
    /// reads the new program counter from the vector of the interrupt, which for a
    /// non-maskable interrupt is at 0xfffa and for an interrupt request at 0xfffe.
    pub proof fn law_interrupt(self, log: Seq<Cycle>)
        requires
            self.latch.due() == Some(NMI) || self.latch.due() == Some(IRQ),
        ensures
            ({
                let after = self.step(log);
                let at = vector(self.latch.due().unwrap());
                &&& after.now() == self.now() + 7
                &&& after.cycles == self.cycles + 7
                &&& writes_at(after.trace, self.now() + 2, stack(self.s), high(self.pc))
                &&& writes_at(after.trace, self.now() + 3, stack(self.s.wrapping_sub(1)), low(self.pc))
                &&& writes_at(after.trace, self.now() + 4, stack(self.s.wrapping_sub(2)), self.p.pushed(false))
                &&& reads_at(after.trace, self.now() + 5, at)
                &&& reads_at(after.trace, self.now() + 6, at.wrapping_add(1))
                &&& after.pc == word(log[self.now() + 5].back.data, log[self.now() + 6].back.data)
                &&& after.a == self.a && after.x == self.x && after.y == self.y
                &&& after.p == Flags { i: true, ..self.p }
                &&& after.s == self.s.wrapping_sub(3)
            }),
    {
        reveal(State::saved);
        reveal(State::vectored);
    }

    /// Every step counts its bus cycles, and takes as many as the timing table of the 6502
    /// lists for the opcode, and one more where an instruction that reads through an
    /// indexed address crosses a page, where a branch is taken, and where a taken branch
    /// crosses a page; the entry into an interrupt takes seven.
    pub proof fn law_step_takes_the_cycles_of_the_table(self, log: Seq<Cycle>)
        ensures
            self.step(log).cycles == self.cycles + self.step_cycles(log),
            self.step(log).now() == self.now() + self.step_cycles(log),
            self.latch.due() is Some ==> self.step_cycles(log) == 7,
            self.latch.due() is None ==> self.step_cycles(log) == base_cycles(self.opcode(log))
                + self.consume_byte(log).penalty(self.opcode(log), log),
    {
        self.law_step(log);
    }

    /// After every step the flag U reads as set and the flag B as clear, whatever the
    /// register held before and whatever the step pulled from the stack: bit 5 of the
    /// register's byte is set and bit 4 is clear. B is set only in the byte that PHP and
    /// BRK push.
    pub proof fn law_step_leaves_the_unused_flag_set(self, log: Seq<Cycle>)
        ensures
            self.step(log).p.get(Flag::U),
            !self.step(log).p.get(Flag::B),
            self.step(log).p.bits() & 0x20 != 0,
            self.step(log).p.bits() & 0x10 == 0,
    {
        self.step(log).p.lemma_from_bits_of_bits();
    }

    /// If the NMI line rises during any bus cycle of a step but the last, the step after
    /// is the entry into the non-maskable interrupt, unless a reset is due, which goes
    /// first. A rise during the last bus cycle is served one step later.
    pub proof fn law_nmi_follows_the_edge(self, log: Seq<Cycle>, k: int)
        requires
            self.now() <= k < self.step(log).now() - 1,
            nmi_rises(self.step(log).trace, k),
            !self.step(log).latch.rst,
        ensures
            self.step(log).latch.due() == Some(NMI),
            self.step(log).step(log) == self.step(log).acknowledged().read(self.step(log).pc, log).interrupt(
                NMI,
                log,
            ),
    {
        self.law_step(log);
        self.acknowledged().law_nmi_edge_is_served(self.step(log), self.step_cycles(log), k);
    }

    /// While the NMI line does not rise during a step, be it high all the time, the step
    /// latches no non-maskable interrupt: the interrupt goes by the edge, and a line held
    /// high is served once.
    pub proof fn law_nmi_is_served_once(self, log: Seq<Cycle>)
        requires
            forall|k: int| self.now() <= k < self.step(log).now() ==> !nmi_rises(self.step(log).trace, k),
        ensures
            self.step(log).latch.need_nmi == self.latch.acknowledge().need_nmi,
            self.latch.due() == Some(NMI) ==> !self.step(log).latch.need_nmi,
    {
        self.law_step(log);
        self.acknowledged().law_nmi_level_is_not_served(self.step(log), self.step_cycles(log));
    }

    /// If the IRQ line is high, and interrupt requests enabled, at the end of the
    /// second-to-last bus cycle of a step, the step after is the entry into the interrupt
    /// request, unless a reset or a non-maskable interrupt is due; and an interrupt
    /// request is entered after no other step. The interrupt goes by the level: it comes
    /// back for as long as the line is high and requests are enabled.
    pub proof fn law_irq_follows_the_level(self, log: Seq<Cycle>)
        ensures
            self.step(log).latch.prev_irq == irq_asks(self.step(log).trace, self.step(log).now() - 2),
            !self.step(log).latch.rst && !self.step(log).latch.prev_need_nmi ==> (self.step(log).latch.due()
                == Some(IRQ) <==> irq_asks(self.step(log).trace, self.step(log).now() - 2)),
    {
        self.law_step(log);
        self.law_step_takes_two_to_eight_cycles(log);
        self.acknowledged().law_irq_level_is_served(self.step(log), self.step_cycles(log));
    }

    /// Every bus cycle of a step is one call of the host, with the pins of the cycle, and
    /// the host is called for nothing else: the calls that the host has taken after the
    /// step are those it had taken before, and then one for each bus cycle of the step, in
    /// their order.
    pub proof fn law_step_calls_the_host_once_a_cycle(self, log: Seq<Cycle>)
        ensures
            self.step(log).ticks.len() == self.ticks.len() + self.step_cycles(log),
            forall|k: int| 0 <= k < self.ticks.len() ==> #[trigger] self.step(log).ticks[k] == self.ticks[k],
            forall|k: int|
                self.now() <= k < self.step(log).now() ==> self.step(log).ticks[self.ticks.len() + k - self.now()]
                    == (Tick { sent: (#[trigger] self.step(log).trace[k]).sent, back: self.step(log).trace[k].back }),
    {
        self.law_step(log);
    }

    /// A step takes two bus cycles at least and eight at most.
    pub proof fn law_step_takes_two_to_eight_cycles(self, log: Seq<Cycle>)
        ensures
            2 <= self.step_cycles(log) <= 8,
    {
        let opcode = self.opcode(log);
        assert(2 <= base_cycles(opcode) <= 8);
        assert(pays_for_crossing(opcode) ==> base_cycles(opcode) <= 5);
        assert(self.consume_byte(log).takes(decode(opcode).op) ==> base_cycles(opcode) == 2 && !pays_for_crossing(
            opcode,
        ));
    }

    /// The stack pointer and the program counter wrap: a push moves the stack pointer down
    /// by one modulo 256, a pull moves it up by one modulo 256, and reading the byte at
    /// the program counter moves it up by one modulo 65536.
    pub proof fn law_pointers_wrap(self, data: u8, log: Seq<Cycle>)
        ensures
            self.push(data, log).s == (self.s + 0xff) % 0x100,
            self.pop(log).s == (self.s + 1) % 0x100,
            self.consume_byte(log).pc == (self.pc + 1) % 0x1_0000,
    {
    }

    /// LDA with an immediate operand loads A with the byte after the opcode, whatever A
    /// held: Z tells whether the byte is zero, N is its bit 7, the program counter moves
    /// on by two, and the step takes two bus cycles.
    pub proof fn law_lda_immediate(self, log: Seq<Cycle>)
        requires
            self.latch.due() is None,
            self.opcode(log) == 0xa9,
        ensures
            ({
                let after = self.step(log);
                let operand = log[self.now() + 1].back.data;
                &&& after.a == operand
                &&& after.p == Flags { z: operand == 0, n: negative(operand), ..self.p }
                &&& after.x == self.x && after.y == self.y && after.s == self.s
                &&& after.pc == self.pc.wrapping_add(1).wrapping_add(1)
                &&& after.cycles == self.cycles + 2
                &&& reads_at(after.trace, self.now(), self.pc)
                &&& reads_at(after.trace, self.now() + 1, self.pc.wrapping_add(1))
            }),
    {
        reveal(State::resolve);
    }

    /// BRK enters the interrupt handler by way of the vector at 0xfffe: the step takes
    /// seven bus cycles, pushes the address two bytes past the opcode and the status
    /// register with B set in the pushed byte, disables interrupt requests, and changes no
    /// other flag.
    pub proof fn law_brk(self, log: Seq<Cycle>)
        requires
            self.latch.due() is None,
            self.opcode(log) == 0x00,
        ensures
            ({
                let after = self.step(log);
                let pushed = self.pc.wrapping_add(1).wrapping_add(1);
                &&& after.now() == self.now() + 7
                &&& after.cycles == self.cycles + 7
                &&& writes_at(after.trace, self.now() + 2, stack(self.s), high(pushed))
                &&& writes_at(after.trace, self.now() + 3, stack(self.s.wrapping_sub(1)), low(pushed))
                &&& writes_at(after.trace, self.now() + 4, stack(self.s.wrapping_sub(2)), self.p.pushed(true))
                &&& reads_at(after.trace, self.now() + 5, 0xfffe)
                &&& reads_at(after.trace, self.now() + 6, 0xffff)
                &&& after.pc == word(log[self.now() + 5].back.data, log[self.now() + 6].back.data)
                &&& after.p == Flags { i: true, ..self.p }
                &&& after.s == self.s.wrapping_sub(3)
            }),
    {
        reveal(State::saved);
        reveal(State::vectored);
    }
}

} // verus!

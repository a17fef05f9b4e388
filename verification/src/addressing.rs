use vstd::prelude::*;
use crate::bus::Bus;
use crate::bytes::word;
use crate::cpu::Cpu;
use crate::model::{same_answers, Cycle, State};

verus! {

/// The operand is the byte at the address that follows the opcode.
pub const ABSOLUTE: u8 = 0;

/// Absolute, with X added to the address.
pub const ABSOLUTE_X: u8 = 1;

/// Absolute, with Y added to the address.
pub const ABSOLUTE_Y: u8 = 2;

/// The operand is the accumulator.
pub const ACCUMULATOR: u8 = 3;

/// The operand is the byte that follows the opcode.
pub const IMMEDIATE: u8 = 4;

/// The instruction has no operand.
pub const IMPLIED: u8 = 5;

/// The address is the word in page zero at the byte that follows the opcode plus X.
pub const INDEXED_INDIRECT: u8 = 6;

/// The address is the word at the address that follows the opcode.
pub const INDIRECT: u8 = 7;

/// The address is the word in page zero at the byte that follows the opcode, plus Y.
pub const INDIRECT_INDEXED: u8 = 8;

/// The operand is the byte in page zero at the byte that follows the opcode.
pub const ZERO_PAGE: u8 = 9;

/// Zero page, with X added to the address within the page.
pub const ZERO_PAGE_X: u8 = 10;

/// Zero page, with Y added to the address within the page.
pub const ZERO_PAGE_Y: u8 = 11;

/// Whether `mode` is an addressing mode that yields an effective address.
pub open spec fn addressable(mode: u8) -> bool {
    mode <= ZERO_PAGE_Y && mode != ACCUMULATOR && mode != IMPLIED
}

impl State {
    /// The index register that `mode` adds.
    pub open spec fn index(self, mode: u8) -> u8 {
        if mode == ABSOLUTE_X || mode == ZERO_PAGE_X || mode == INDEXED_INDIRECT {
            self.x
        } else {
            self.y
        }
    }

    /// Immediate: the operand is the byte at the program counter, which steps over it. No
    /// bus cycle is spent.
    pub open spec fn immediate(self) -> (State, u16) {
        (State { pc: self.pc.wrapping_add(1), ..self }, self.pc)
    }

    /// Zero page: the byte after the opcode is the address.
    pub open spec fn zero_page(self, log: Seq<Cycle>) -> (State, u16) {
        let operand = self.consume_byte(log);
        (operand, operand.data() as u16)
    }

    /// Zero page indexed: the byte after the opcode is read as an address, that address is
    /// read and the byte dropped, and `index` is added within the page.
    #[verifier::opaque]
    pub open spec fn zero_page_indexed(self, index: u8, log: Seq<Cycle>) -> (State, u16) {
        let operand = self.consume_byte(log);
        (operand.read(operand.data() as u16, log), operand.data().wrapping_add(index) as u16)
    }

    /// Adds `index` to the address with the bytes `low` and `high`. The sum of the low
    /// bytes goes out first, under the old high byte: where it carried, or where the
    /// instruction writes, that address is read and the byte dropped.
    pub open spec fn indexed(self, low: u8, high: u8, index: u8, write: bool, log: Seq<Cycle>) -> (
        State,
        u16,
    ) {
        let carry = low + index > 0xff;
        let after = if carry || write {
            self.read(word(low.wrapping_add(index), high), log)
        } else {
            self
        };
        (after, word(low.wrapping_add(index), high.wrapping_add(if carry { 1 } else { 0 })))
    }

    /// Absolute indexed: `index` is added to the word after the opcode.
    #[verifier::opaque]
    pub open spec fn absolute_indexed(self, index: u8, write: bool, log: Seq<Cycle>) -> (State, u16) {
        let first = self.consume_byte(log);
        let second = first.consume_byte(log);
        second.indexed(first.data(), second.data(), index, write, log)
    }

    /// Indirect: the word after the opcode points at the address, whose high byte is read
    /// from the same page as its low byte.
    #[verifier::opaque]
    pub open spec fn indirect(self, log: Seq<Cycle>) -> (State, u16) {
        let (operand, pointer) = self.consume_word(log);
        operand.read_word_bugged(pointer, log)
    }

    /// Indexed indirect: the byte after the opcode is read as an address, that address is
    /// read and the byte dropped, and the word at that address plus X, within page zero,
    /// is the effective address.
    #[verifier::opaque]
    pub open spec fn indexed_indirect(self, log: Seq<Cycle>) -> (State, u16) {
        let operand = self.consume_byte(log);
        operand.read(operand.data() as u16, log).read_word_bugged(
            operand.data().wrapping_add(self.x) as u16,
            log,
        )
    }

    /// Indirect indexed: Y is added to the word in page zero at the byte after the opcode.
    #[verifier::opaque]
    pub open spec fn indirect_indexed(self, write: bool, log: Seq<Cycle>) -> (State, u16) {
        let operand = self.consume_byte(log);
        let first = operand.read(operand.data() as u16, log);
        let second = first.read(operand.data().wrapping_add(1) as u16, log);
        second.indexed(first.data(), second.data(), self.y, write, log)
    }

    /// Works out the effective address of an instruction in `mode`, by the bus cycles that
    /// the processor spends on it. `write` tells whether the instruction writes to the
    /// address.
    #[verifier::opaque]
    pub open spec fn resolve(self, mode: u8, write: bool, log: Seq<Cycle>) -> (State, u16) {
        if mode == IMMEDIATE {
            self.immediate()
        } else if mode == ZERO_PAGE {
            self.zero_page(log)
        } else if mode == ZERO_PAGE_X || mode == ZERO_PAGE_Y {
            self.zero_page_indexed(self.index(mode), log)
        } else if mode == ABSOLUTE {
            self.consume_word(log)
        } else if mode == ABSOLUTE_X || mode == ABSOLUTE_Y {
            self.absolute_indexed(self.index(mode), write, log)
        } else if mode == INDIRECT {
            self.indirect(log)
        } else if mode == INDEXED_INDIRECT {
            self.indexed_indirect(log)
        } else {
            self.indirect_indexed(write, log)
        }
    }

    /// Whether adding the index register carries out of the low byte of the address, in
    /// the modes that add an index to a full address.
    pub open spec fn page_crossed(self, mode: u8, log: Seq<Cycle>) -> bool {
        if mode == ABSOLUTE_X || mode == ABSOLUTE_Y {
            log[self.now()].back.data + self.index(mode) > 0xff
        } else if mode == INDIRECT_INDEXED {
            log[self.now() + 1].back.data + self.y > 0xff
        } else {
            false
        }
    }

    /// The number of bus cycles that `resolve` runs.
    pub open spec fn resolve_cycles(self, mode: u8, write: bool, log: Seq<Cycle>) -> nat {
        if mode == IMMEDIATE {
            0
        } else if mode == ZERO_PAGE {
            1
        } else if mode == ZERO_PAGE_X || mode == ZERO_PAGE_Y || mode == ABSOLUTE {
            2
        } else if mode == ABSOLUTE_X || mode == ABSOLUTE_Y {
            if write || self.page_crossed(mode, log) {
                3
            } else {
                2
            }
        } else if mode == INDIRECT || mode == INDEXED_INDIRECT {
            4
        } else {
            if write || self.page_crossed(mode, log) {
                4
            } else {
                3
            }
        }
    }

    /// Resolves the address of an instruction that reads, and reads the operand there.
    pub open spec fn operand(self, mode: u8, log: Seq<Cycle>) -> State {
        let (resolved, address) = self.resolve(mode, false, log);
        resolved.read(address, log)
    }

    /// The number of bus cycles that `operand` runs.
    pub open spec fn operand_cycles(self, mode: u8, log: Seq<Cycle>) -> nat {
        self.resolve_cycles(mode, false, log) + 1
    }

    /// `resolve` reads nothing of the log but the answers to its own bus cycles.
    pub proof fn lemma_resolve_reads(self, mode: u8, write: bool, first: Seq<Cycle>, second: Seq<Cycle>)
        requires
            same_answers(first, second, self.now(), self.resolve(mode, write, first).0.now()),
        ensures
            self.resolve(mode, write, first) == self.resolve(mode, write, second),
    {
        reveal(State::resolve);
        if mode == ZERO_PAGE_X || mode == ZERO_PAGE_Y {
            self.lemma_zero_page_indexed_reads(self.index(mode), first, second);
        } else if mode == ABSOLUTE_X || mode == ABSOLUTE_Y {
            self.lemma_absolute_indexed_reads(self.index(mode), write, first, second);
        } else if mode == INDIRECT {
            self.lemma_indirect_reads(first, second);
        } else if mode == INDEXED_INDIRECT {
            self.lemma_indexed_indirect_reads(first, second);
        } else if mode != IMMEDIATE && mode != ZERO_PAGE && mode != ABSOLUTE {
            self.lemma_indirect_indexed_reads(write, first, second);
        }
    }

    /// `zero_page_indexed` reads nothing of the log but the answers to its own bus cycles.
    proof fn lemma_zero_page_indexed_reads(self, index: u8, first: Seq<Cycle>, second: Seq<Cycle>)
        requires
            same_answers(first, second, self.now(), self.zero_page_indexed(index, first).0.now()),
        ensures
            self.zero_page_indexed(index, first) == self.zero_page_indexed(index, second),
    {
        reveal(State::zero_page_indexed);
        assert(self.consume_byte(first) == self.consume_byte(second));
    }

    /// `absolute_indexed` reads nothing of the log but the answers to its own bus cycles.
    proof fn lemma_absolute_indexed_reads(self, index: u8, write: bool, first: Seq<Cycle>, second: Seq<Cycle>)
        requires
            same_answers(first, second, self.now(), self.absolute_indexed(index, write, first).0.now()),
        ensures
            self.absolute_indexed(index, write, first) == self.absolute_indexed(index, write, second),
    {
        reveal(State::absolute_indexed);
        let low = self.consume_byte(first);
        assert(low == self.consume_byte(second));
        assert(low.consume_byte(first) == low.consume_byte(second));
    }

    /// `indirect` reads nothing of the log but the answers to its own bus cycles.
    proof fn lemma_indirect_reads(self, first: Seq<Cycle>, second: Seq<Cycle>)
        requires
            same_answers(first, second, self.now(), self.indirect(first).0.now()),
        ensures
            self.indirect(first) == self.indirect(second),
    {
        reveal(State::indirect);
        assert(self.consume_word(first) == self.consume_word(second));
    }

    /// `indexed_indirect` reads nothing of the log but the answers to its own bus cycles.
    proof fn lemma_indexed_indirect_reads(self, first: Seq<Cycle>, second: Seq<Cycle>)
        requires
            same_answers(first, second, self.now(), self.indexed_indirect(first).0.now()),
        ensures
            self.indexed_indirect(first) == self.indexed_indirect(second),
    {
        reveal(State::indexed_indirect);
        let operand = self.consume_byte(first);
        assert(operand == self.consume_byte(second));
        assert(operand.read(operand.data() as u16, first) == operand.read(operand.data() as u16, second));
    }

    /// `indirect_indexed` reads nothing of the log but the answers to its own bus cycles.
    proof fn lemma_indirect_indexed_reads(self, write: bool, first: Seq<Cycle>, second: Seq<Cycle>)
        requires
            same_answers(first, second, self.now(), self.indirect_indexed(write, first).0.now()),
        ensures
            self.indirect_indexed(write, first) == self.indirect_indexed(write, second),
    {
        reveal(State::indirect_indexed);
        let operand = self.consume_byte(first);
        assert(operand == self.consume_byte(second));
        let low = operand.read(operand.data() as u16, first);
        assert(low == operand.read(operand.data() as u16, second));
        assert(low.read(operand.data().wrapping_add(1) as u16, first) == low.read(
            operand.data().wrapping_add(1) as u16,
            second,
        ));
    }
}

impl<B: Bus> Cpu<B> {
    /// Zero page indexed: reads the operand byte, reads the address it names idly, and adds
    /// `index` within page zero.
    fn zero_page_indexed(&mut self, index: u8) -> (address: u16)
        requires
            old(self).cycles + 2 <= u64::MAX,
        ensures
            final(self)@ == old(self)@.zero_page_indexed(index, final(self)@.trace).0,
            address == old(self)@.zero_page_indexed(index, final(self)@.trace).1,
            old(self)@.advances(final(self)@, 2),
    {
        proof {
            reveal(State::zero_page_indexed);
        }
        let address = self.consume_byte();
        self.read_byte(address as u16);

        address.wrapping_add(index) as u16
    }

    /// Absolute indexed: adds `index` to the word after the opcode.
    fn absolute_indexed<const W: bool>(&mut self, index: u8) -> (address: u16)
        requires
            old(self).cycles + 3 <= u64::MAX,
        ensures
            final(self)@ == old(self)@.absolute_indexed(index, W, final(self)@.trace).0,
            address == old(self)@.absolute_indexed(index, W, final(self)@.trace).1,
            old(self)@.advances(
                final(self)@,
                if W || final(self)@.trace[old(self)@.now()].back.data + index > 0xff {
                    3
                } else {
                    2
                },
            ),
    {
        proof {
            reveal(State::absolute_indexed);
        }
        let base = self.consume_byte();
        let low = base.wrapping_add(index);
        let page_cross = base as u16 + index as u16 > 0xff;
        let high = self.consume_byte();

        let effective_address = word(low, high.wrapping_add(if page_cross { 1 } else { 0 }));

        // Where the low byte carried, the address that went out first is wrong, and it
        // takes a read cycle to fix. An instruction that writes always spends that cycle:
        // it cannot take back a write to a wrong address.
        if page_cross || W {
            self.read_byte(word(low, high));
        }

        effective_address
    }

    /// Indirect: the word after the opcode points at the address.
    fn indirect(&mut self) -> (address: u16)
        requires
            old(self).cycles + 4 <= u64::MAX,
        ensures
            final(self)@ == old(self)@.indirect(final(self)@.trace).0,
            address == old(self)@.indirect(final(self)@.trace).1,
            old(self)@.advances(final(self)@, 4),
    {
        proof {
            reveal(State::indirect);
        }
        let pointer = self.consume_word();
        self.read_word_bugged(pointer)
    }

    /// Indexed indirect: the address is the word in page zero at the operand byte plus X.
    fn indexed_indirect(&mut self) -> (address: u16)
        requires
            old(self).cycles + 4 <= u64::MAX,
        ensures
            final(self)@ == old(self)@.indexed_indirect(final(self)@.trace).0,
            address == old(self)@.indexed_indirect(final(self)@.trace).1,
            old(self)@.advances(final(self)@, 4),
    {
        proof {
            reveal(State::indexed_indirect);
        }
        let pointer = self.consume_byte();
        self.read_byte(pointer as u16);
        self.read_word_bugged(pointer.wrapping_add(self.x) as u16)
    }

    /// Indirect indexed: adds Y to the word in page zero at the operand byte.
    fn indirect_indexed<const W: bool>(&mut self) -> (address: u16)
        requires
            old(self).cycles + 4 <= u64::MAX,
        ensures
            final(self)@ == old(self)@.indirect_indexed(W, final(self)@.trace).0,
            address == old(self)@.indirect_indexed(W, final(self)@.trace).1,
            old(self)@.advances(
                final(self)@,
                if W || final(self)@.trace[old(self)@.now() + 1].back.data + old(self).y > 0xff {
                    4
                } else {
                    3
                },
            ),
    {
        proof {
            reveal(State::indirect_indexed);
        }
        let pointer = self.consume_byte();

        let base = self.read_byte(pointer as u16);
        let low = base.wrapping_add(self.y);
        let page_cross = base as u16 + self.y as u16 > 0xff;
        let high = self.read_byte(pointer.wrapping_add(1) as u16);

        let effective_address = word(low, high.wrapping_add(if page_cross { 1 } else { 0 }));

        if page_cross || W {
            self.read_byte(word(low, high));
        }

        effective_address
    }

    /// Works out the effective address of an instruction in mode `M`. `W` tells whether the
    /// instruction writes to the address.
    pub(crate) fn effective_address<const M: u8, const W: bool>(&mut self) -> (address: u16)
        requires
            addressable(M),
            old(self).cycles + 4 <= u64::MAX,
        ensures
            final(self)@ == old(self)@.resolve(M, W, final(self)@.trace).0,
            address == old(self)@.resolve(M, W, final(self)@.trace).1,
            old(self)@.advances(final(self)@, old(self)@.resolve_cycles(M, W, final(self)@.trace)),
    {
        proof {
            reveal(State::resolve);
        }
        match M {
            ABSOLUTE => self.consume_word(),
            ABSOLUTE_X => self.absolute_indexed::<W>(self.x),
            ABSOLUTE_Y => self.absolute_indexed::<W>(self.y),
            IMMEDIATE => {
                let effective_address = self.pc;
                self.pc = self.pc.wrapping_add(1);
                effective_address
            },
            INDIRECT => self.indirect(),
            INDEXED_INDIRECT => self.indexed_indirect(),
            INDIRECT_INDEXED => self.indirect_indexed::<W>(),
            ZERO_PAGE => self.consume_byte() as u16,
            ZERO_PAGE_X => self.zero_page_indexed(self.x),
            ZERO_PAGE_Y => self.zero_page_indexed(self.y),
            _ => vstd::pervasive::unreached(),
        }
    }

    /// Resolves the address of an instruction in mode `M` that reads, and reads the operand
    /// there.
    pub(crate) fn operand<const M: u8>(&mut self) -> (data: u8)
        requires
            addressable(M),
            old(self).cycles + 5 <= u64::MAX,
        ensures
            final(self)@ == old(self)@.operand(M, final(self)@.trace),
            data == final(self)@.data(),
            old(self)@.advances(final(self)@, old(self)@.operand_cycles(M, final(self)@.trace)),
    {
        let effective_address = self.effective_address::<M, false>();
        let ghost resolved = self@;
        let data = self.read_byte(effective_address);
        proof {
            old(self)@.lemma_resolve_reads(M, false, resolved.trace, self@.trace);
        }
        data
    }
}

} // verus!

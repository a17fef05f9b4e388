use vstd::prelude::*;
use crate::addressing::{
    addressable, ABSOLUTE, ABSOLUTE_X, ABSOLUTE_Y, ACCUMULATOR, IMMEDIATE, IMPLIED, INDEXED_INDIRECT, INDIRECT,
    INDIRECT_INDEXED, ZERO_PAGE, ZERO_PAGE_X, ZERO_PAGE_Y,
};
use crate::interrupts::{BRK, RST};
use crate::model::{Cycle, State};

verus! {

impl State {
    /// Reading an operand takes the cycles of `operand_cycles` and keeps the flags.
    proof fn lemma_operand(self, mode: u8, log: Seq<Cycle>)
        requires
            addressable(mode),
        ensures
            self.advances(self.operand(mode, log), self.operand_cycles(mode, log)),
            self.operand(mode, log).p == self.p,
    {
        self.lemma_resolve_only_reads(mode, false, log);
    }

    /// A store takes the cycles of `store_cycles`.
    proof fn lemma_store(self, mode: u8, value: u8, log: Seq<Cycle>)
        requires
            addressable(mode),
        ensures
            self.advances(self.store(mode, value, log), self.store_cycles(mode, log)),
    {
        self.lemma_resolve_only_reads(mode, true, log);
    }

    /// The store of the unstable instructions takes the cycles of `store_cycles`.
    proof fn lemma_store_high(self, mode: u8, value: u8, log: Seq<Cycle>)
        requires
            addressable(mode),
        ensures
            self.advances(self.store_high(mode, value, log), self.store_cycles(mode, log)),
    {
        self.lemma_resolve_only_reads(mode, true, log);
    }

    /// Reading, modifying and writing takes the cycles of `read_modify_write_cycles`.
    proof fn lemma_read_modify_write(self, mode: u8, kind: u8, log: Seq<Cycle>)
        requires
            mode == ACCUMULATOR || addressable(mode),
        ensures
            self.advances(self.read_modify_write(mode, kind, log).0, self.read_modify_write_cycles(mode, log)),
    {
        if mode == ACCUMULATOR {
            reveal(State::read_modify_write);
        } else {
            self.law_read_modify_write_cycles(mode, kind, log);
        }
    }

    /// A branch takes the cycles of `branch_cycles`.
    proof fn lemma_branch(self, condition: bool, log: Seq<Cycle>)
        ensures
            self.advances(self.branch(condition, log), self.branch_cycles(condition, log)),
    {
        reveal(State::branch);
        let operand = self.consume_byte(log);
        assert(self.advances(operand, 1));
        if condition {
            assert(self.advances(operand.read(operand.pc, log), 2));
        }
    }

    /// JMP takes the cycles of resolving its address.
    proof fn lemma_jmp(self, mode: u8, log: Seq<Cycle>)
        requires
            addressable(mode),
        ensures
            self.advances(self.jmp(mode, log), self.resolve_cycles(mode, false, log)),
    {
        self.lemma_resolve_only_reads(mode, false, log);
    }

    /// JSR takes five cycles after the opcode fetch.
    pub(crate) proof fn lemma_jsr(self, log: Seq<Cycle>)
        ensures
            self.advances(self.jsr(log), 5),
    {
        reveal(State::jsr);
        let target_low = self.consume_byte(log);
        assert(self.advances(target_low, 1));
        let idle = target_low.peek(log);
        assert(self.advances(idle, 2));
        let first = idle.push(crate::bytes::high(idle.pc), log);
        assert(self.advances(first, 3));
        let pushed = first.push(crate::bytes::low(idle.pc), log);
        assert(self.advances(pushed, 4));
    }

    /// RTS takes five cycles after the opcode fetch.
    pub(crate) proof fn lemma_rts(self, log: Seq<Cycle>)
        ensures
            self.advances(self.rts(log), 5),
    {
        reveal(State::rts);
        let read = self.read(self.pc, log);
        assert(self.advances(read, 1));
        let idle = read.peek(log);
        assert(self.advances(idle, 2));
        let return_low = idle.pop(log);
        assert(self.advances(return_low, 3));
        let return_high = return_low.pop(log);
        assert(self.advances(return_high, 4));
    }

    /// RTI takes five cycles after the opcode fetch.
    pub(crate) proof fn lemma_rti(self, log: Seq<Cycle>)
        ensures
            self.advances(self.rti(log), 5),
    {
        reveal(State::rti);
        let read = self.read(self.pc, log);
        assert(self.advances(read, 1));
        let idle = read.peek(log);
        assert(self.advances(idle, 2));
        let status = idle.pop(log);
        assert(self.advances(status, 3));
        let restored = State { p: status.p.pulled(status.data()), ..status };
        assert(self.advances(restored, 3));
        let return_low = restored.pop(log);
        assert(self.advances(return_low, 4));
    }

    /// The three idle reads of a reset take three cycles and keep the flags.
    pub(crate) proof fn lemma_skipped(self, log: Seq<Cycle>)
        ensures
            self.advances(self.skipped(log), 3),
            self.skipped(log).p == self.p,
    {
        reveal(State::skipped);
        let one = self.skip(log);
        assert(self.advances(one, 1));
        let two = one.skip(log);
        assert(self.advances(two, 2));
    }

    /// The three pushes of an interrupt take three cycles and keep the flags.
    pub(crate) proof fn lemma_saved(self, status: u8, log: Seq<Cycle>)
        ensures
            self.advances(self.saved(status, log), 3),
            self.saved(status, log).p == self.p,
    {
        reveal(State::saved);
        let one = self.push(crate::bytes::high(self.pc), log);
        assert(self.advances(one, 1));
        let two = one.push(crate::bytes::low(self.pc), log);
        assert(self.advances(two, 2));
    }

    /// Reading the vector takes two cycles.
    proof fn lemma_vectored(self, kind: u8, log: Seq<Cycle>)
        ensures
            self.advances(self.vectored(kind, log), 2),
    {
        reveal(State::vectored);
        let disabled = State { p: crate::status::Flags { i: true, ..self.p }, ..self };
        assert(self.advances(disabled.read(crate::flow::vector(kind), log), 1));
    }

    /// The entry into an interrupt takes six cycles after its first read.
    pub(crate) proof fn lemma_interrupt(self, kind: u8, log: Seq<Cycle>)
        ensures
            self.advances(self.interrupt(kind, log), 6),
    {
        let entered = self.entered(kind, log);
        assert(self.advances(entered, 1));
        if kind == RST {
            entered.lemma_skipped(log);
        } else {
            entered.lemma_saved(entered.pushed_status(kind), log);
        }
        let stacked = entered.stacked(kind, log);
        self.lemma_advances_twice(entered, stacked, 1, 3);
        stacked.lemma_vectored(kind, log);
        self.lemma_advances_twice(stacked, stacked.vectored(kind, log), 4, 2);
    }

    /// The pushes take two cycles after the opcode fetch, and the pulls three.
    pub(crate) proof fn lemma_stack_instructions(self, log: Seq<Cycle>)
        ensures
            self.advances(self.pha(log), 2),
            self.advances(self.php(log), 2),
            self.advances(self.pla(log), 3),
            self.advances(self.plp(log), 3),
    {
        let idle = self.read(self.pc, log);
        assert(self.advances(idle, 1));
        assert(self.advances(idle.peek(log), 2));
    }

    /// NOP takes the cycles of `nop_cycles`.
    proof fn lemma_nop(self, mode: u8, log: Seq<Cycle>)
        requires
            mode == IMPLIED || addressable(mode),
        ensures
            self.advances(self.nop(mode, log), self.nop_cycles(mode, log)),
    {
        if mode != IMPLIED {
            self.lemma_operand(mode, log);
        }
    }

    /// ADC takes its cycles and keeps what every operation keeps.
    proof fn lemma_adc(self, mode: u8, log: Seq<Cycle>)
        requires
            addressable(mode),
        ensures
            self.advances(self.adc(mode, log), self.operand_cycles(mode, log)),
    {
        self.lemma_operand(mode, log);
    }

    /// ALR takes its cycles and keeps what every operation keeps.
    proof fn lemma_alr(self, mode: u8, log: Seq<Cycle>)
        requires
            addressable(mode),
        ensures
            self.advances(self.alr(mode, log), self.operand_cycles(mode, log)),
    {
        self.lemma_operand(mode, log);
    }

    /// ANC takes its cycles and keeps what every operation keeps.
    proof fn lemma_anc(self, mode: u8, log: Seq<Cycle>)
        requires
            addressable(mode),
        ensures
            self.advances(self.anc(mode, log), self.operand_cycles(mode, log)),
    {
        self.lemma_operand(mode, log);
    }

    /// AND takes its cycles and keeps what every operation keeps.
    proof fn lemma_and(self, mode: u8, log: Seq<Cycle>)
        requires
            addressable(mode),
        ensures
            self.advances(self.and(mode, log), self.operand_cycles(mode, log)),
    {
        self.lemma_operand(mode, log);
    }

    /// ANE takes its cycles and keeps what every operation keeps.
    proof fn lemma_ane(self, mode: u8, log: Seq<Cycle>)
        requires
            addressable(mode),
        ensures
            self.advances(self.ane(mode, log), self.operand_cycles(mode, log)),
    {
        self.lemma_operand(mode, log);
    }

    /// ARR takes its cycles and keeps what every operation keeps.
    proof fn lemma_arr(self, mode: u8, log: Seq<Cycle>)
        requires
            addressable(mode),
        ensures
            self.advances(self.arr(mode, log), self.operand_cycles(mode, log)),
    {
        self.lemma_operand(mode, log);
    }

    /// BIT takes its cycles and keeps what every operation keeps.
    proof fn lemma_bit(self, mode: u8, log: Seq<Cycle>)
        requires
            addressable(mode),
        ensures
            self.advances(self.bit(mode, log), self.operand_cycles(mode, log)),
    {
        self.lemma_operand(mode, log);
    }

    /// CMP takes its cycles and keeps what every operation keeps.
    proof fn lemma_cmp(self, mode: u8, log: Seq<Cycle>)
        requires
            addressable(mode),
        ensures
            self.advances(self.cmp(mode, log), self.operand_cycles(mode, log)),
    {
        self.lemma_operand(mode, log);
    }

    /// CPX takes its cycles and keeps what every operation keeps.
    proof fn lemma_cpx(self, mode: u8, log: Seq<Cycle>)
        requires
            addressable(mode),
        ensures
            self.advances(self.cpx(mode, log), self.operand_cycles(mode, log)),
    {
        self.lemma_operand(mode, log);
    }

    /// CPY takes its cycles and keeps what every operation keeps.
    proof fn lemma_cpy(self, mode: u8, log: Seq<Cycle>)
        requires
            addressable(mode),
        ensures
            self.advances(self.cpy(mode, log), self.operand_cycles(mode, log)),
    {
        self.lemma_operand(mode, log);
    }

    /// EOR takes its cycles and keeps what every operation keeps.
    proof fn lemma_eor(self, mode: u8, log: Seq<Cycle>)
        requires
            addressable(mode),
        ensures
            self.advances(self.eor(mode, log), self.operand_cycles(mode, log)),
    {
        self.lemma_operand(mode, log);
    }

    /// LAS takes its cycles and keeps what every operation keeps.
    proof fn lemma_las(self, mode: u8, log: Seq<Cycle>)
        requires
            addressable(mode),
        ensures
            self.advances(self.las(mode, log), self.operand_cycles(mode, log)),
    {
        self.lemma_operand(mode, log);
    }

    /// LAX takes its cycles and keeps what every operation keeps.
    proof fn lemma_lax(self, mode: u8, log: Seq<Cycle>)
        requires
            addressable(mode),
        ensures
            self.advances(self.lax(mode, log), self.operand_cycles(mode, log)),
    {
        self.lemma_operand(mode, log);
    }

    /// LDA takes its cycles and keeps what every operation keeps.
    proof fn lemma_lda(self, mode: u8, log: Seq<Cycle>)
        requires
            addressable(mode),
        ensures
            self.advances(self.lda(mode, log), self.operand_cycles(mode, log)),
    {
        self.lemma_operand(mode, log);
    }

    /// LDX takes its cycles and keeps what every operation keeps.
    proof fn lemma_ldx(self, mode: u8, log: Seq<Cycle>)
        requires
            addressable(mode),
        ensures
            self.advances(self.ldx(mode, log), self.operand_cycles(mode, log)),
    {
        self.lemma_operand(mode, log);
    }

    /// LDY takes its cycles and keeps what every operation keeps.
    proof fn lemma_ldy(self, mode: u8, log: Seq<Cycle>)
        requires
            addressable(mode),
        ensures
            self.advances(self.ldy(mode, log), self.operand_cycles(mode, log)),
    {
        self.lemma_operand(mode, log);
    }

    /// LXA takes its cycles and keeps what every operation keeps.
    proof fn lemma_lxa(self, mode: u8, log: Seq<Cycle>)
        requires
            addressable(mode),
        ensures
            self.advances(self.lxa(mode, log), self.operand_cycles(mode, log)),
    {
        self.lemma_operand(mode, log);
    }

    /// ORA takes its cycles and keeps what every operation keeps.
    proof fn lemma_ora(self, mode: u8, log: Seq<Cycle>)
        requires
            addressable(mode),
        ensures
            self.advances(self.ora(mode, log), self.operand_cycles(mode, log)),
    {
        self.lemma_operand(mode, log);
    }

    /// SBC takes its cycles and keeps what every operation keeps.
    proof fn lemma_sbc(self, mode: u8, log: Seq<Cycle>)
        requires
            addressable(mode),
        ensures
            self.advances(self.sbc(mode, log), self.operand_cycles(mode, log)),
    {
        self.lemma_operand(mode, log);
    }

    /// SBX takes its cycles and keeps what every operation keeps.
    proof fn lemma_sbx(self, mode: u8, log: Seq<Cycle>)
        requires
            addressable(mode),
        ensures
            self.advances(self.sbx(mode, log), self.operand_cycles(mode, log)),
    {
        self.lemma_operand(mode, log);
    }

    /// ASL takes its cycles and keeps what every operation keeps.
    proof fn lemma_asl(self, mode: u8, log: Seq<Cycle>)
        requires
            mode == ACCUMULATOR || addressable(mode),
        ensures
            self.advances(self.asl(mode, log), self.read_modify_write_cycles(mode, log)),
    {
        self.lemma_read_modify_write(mode, crate::alu::ASL, log);
    }

    /// DCP takes its cycles and keeps what every operation keeps.
    proof fn lemma_dcp(self, mode: u8, log: Seq<Cycle>)
        requires
            mode == ACCUMULATOR || addressable(mode),
        ensures
            self.advances(self.dcp(mode, log), self.read_modify_write_cycles(mode, log)),
    {
        self.lemma_read_modify_write(mode, crate::alu::DCP, log);
    }

    /// DEC takes its cycles and keeps what every operation keeps.
    proof fn lemma_dec(self, mode: u8, log: Seq<Cycle>)
        requires
            mode == ACCUMULATOR || addressable(mode),
        ensures
            self.advances(self.dec(mode, log), self.read_modify_write_cycles(mode, log)),
    {
        self.lemma_read_modify_write(mode, crate::alu::DEC, log);
    }

    /// INC takes its cycles and keeps what every operation keeps.
    proof fn lemma_inc(self, mode: u8, log: Seq<Cycle>)
        requires
            mode == ACCUMULATOR || addressable(mode),
        ensures
            self.advances(self.inc(mode, log), self.read_modify_write_cycles(mode, log)),
    {
        self.lemma_read_modify_write(mode, crate::alu::INC, log);
    }

    /// ISB takes its cycles and keeps what every operation keeps.
    proof fn lemma_isb(self, mode: u8, log: Seq<Cycle>)
        requires
            mode == ACCUMULATOR || addressable(mode),
        ensures
            self.advances(self.isb(mode, log), self.read_modify_write_cycles(mode, log)),
    {
        self.lemma_read_modify_write(mode, crate::alu::ISB, log);
    }

    /// LSR takes its cycles and keeps what every operation keeps.
    proof fn lemma_lsr(self, mode: u8, log: Seq<Cycle>)
        requires
            mode == ACCUMULATOR || addressable(mode),
        ensures
            self.advances(self.lsr(mode, log), self.read_modify_write_cycles(mode, log)),
    {
        self.lemma_read_modify_write(mode, crate::alu::LSR, log);
    }

    /// RLA takes its cycles and keeps what every operation keeps.
    proof fn lemma_rla(self, mode: u8, log: Seq<Cycle>)
        requires
            mode == ACCUMULATOR || addressable(mode),
        ensures
            self.advances(self.rla(mode, log), self.read_modify_write_cycles(mode, log)),
    {
        self.lemma_read_modify_write(mode, crate::alu::RLA, log);
    }

    /// ROL takes its cycles and keeps what every operation keeps.
    proof fn lemma_rol(self, mode: u8, log: Seq<Cycle>)
        requires
            mode == ACCUMULATOR || addressable(mode),
        ensures
            self.advances(self.rol(mode, log), self.read_modify_write_cycles(mode, log)),
    {
        self.lemma_read_modify_write(mode, crate::alu::ROL, log);
    }

    /// ROR takes its cycles and keeps what every operation keeps.
    proof fn lemma_ror(self, mode: u8, log: Seq<Cycle>)
        requires
            mode == ACCUMULATOR || addressable(mode),
        ensures
            self.advances(self.ror(mode, log), self.read_modify_write_cycles(mode, log)),
    {
        self.lemma_read_modify_write(mode, crate::alu::ROR, log);
    }

    /// RRA takes its cycles and keeps what every operation keeps.
    proof fn lemma_rra(self, mode: u8, log: Seq<Cycle>)
        requires
            mode == ACCUMULATOR || addressable(mode),
        ensures
            self.advances(self.rra(mode, log), self.read_modify_write_cycles(mode, log)),
    {
        self.lemma_read_modify_write(mode, crate::alu::RRA, log);
    }

    /// SLO takes its cycles and keeps what every operation keeps.
    proof fn lemma_slo(self, mode: u8, log: Seq<Cycle>)
        requires
            mode == ACCUMULATOR || addressable(mode),
        ensures
            self.advances(self.slo(mode, log), self.read_modify_write_cycles(mode, log)),
    {
        self.lemma_read_modify_write(mode, crate::alu::SLO, log);
    }

    /// SRE takes its cycles and keeps what every operation keeps.
    proof fn lemma_sre(self, mode: u8, log: Seq<Cycle>)
        requires
            mode == ACCUMULATOR || addressable(mode),
        ensures
            self.advances(self.sre(mode, log), self.read_modify_write_cycles(mode, log)),
    {
        self.lemma_read_modify_write(mode, crate::alu::SRE, log);
    }

    /// SAX takes its cycles and keeps what every operation keeps.
    proof fn lemma_sax(self, mode: u8, log: Seq<Cycle>)
        requires
            addressable(mode),
        ensures
            self.advances(self.sax(mode, log), self.store_cycles(mode, log)),
    {
        self.lemma_store(mode, self.a & self.x, log);
    }

    /// STA takes its cycles and keeps what every operation keeps.
    proof fn lemma_sta(self, mode: u8, log: Seq<Cycle>)
        requires
            addressable(mode),
        ensures
            self.advances(self.sta(mode, log), self.store_cycles(mode, log)),
    {
        self.lemma_store(mode, self.a, log);
    }

    /// STX takes its cycles and keeps what every operation keeps.
    proof fn lemma_stx(self, mode: u8, log: Seq<Cycle>)
        requires
            addressable(mode),
        ensures
            self.advances(self.stx(mode, log), self.store_cycles(mode, log)),
    {
        self.lemma_store(mode, self.x, log);
    }

    /// STY takes its cycles and keeps what every operation keeps.
    proof fn lemma_sty(self, mode: u8, log: Seq<Cycle>)
        requires
            addressable(mode),
        ensures
            self.advances(self.sty(mode, log), self.store_cycles(mode, log)),
    {
        self.lemma_store(mode, self.y, log);
    }

    /// SHA takes its cycles and keeps what every operation keeps.
    proof fn lemma_sha(self, mode: u8, log: Seq<Cycle>)
        requires
            addressable(mode),
        ensures
            self.advances(self.sha(mode, log), self.store_cycles(mode, log)),
    {
        self.lemma_store_high(mode, self.a & self.x, log);
    }

    /// SHX takes its cycles and keeps what every operation keeps.
    proof fn lemma_shx(self, mode: u8, log: Seq<Cycle>)
        requires
            addressable(mode),
        ensures
            self.advances(self.shx(mode, log), self.store_cycles(mode, log)),
    {
        self.lemma_store_high(mode, self.x, log);
    }

    /// SHY takes its cycles and keeps what every operation keeps.
    proof fn lemma_shy(self, mode: u8, log: Seq<Cycle>)
        requires
            addressable(mode),
        ensures
            self.advances(self.shy(mode, log), self.store_cycles(mode, log)),
    {
        self.lemma_store_high(mode, self.y, log);
    }

    /// TAS takes its cycles and keeps what every operation keeps.
    proof fn lemma_tas(self, mode: u8, log: Seq<Cycle>)
        requires
            addressable(mode),
        ensures
            self.advances(self.tas(mode, log), self.store_cycles(mode, log)),
    {
        self.lemma_store_high(mode, self.a & self.x, log);
    }

    /// The instructions behind the opcodes from 0x00 to 0x0f take the cycles of the
    /// timing table and keep what every operation keeps.
    proof fn lemma_execute_00(self, opcode: u8, log: Seq<Cycle>)
        requires
            0x00 <= opcode <= 0x0f,
        ensures
            self.advances(self.execute(opcode, log), self.execute_cycles(opcode, log)),
    {
        match opcode {
            0x00 => self.lemma_interrupt(BRK, log),
            0x01 => self.lemma_ora(INDEXED_INDIRECT, log),
            0x02 => (),
            0x03 => self.lemma_slo(INDEXED_INDIRECT, log),
            0x04 => self.lemma_nop(ZERO_PAGE, log),
            0x05 => self.lemma_ora(ZERO_PAGE, log),
            0x06 => self.lemma_asl(ZERO_PAGE, log),
            0x07 => self.lemma_slo(ZERO_PAGE, log),
            0x08 => self.lemma_stack_instructions(log),
            0x09 => self.lemma_ora(IMMEDIATE, log),
            0x0a => self.lemma_asl(ACCUMULATOR, log),
            0x0b => self.lemma_anc(IMMEDIATE, log),
            0x0c => self.lemma_nop(ABSOLUTE, log),
            0x0d => self.lemma_ora(ABSOLUTE, log),
            0x0e => self.lemma_asl(ABSOLUTE, log),
            _ => self.lemma_slo(ABSOLUTE, log),
        }
    }

    /// The instructions behind the opcodes from 0x10 to 0x1f take the cycles of the
    /// timing table and keep what every operation keeps.
    proof fn lemma_execute_10(self, opcode: u8, log: Seq<Cycle>)
        requires
            0x10 <= opcode <= 0x1f,
        ensures
            self.advances(self.execute(opcode, log), self.execute_cycles(opcode, log)),
    {
        match opcode {
            0x10 => self.lemma_branch(!self.p.n, log),
            0x11 => self.lemma_ora(INDIRECT_INDEXED, log),
            0x12 => (),
            0x13 => self.lemma_slo(INDIRECT_INDEXED, log),
            0x14 => self.lemma_nop(ZERO_PAGE_X, log),
            0x15 => self.lemma_ora(ZERO_PAGE_X, log),
            0x16 => self.lemma_asl(ZERO_PAGE_X, log),
            0x17 => self.lemma_slo(ZERO_PAGE_X, log),
            0x18 => (),
            0x19 => self.lemma_ora(ABSOLUTE_Y, log),
            0x1a => self.lemma_nop(IMPLIED, log),
            0x1b => self.lemma_slo(ABSOLUTE_Y, log),
            0x1c => self.lemma_nop(ABSOLUTE_X, log),
            0x1d => self.lemma_ora(ABSOLUTE_X, log),
            0x1e => self.lemma_asl(ABSOLUTE_X, log),
            _ => self.lemma_slo(ABSOLUTE_X, log),
        }
    }

    /// The instructions behind the opcodes from 0x20 to 0x2f take the cycles of the
    /// timing table and keep what every operation keeps.
    proof fn lemma_execute_20(self, opcode: u8, log: Seq<Cycle>)
        requires
            0x20 <= opcode <= 0x2f,
        ensures
            self.advances(self.execute(opcode, log), self.execute_cycles(opcode, log)),
    {
        match opcode {
            0x20 => self.lemma_jsr(log),
            0x21 => self.lemma_and(INDEXED_INDIRECT, log),
            0x22 => (),
            0x23 => self.lemma_rla(INDEXED_INDIRECT, log),
            0x24 => self.lemma_bit(ZERO_PAGE, log),
            0x25 => self.lemma_and(ZERO_PAGE, log),
            0x26 => self.lemma_rol(ZERO_PAGE, log),
            0x27 => self.lemma_rla(ZERO_PAGE, log),
            0x28 => self.lemma_stack_instructions(log),
            0x29 => self.lemma_and(IMMEDIATE, log),
            0x2a => self.lemma_rol(ACCUMULATOR, log),
            0x2b => self.lemma_anc(IMMEDIATE, log),
            0x2c => self.lemma_bit(ABSOLUTE, log),
            0x2d => self.lemma_and(ABSOLUTE, log),
            0x2e => self.lemma_rol(ABSOLUTE, log),
            _ => self.lemma_rla(ABSOLUTE, log),
        }
    }

    /// The instructions behind the opcodes from 0x30 to 0x3f take the cycles of the
    /// timing table and keep what every operation keeps.
    proof fn lemma_execute_30(self, opcode: u8, log: Seq<Cycle>)
        requires
            0x30 <= opcode <= 0x3f,
        ensures
            self.advances(self.execute(opcode, log), self.execute_cycles(opcode, log)),
    {
        match opcode {
            0x30 => self.lemma_branch(self.p.n, log),
            0x31 => self.lemma_and(INDIRECT_INDEXED, log),
            0x32 => (),
            0x33 => self.lemma_rla(INDIRECT_INDEXED, log),
            0x34 => self.lemma_nop(ZERO_PAGE_X, log),
            0x35 => self.lemma_and(ZERO_PAGE_X, log),
            0x36 => self.lemma_rol(ZERO_PAGE_X, log),
            0x37 => self.lemma_rla(ZERO_PAGE_X, log),
            0x38 => (),
            0x39 => self.lemma_and(ABSOLUTE_Y, log),
            0x3a => self.lemma_nop(IMPLIED, log),
            0x3b => self.lemma_rla(ABSOLUTE_Y, log),
            0x3c => self.lemma_nop(ABSOLUTE_X, log),
            0x3d => self.lemma_and(ABSOLUTE_X, log),
            0x3e => self.lemma_rol(ABSOLUTE_X, log),
            _ => self.lemma_rla(ABSOLUTE_X, log),
        }
    }

    /// The instructions behind the opcodes from 0x40 to 0x4f take the cycles of the
    /// timing table and keep what every operation keeps.
    proof fn lemma_execute_40(self, opcode: u8, log: Seq<Cycle>)
        requires
            0x40 <= opcode <= 0x4f,
        ensures
            self.advances(self.execute(opcode, log), self.execute_cycles(opcode, log)),
    {
        match opcode {
            0x40 => self.lemma_rti(log),
            0x41 => self.lemma_eor(INDEXED_INDIRECT, log),
            0x42 => (),
            0x43 => self.lemma_sre(INDEXED_INDIRECT, log),
            0x44 => self.lemma_nop(ZERO_PAGE, log),
            0x45 => self.lemma_eor(ZERO_PAGE, log),
            0x46 => self.lemma_lsr(ZERO_PAGE, log),
            0x47 => self.lemma_sre(ZERO_PAGE, log),
            0x48 => self.lemma_stack_instructions(log),
            0x49 => self.lemma_eor(IMMEDIATE, log),
            0x4a => self.lemma_lsr(ACCUMULATOR, log),
            0x4b => self.lemma_alr(IMMEDIATE, log),
            0x4c => self.lemma_jmp(ABSOLUTE, log),
            0x4d => self.lemma_eor(ABSOLUTE, log),
            0x4e => self.lemma_lsr(ABSOLUTE, log),
            _ => self.lemma_sre(ABSOLUTE, log),
        }
    }

    /// The instructions behind the opcodes from 0x50 to 0x5f take the cycles of the
    /// timing table and keep what every operation keeps.
    proof fn lemma_execute_50(self, opcode: u8, log: Seq<Cycle>)
        requires
            0x50 <= opcode <= 0x5f,
        ensures
            self.advances(self.execute(opcode, log), self.execute_cycles(opcode, log)),
    {
        match opcode {
            0x50 => self.lemma_branch(!self.p.v, log),
            0x51 => self.lemma_eor(INDIRECT_INDEXED, log),
            0x52 => (),
            0x53 => self.lemma_sre(INDIRECT_INDEXED, log),
            0x54 => self.lemma_nop(ZERO_PAGE_X, log),
            0x55 => self.lemma_eor(ZERO_PAGE_X, log),
            0x56 => self.lemma_lsr(ZERO_PAGE_X, log),
            0x57 => self.lemma_sre(ZERO_PAGE_X, log),
            0x58 => (),
            0x59 => self.lemma_eor(ABSOLUTE_Y, log),
            0x5a => self.lemma_nop(IMPLIED, log),
            0x5b => self.lemma_sre(ABSOLUTE_Y, log),
            0x5c => self.lemma_nop(ABSOLUTE_X, log),
            0x5d => self.lemma_eor(ABSOLUTE_X, log),
            0x5e => self.lemma_lsr(ABSOLUTE_X, log),
            _ => self.lemma_sre(ABSOLUTE_X, log),
        }
    }

    /// The instructions behind the opcodes from 0x60 to 0x6f take the cycles of the
    /// timing table and keep what every operation keeps.
    proof fn lemma_execute_60(self, opcode: u8, log: Seq<Cycle>)
        requires
            0x60 <= opcode <= 0x6f,
        ensures
            self.advances(self.execute(opcode, log), self.execute_cycles(opcode, log)),
    {
        match opcode {
            0x60 => self.lemma_rts(log),
            0x61 => self.lemma_adc(INDEXED_INDIRECT, log),
            0x62 => (),
            0x63 => self.lemma_rra(INDEXED_INDIRECT, log),
            0x64 => self.lemma_nop(ZERO_PAGE, log),
            0x65 => self.lemma_adc(ZERO_PAGE, log),
            0x66 => self.lemma_ror(ZERO_PAGE, log),
            0x67 => self.lemma_rra(ZERO_PAGE, log),
            0x68 => self.lemma_stack_instructions(log),
            0x69 => self.lemma_adc(IMMEDIATE, log),
            0x6a => self.lemma_ror(ACCUMULATOR, log),
            0x6b => self.lemma_arr(IMMEDIATE, log),
            0x6c => self.lemma_jmp(INDIRECT, log),
            0x6d => self.lemma_adc(ABSOLUTE, log),
            0x6e => self.lemma_ror(ABSOLUTE, log),
            _ => self.lemma_rra(ABSOLUTE, log),
        }
    }

    /// The instructions behind the opcodes from 0x70 to 0x7f take the cycles of the
    /// timing table and keep what every operation keeps.
    proof fn lemma_execute_70(self, opcode: u8, log: Seq<Cycle>)
        requires
            0x70 <= opcode <= 0x7f,
        ensures
            self.advances(self.execute(opcode, log), self.execute_cycles(opcode, log)),
    {
        match opcode {
            0x70 => self.lemma_branch(self.p.v, log),
            0x71 => self.lemma_adc(INDIRECT_INDEXED, log),
            0x72 => (),
            0x73 => self.lemma_rra(INDIRECT_INDEXED, log),
            0x74 => self.lemma_nop(ZERO_PAGE_X, log),
            0x75 => self.lemma_adc(ZERO_PAGE_X, log),
            0x76 => self.lemma_ror(ZERO_PAGE_X, log),
            0x77 => self.lemma_rra(ZERO_PAGE_X, log),
            0x78 => (),
            0x79 => self.lemma_adc(ABSOLUTE_Y, log),
            0x7a => self.lemma_nop(IMPLIED, log),
            0x7b => self.lemma_rra(ABSOLUTE_Y, log),
            0x7c => self.lemma_nop(ABSOLUTE_X, log),
            0x7d => self.lemma_adc(ABSOLUTE_X, log),
            0x7e => self.lemma_ror(ABSOLUTE_X, log),
            _ => self.lemma_rra(ABSOLUTE_X, log),
        }
    }

    /// The instructions behind the opcodes from 0x80 to 0x8f take the cycles of the
    /// timing table and keep what every operation keeps.
    proof fn lemma_execute_80(self, opcode: u8, log: Seq<Cycle>)
        requires
            0x80 <= opcode <= 0x8f,
        ensures
            self.advances(self.execute(opcode, log), self.execute_cycles(opcode, log)),
    {
        match opcode {
            0x80 => self.lemma_nop(IMMEDIATE, log),
            0x81 => self.lemma_sta(INDEXED_INDIRECT, log),
            0x82 => self.lemma_nop(IMMEDIATE, log),
            0x83 => self.lemma_sax(INDEXED_INDIRECT, log),
            0x84 => self.lemma_sty(ZERO_PAGE, log),
            0x85 => self.lemma_sta(ZERO_PAGE, log),
            0x86 => self.lemma_stx(ZERO_PAGE, log),
            0x87 => self.lemma_sax(ZERO_PAGE, log),
            0x88 => (),
            0x89 => self.lemma_nop(IMMEDIATE, log),
            0x8a => (),
            0x8b => self.lemma_ane(IMMEDIATE, log),
            0x8c => self.lemma_sty(ABSOLUTE, log),
            0x8d => self.lemma_sta(ABSOLUTE, log),
            0x8e => self.lemma_stx(ABSOLUTE, log),
            _ => self.lemma_sax(ABSOLUTE, log),
        }
    }

    /// The instructions behind the opcodes from 0x90 to 0x9f take the cycles of the
    /// timing table and keep what every operation keeps.
    proof fn lemma_execute_90(self, opcode: u8, log: Seq<Cycle>)
        requires
            0x90 <= opcode <= 0x9f,
        ensures
            self.advances(self.execute(opcode, log), self.execute_cycles(opcode, log)),
    {
        match opcode {
            0x90 => self.lemma_branch(!self.p.c, log),
            0x91 => self.lemma_sta(INDIRECT_INDEXED, log),
            0x92 => (),
            0x93 => self.lemma_sha(INDIRECT_INDEXED, log),
            0x94 => self.lemma_sty(ZERO_PAGE_X, log),
            0x95 => self.lemma_sta(ZERO_PAGE_X, log),
            0x96 => self.lemma_stx(ZERO_PAGE_Y, log),
            0x97 => self.lemma_sax(ZERO_PAGE_Y, log),
            0x98 => (),
            0x99 => self.lemma_sta(ABSOLUTE_Y, log),
            0x9a => (),
            0x9b => self.lemma_tas(ABSOLUTE_Y, log),
            0x9c => self.lemma_shy(ABSOLUTE_X, log),
            0x9d => self.lemma_sta(ABSOLUTE_X, log),
            0x9e => self.lemma_shx(ABSOLUTE_Y, log),
            _ => self.lemma_sha(ABSOLUTE_Y, log),
        }
    }

    /// The instructions behind the opcodes from 0xa0 to 0xaf take the cycles of the
    /// timing table and keep what every operation keeps.
    proof fn lemma_execute_a0(self, opcode: u8, log: Seq<Cycle>)
        requires
            0xa0 <= opcode <= 0xaf,
        ensures
            self.advances(self.execute(opcode, log), self.execute_cycles(opcode, log)),
    {
        match opcode {
            0xa0 => self.lemma_ldy(IMMEDIATE, log),
            0xa1 => self.lemma_lda(INDEXED_INDIRECT, log),
            0xa2 => self.lemma_ldx(IMMEDIATE, log),
            0xa3 => self.lemma_lax(INDEXED_INDIRECT, log),
            0xa4 => self.lemma_ldy(ZERO_PAGE, log),
            0xa5 => self.lemma_lda(ZERO_PAGE, log),
            0xa6 => self.lemma_ldx(ZERO_PAGE, log),
            0xa7 => self.lemma_lax(ZERO_PAGE, log),
            0xa8 => (),
            0xa9 => self.lemma_lda(IMMEDIATE, log),
            0xaa => (),
            0xab => self.lemma_lxa(IMMEDIATE, log),
            0xac => self.lemma_ldy(ABSOLUTE, log),
            0xad => self.lemma_lda(ABSOLUTE, log),
            0xae => self.lemma_ldx(ABSOLUTE, log),
            _ => self.lemma_lax(ABSOLUTE, log),
        }
    }

    /// The instructions behind the opcodes from 0xb0 to 0xbf take the cycles of the
    /// timing table and keep what every operation keeps.
    proof fn lemma_execute_b0(self, opcode: u8, log: Seq<Cycle>)
        requires
            0xb0 <= opcode <= 0xbf,
        ensures
            self.advances(self.execute(opcode, log), self.execute_cycles(opcode, log)),
    {
        match opcode {
            0xb0 => self.lemma_branch(self.p.c, log),
            0xb1 => self.lemma_lda(INDIRECT_INDEXED, log),
            0xb2 => (),
            0xb3 => self.lemma_lax(INDIRECT_INDEXED, log),
            0xb4 => self.lemma_ldy(ZERO_PAGE_X, log),
            0xb5 => self.lemma_lda(ZERO_PAGE_X, log),
            0xb6 => self.lemma_ldx(ZERO_PAGE_Y, log),
            0xb7 => self.lemma_lax(ZERO_PAGE_Y, log),
            0xb8 => (),
            0xb9 => self.lemma_lda(ABSOLUTE_Y, log),
            0xba => (),
            0xbb => self.lemma_las(ABSOLUTE_Y, log),
            0xbc => self.lemma_ldy(ABSOLUTE_X, log),
            0xbd => self.lemma_lda(ABSOLUTE_X, log),
            0xbe => self.lemma_ldx(ABSOLUTE_Y, log),
            _ => self.lemma_lax(ABSOLUTE_Y, log),
        }
    }

    /// The instructions behind the opcodes from 0xc0 to 0xcf take the cycles of the
    /// timing table and keep what every operation keeps.
    proof fn lemma_execute_c0(self, opcode: u8, log: Seq<Cycle>)
        requires
            0xc0 <= opcode <= 0xcf,
        ensures
            self.advances(self.execute(opcode, log), self.execute_cycles(opcode, log)),
    {
        match opcode {
            0xc0 => self.lemma_cpy(IMMEDIATE, log),
            0xc1 => self.lemma_cmp(INDEXED_INDIRECT, log),
            0xc2 => self.lemma_nop(IMMEDIATE, log),
            0xc3 => self.lemma_dcp(INDEXED_INDIRECT, log),
            0xc4 => self.lemma_cpy(ZERO_PAGE, log),
            0xc5 => self.lemma_cmp(ZERO_PAGE, log),
            0xc6 => self.lemma_dec(ZERO_PAGE, log),
            0xc7 => self.lemma_dcp(ZERO_PAGE, log),
            0xc8 => (),
            0xc9 => self.lemma_cmp(IMMEDIATE, log),
            0xca => (),
            0xcb => self.lemma_sbx(IMMEDIATE, log),
            0xcc => self.lemma_cpy(ABSOLUTE, log),
            0xcd => self.lemma_cmp(ABSOLUTE, log),
            0xce => self.lemma_dec(ABSOLUTE, log),
            _ => self.lemma_dcp(ABSOLUTE, log),
        }
    }

    /// The instructions behind the opcodes from 0xd0 to 0xdf take the cycles of the
    /// timing table and keep what every operation keeps.
    proof fn lemma_execute_d0(self, opcode: u8, log: Seq<Cycle>)
        requires
            0xd0 <= opcode <= 0xdf,
        ensures
            self.advances(self.execute(opcode, log), self.execute_cycles(opcode, log)),
    {
        match opcode {
            0xd0 => self.lemma_branch(!self.p.z, log),
            0xd1 => self.lemma_cmp(INDIRECT_INDEXED, log),
            0xd2 => (),
            0xd3 => self.lemma_dcp(INDIRECT_INDEXED, log),
            0xd4 => self.lemma_nop(ZERO_PAGE_X, log),
            0xd5 => self.lemma_cmp(ZERO_PAGE_X, log),
            0xd6 => self.lemma_dec(ZERO_PAGE_X, log),
            0xd7 => self.lemma_dcp(ZERO_PAGE_X, log),
            0xd8 => (),
            0xd9 => self.lemma_cmp(ABSOLUTE_Y, log),
            0xda => self.lemma_nop(IMPLIED, log),
            0xdb => self.lemma_dcp(ABSOLUTE_Y, log),
            0xdc => self.lemma_nop(ABSOLUTE_X, log),
            0xdd => self.lemma_cmp(ABSOLUTE_X, log),
            0xde => self.lemma_dec(ABSOLUTE_X, log),
            _ => self.lemma_dcp(ABSOLUTE_X, log),
        }
    }

    /// The instructions behind the opcodes from 0xe0 to 0xef take the cycles of the
    /// timing table and keep what every operation keeps.
    proof fn lemma_execute_e0(self, opcode: u8, log: Seq<Cycle>)
        requires
            0xe0 <= opcode <= 0xef,
        ensures
            self.advances(self.execute(opcode, log), self.execute_cycles(opcode, log)),
    {
        match opcode {
            0xe0 => self.lemma_cpx(IMMEDIATE, log),
            0xe1 => self.lemma_sbc(INDEXED_INDIRECT, log),
            0xe2 => self.lemma_nop(IMMEDIATE, log),
            0xe3 => self.lemma_isb(INDEXED_INDIRECT, log),
            0xe4 => self.lemma_cpx(ZERO_PAGE, log),
            0xe5 => self.lemma_sbc(ZERO_PAGE, log),
            0xe6 => self.lemma_inc(ZERO_PAGE, log),
            0xe7 => self.lemma_isb(ZERO_PAGE, log),
            0xe8 => (),
            0xe9 => self.lemma_sbc(IMMEDIATE, log),
            0xea => self.lemma_nop(IMPLIED, log),
            0xeb => self.lemma_sbc(IMMEDIATE, log),
            0xec => self.lemma_cpx(ABSOLUTE, log),
            0xed => self.lemma_sbc(ABSOLUTE, log),
            0xee => self.lemma_inc(ABSOLUTE, log),
            _ => self.lemma_isb(ABSOLUTE, log),
        }
    }

    /// The instructions behind the opcodes from 0xf0 to 0xff take the cycles of the
    /// timing table and keep what every operation keeps.
    proof fn lemma_execute_f0(self, opcode: u8, log: Seq<Cycle>)
        requires
            0xf0 <= opcode <= 0xff,
        ensures
            self.advances(self.execute(opcode, log), self.execute_cycles(opcode, log)),
    {
        match opcode {
            0xf0 => self.lemma_branch(self.p.z, log),
            0xf1 => self.lemma_sbc(INDIRECT_INDEXED, log),
            0xf2 => (),
            0xf3 => self.lemma_isb(INDIRECT_INDEXED, log),
            0xf4 => self.lemma_nop(ZERO_PAGE_X, log),
            0xf5 => self.lemma_sbc(ZERO_PAGE_X, log),
            0xf6 => self.lemma_inc(ZERO_PAGE_X, log),
            0xf7 => self.lemma_isb(ZERO_PAGE_X, log),
            0xf8 => (),
            0xf9 => self.lemma_sbc(ABSOLUTE_Y, log),
            0xfa => self.lemma_nop(IMPLIED, log),
            0xfb => self.lemma_isb(ABSOLUTE_Y, log),
            0xfc => self.lemma_nop(ABSOLUTE_X, log),
            0xfd => self.lemma_sbc(ABSOLUTE_X, log),
            0xfe => self.lemma_inc(ABSOLUTE_X, log),
            _ => self.lemma_isb(ABSOLUTE_X, log),
        }
    }

    /// An instruction takes the cycles of the timing table and keeps what every operation
    /// keeps.
    pub proof fn lemma_execute(self, opcode: u8, log: Seq<Cycle>)
        ensures
            self.advances(self.execute(opcode, log), self.execute_cycles(opcode, log)),
    {
        if opcode <= 0x0f {
            self.lemma_execute_00(opcode, log);
        } else if opcode <= 0x1f {
            self.lemma_execute_10(opcode, log);
        } else if opcode <= 0x2f {
            self.lemma_execute_20(opcode, log);
        } else if opcode <= 0x3f {
            self.lemma_execute_30(opcode, log);
        } else if opcode <= 0x4f {
            self.lemma_execute_40(opcode, log);
        } else if opcode <= 0x5f {
            self.lemma_execute_50(opcode, log);
        } else if opcode <= 0x6f {
            self.lemma_execute_60(opcode, log);
        } else if opcode <= 0x7f {
            self.lemma_execute_70(opcode, log);
        } else if opcode <= 0x8f {
            self.lemma_execute_80(opcode, log);
        } else if opcode <= 0x9f {
            self.lemma_execute_90(opcode, log);
        } else if opcode <= 0xaf {
            self.lemma_execute_a0(opcode, log);
        } else if opcode <= 0xbf {
            self.lemma_execute_b0(opcode, log);
        } else if opcode <= 0xcf {
            self.lemma_execute_c0(opcode, log);
        } else if opcode <= 0xdf {
            self.lemma_execute_d0(opcode, log);
        } else if opcode <= 0xef {
            self.lemma_execute_e0(opcode, log);
        } else {
            self.lemma_execute_f0(opcode, log);
        }
    }

    /// What holds across every step: it takes the cycles that `step_cycles` gives, which
    /// are those of the timing table, and counts each; each is one call of the host; it
    /// keeps the cycles run before; and the latches change by nothing but the interrupt
    /// taken up at the start and the sampling at the end of each cycle.
    pub proof fn law_step(self, log: Seq<Cycle>)
        ensures
            self.acknowledged().advances(self.step(log), self.step_cycles(log)),
    {
        match self.latch.due() {
            Some(kind) => {
                let taken = self.acknowledged();
                let idle = taken.read(self.pc, log);
                assert(taken.advances(idle, 1));
                idle.lemma_interrupt(kind, log);
            },
            None => {
                let fetched = self.consume_byte(log);
                assert(self.advances(fetched, 1));
                fetched.lemma_execute(self.opcode(log), log);
            },
        }
    }

    /// Every step begins with a read at the program counter: the fetch of the opcode, or,
    /// where an interrupt is due, a read whose byte is dropped.
    pub proof fn law_step_begins_with_a_read(self, log: Seq<Cycle>)
        ensures
            self.step(log).now() > self.now(),
            self.step(log).trace[self.now()].sent.rw,
            self.step(log).trace[self.now()].sent.address == self.pc,
            self.step(log).trace[self.now()].back == log[self.now()].back,
    {
        match self.latch.due() {
            Some(kind) => {
                self.acknowledged().read(self.pc, log).lemma_interrupt(kind, log);
            },
            None => {
                self.consume_byte(log).lemma_execute(self.opcode(log), log);
            },
        }
    }
}

} // verus!

use vstd::prelude::*;
use crate::addressing::{
    addressable, ABSOLUTE, ABSOLUTE_X, ABSOLUTE_Y, ACCUMULATOR, IMMEDIATE, IMPLIED, INDEXED_INDIRECT, INDIRECT,
    INDIRECT_INDEXED, ZERO_PAGE, ZERO_PAGE_X, ZERO_PAGE_Y,
};
use crate::bytes::{high, low};
use crate::interrupts::{BRK, RST};
use crate::model::{same_answers, Cycle, State};

verus! {

impl State {
    /// Reading an operand reads nothing of the log but the answers to its own bus cycles.
    proof fn lemma_operand_reads(self, mode: u8, first: Seq<Cycle>, second: Seq<Cycle>)
        requires
            addressable(mode),
            same_answers(first, second, self.now(), self.operand(mode, first).now()),
        ensures
            self.operand(mode, first) == self.operand(mode, second),
    {
        self.lemma_resolve_only_reads(mode, false, first);
        self.lemma_resolve_reads(mode, false, first, second);
    }

    /// A store reads nothing of the log but the answers to its own bus cycles.
    proof fn lemma_store_reads(self, mode: u8, value: u8, first: Seq<Cycle>, second: Seq<Cycle>)
        requires
            addressable(mode),
            same_answers(first, second, self.now(), self.store(mode, value, first).now()),
        ensures
            self.store(mode, value, first) == self.store(mode, value, second),
    {
        self.lemma_resolve_only_reads(mode, true, first);
        self.lemma_resolve_reads(mode, true, first, second);
    }

    /// The store of the unstable instructions reads nothing of the log but the answers to its own bus cycles.
    proof fn lemma_store_high_reads(self, mode: u8, value: u8, first: Seq<Cycle>, second: Seq<Cycle>)
        requires
            addressable(mode),
            same_answers(first, second, self.now(), self.store_high(mode, value, first).now()),
        ensures
            self.store_high(mode, value, first) == self.store_high(mode, value, second),
    {
        self.lemma_resolve_only_reads(mode, true, first);
        self.lemma_resolve_reads(mode, true, first, second);
    }

    /// Reading, modifying and writing reads nothing of the log but the answers to its own bus cycles.
    proof fn lemma_read_modify_write_reads(self, mode: u8, kind: u8, first: Seq<Cycle>, second: Seq<Cycle>)
        requires
            mode == ACCUMULATOR || addressable(mode),
            same_answers(first, second, self.now(), self.read_modify_write(mode, kind, first).0.now()),
        ensures
            self.read_modify_write(mode, kind, first) == self.read_modify_write(mode, kind, second),
    {
        reveal(State::read_modify_write);
        if mode != ACCUMULATOR {
            self.lemma_resolve_only_reads(mode, true, first);
            self.lemma_resolve_reads(mode, true, first, second);
            let (resolved, address) = self.resolve(mode, true, first);
            let read = resolved.read(address, first);
            assert(read == resolved.read(address, second));
            let unchanged = read.write(address, read.data(), first);
            assert(unchanged == read.write(address, read.data(), second));
        }
    }

    /// A branch reads nothing of the log but the answers to its own bus cycles.
    proof fn lemma_branch_reads(self, condition: bool, first: Seq<Cycle>, second: Seq<Cycle>)
        requires
            same_answers(first, second, self.now(), self.branch(condition, first).now()),
        ensures
            self.branch(condition, first) == self.branch(condition, second),
    {
        reveal(State::branch);
        let operand = self.consume_byte(first);
        assert(operand == self.consume_byte(second));
        if condition {
            assert(operand.read(operand.pc, first) == operand.read(operand.pc, second));
        }
    }

    /// JMP reads nothing of the log but the answers to its own bus cycles.
    proof fn lemma_jmp_reads(self, mode: u8, first: Seq<Cycle>, second: Seq<Cycle>)
        requires
            addressable(mode),
            same_answers(first, second, self.now(), self.jmp(mode, first).now()),
        ensures
            self.jmp(mode, first) == self.jmp(mode, second),
    {
        self.lemma_resolve_reads(mode, false, first, second);
    }

    /// JSR reads nothing of the log but the answers to its own bus cycles.
    proof fn lemma_jsr_reads(self, first: Seq<Cycle>, second: Seq<Cycle>)
        requires
            same_answers(first, second, self.now(), self.now() + 5),
        ensures
            self.jsr(first) == self.jsr(second),
    {
        reveal(State::jsr);
        let target_low = self.consume_byte(first);
        assert(target_low == self.consume_byte(second));
        let idle = target_low.peek(first);
        assert(idle == target_low.peek(second));
        let one = idle.push(high(idle.pc), first);
        assert(one == idle.push(high(idle.pc), second));
        let two = one.push(low(idle.pc), first);
        assert(two == one.push(low(idle.pc), second));
    }

    /// RTS reads nothing of the log but the answers to its own bus cycles.
    proof fn lemma_rts_reads(self, first: Seq<Cycle>, second: Seq<Cycle>)
        requires
            same_answers(first, second, self.now(), self.now() + 5),
        ensures
            self.rts(first) == self.rts(second),
    {
        reveal(State::rts);
        let read = self.read(self.pc, first);
        assert(read == self.read(self.pc, second));
        let idle = read.peek(first);
        assert(idle == read.peek(second));
        let return_low = idle.pop(first);
        assert(return_low == idle.pop(second));
        let return_high = return_low.pop(first);
        assert(return_high == return_low.pop(second));
    }

    /// RTI reads nothing of the log but the answers to its own bus cycles.
    proof fn lemma_rti_reads(self, first: Seq<Cycle>, second: Seq<Cycle>)
        requires
            same_answers(first, second, self.now(), self.now() + 5),
        ensures
            self.rti(first) == self.rti(second),
    {
        reveal(State::rti);
        let read = self.read(self.pc, first);
        assert(read == self.read(self.pc, second));
        let idle = read.peek(first);
        assert(idle == read.peek(second));
        let status = idle.pop(first);
        assert(status == idle.pop(second));
        let restored = State { p: status.p.pulled(status.data()), ..status };
        let return_low = restored.pop(first);
        assert(return_low == restored.pop(second));
    }

    /// The entry into an interrupt reads nothing of the log but the answers to its own bus cycles.
    proof fn lemma_interrupt_reads(self, kind: u8, first: Seq<Cycle>, second: Seq<Cycle>)
        requires
            same_answers(first, second, self.now(), self.now() + 6),
        ensures
            self.interrupt(kind, first) == self.interrupt(kind, second),
    {
        let entered = self.entered(kind, first);
        assert(entered == self.entered(kind, second));
        if kind == RST {
            entered.lemma_skipped(first);
            entered.lemma_skipped_reads(first, second);
        } else {
            entered.lemma_saved(entered.pushed_status(kind), first);
            entered.lemma_saved_reads(entered.pushed_status(kind), first, second);
        }
        let stacked = entered.stacked(kind, first);
        assert(stacked == entered.stacked(kind, second));
        assert(stacked.now() == self.now() + 4);
        reveal(State::vectored);
        let disabled = State { p: crate::status::Flags { i: true, ..stacked.p }, ..stacked };
        assert(disabled.read(crate::flow::vector(kind), first) == disabled.read(crate::flow::vector(kind), second));
    }

    /// Each push and each pull reads nothing of the log but the answers to its own bus cycles.
    proof fn lemma_stack_instructions_read(self, first: Seq<Cycle>, second: Seq<Cycle>)
        ensures
            same_answers(first, second, self.now(), self.now() + 2) ==> self.pha(first) == self.pha(second)
                && self.php(first) == self.php(second),
            same_answers(first, second, self.now(), self.now() + 3) ==> self.pla(first) == self.pla(second)
                && self.plp(first) == self.plp(second),
    {
        if same_answers(first, second, self.now(), self.now() + 2) {
            let idle = self.read(self.pc, first);
            assert(idle == self.read(self.pc, second));
            if same_answers(first, second, self.now(), self.now() + 3) {
                assert(idle.peek(first) == idle.peek(second));
            }
        }
    }

    /// NOP reads nothing of the log but the answers to its own bus cycles.
    proof fn lemma_nop_reads(self, mode: u8, first: Seq<Cycle>, second: Seq<Cycle>)
        requires
            mode == IMPLIED || addressable(mode),
            same_answers(first, second, self.now(), self.nop(mode, first).now()),
        ensures
            self.nop(mode, first) == self.nop(mode, second),
    {
        if mode != IMPLIED {
            self.lemma_operand_reads(mode, first, second);
        }
    }

    /// ADC reads nothing of the log but the answers to its own bus cycles.
    proof fn lemma_adc_reads(self, mode: u8, first: Seq<Cycle>, second: Seq<Cycle>)
        requires
            addressable(mode),
            same_answers(first, second, self.now(), self.adc(mode, first).now()),
        ensures
            self.adc(mode, first) == self.adc(mode, second),
    {
        self.lemma_operand_reads(mode, first, second);
    }

    /// ALR reads nothing of the log but the answers to its own bus cycles.
    proof fn lemma_alr_reads(self, mode: u8, first: Seq<Cycle>, second: Seq<Cycle>)
        requires
            addressable(mode),
            same_answers(first, second, self.now(), self.alr(mode, first).now()),
        ensures
            self.alr(mode, first) == self.alr(mode, second),
    {
        self.lemma_operand_reads(mode, first, second);
    }

    /// ANC reads nothing of the log but the answers to its own bus cycles.
    proof fn lemma_anc_reads(self, mode: u8, first: Seq<Cycle>, second: Seq<Cycle>)
        requires
            addressable(mode),
            same_answers(first, second, self.now(), self.anc(mode, first).now()),
        ensures
            self.anc(mode, first) == self.anc(mode, second),
    {
        self.lemma_operand_reads(mode, first, second);
    }

    /// AND reads nothing of the log but the answers to its own bus cycles.
    proof fn lemma_and_reads(self, mode: u8, first: Seq<Cycle>, second: Seq<Cycle>)
        requires
            addressable(mode),
            same_answers(first, second, self.now(), self.and(mode, first).now()),
        ensures
            self.and(mode, first) == self.and(mode, second),
    {
        self.lemma_operand_reads(mode, first, second);
    }

    /// ANE reads nothing of the log but the answers to its own bus cycles.
    proof fn lemma_ane_reads(self, mode: u8, first: Seq<Cycle>, second: Seq<Cycle>)
        requires
            addressable(mode),
            same_answers(first, second, self.now(), self.ane(mode, first).now()),
        ensures
            self.ane(mode, first) == self.ane(mode, second),
    {
        self.lemma_operand_reads(mode, first, second);
    }

    /// ARR reads nothing of the log but the answers to its own bus cycles.
    proof fn lemma_arr_reads(self, mode: u8, first: Seq<Cycle>, second: Seq<Cycle>)
        requires
            addressable(mode),
            same_answers(first, second, self.now(), self.arr(mode, first).now()),
        ensures
            self.arr(mode, first) == self.arr(mode, second),
    {
        self.lemma_operand_reads(mode, first, second);
    }

    /// BIT reads nothing of the log but the answers to its own bus cycles.
    proof fn lemma_bit_reads(self, mode: u8, first: Seq<Cycle>, second: Seq<Cycle>)
        requires
            addressable(mode),
            same_answers(first, second, self.now(), self.bit(mode, first).now()),
        ensures
            self.bit(mode, first) == self.bit(mode, second),
    {
        self.lemma_operand_reads(mode, first, second);
    }

    /// CMP reads nothing of the log but the answers to its own bus cycles.
    proof fn lemma_cmp_reads(self, mode: u8, first: Seq<Cycle>, second: Seq<Cycle>)
        requires
            addressable(mode),
            same_answers(first, second, self.now(), self.cmp(mode, first).now()),
        ensures
            self.cmp(mode, first) == self.cmp(mode, second),
    {
        self.lemma_operand_reads(mode, first, second);
    }

    /// CPX reads nothing of the log but the answers to its own bus cycles.
    proof fn lemma_cpx_reads(self, mode: u8, first: Seq<Cycle>, second: Seq<Cycle>)
        requires
            addressable(mode),
            same_answers(first, second, self.now(), self.cpx(mode, first).now()),
        ensures
            self.cpx(mode, first) == self.cpx(mode, second),
    {
        self.lemma_operand_reads(mode, first, second);
    }

    /// CPY reads nothing of the log but the answers to its own bus cycles.
    proof fn lemma_cpy_reads(self, mode: u8, first: Seq<Cycle>, second: Seq<Cycle>)
        requires
            addressable(mode),
            same_answers(first, second, self.now(), self.cpy(mode, first).now()),
        ensures
            self.cpy(mode, first) == self.cpy(mode, second),
    {
        self.lemma_operand_reads(mode, first, second);
    }

    /// EOR reads nothing of the log but the answers to its own bus cycles.
    proof fn lemma_eor_reads(self, mode: u8, first: Seq<Cycle>, second: Seq<Cycle>)
        requires
            addressable(mode),
            same_answers(first, second, self.now(), self.eor(mode, first).now()),
        ensures
            self.eor(mode, first) == self.eor(mode, second),
    {
        self.lemma_operand_reads(mode, first, second);
    }

    /// LAS reads nothing of the log but the answers to its own bus cycles.
    proof fn lemma_las_reads(self, mode: u8, first: Seq<Cycle>, second: Seq<Cycle>)
        requires
            addressable(mode),
            same_answers(first, second, self.now(), self.las(mode, first).now()),
        ensures
            self.las(mode, first) == self.las(mode, second),
    {
        self.lemma_operand_reads(mode, first, second);
    }

    /// LAX reads nothing of the log but the answers to its own bus cycles.
    proof fn lemma_lax_reads(self, mode: u8, first: Seq<Cycle>, second: Seq<Cycle>)
        requires
            addressable(mode),
            same_answers(first, second, self.now(), self.lax(mode, first).now()),
        ensures
            self.lax(mode, first) == self.lax(mode, second),
    {
        self.lemma_operand_reads(mode, first, second);
    }

    /// LDA reads nothing of the log but the answers to its own bus cycles.
    proof fn lemma_lda_reads(self, mode: u8, first: Seq<Cycle>, second: Seq<Cycle>)
        requires
            addressable(mode),
            same_answers(first, second, self.now(), self.lda(mode, first).now()),
        ensures
            self.lda(mode, first) == self.lda(mode, second),
    {
        self.lemma_operand_reads(mode, first, second);
    }

    /// LDX reads nothing of the log but the answers to its own bus cycles.
    proof fn lemma_ldx_reads(self, mode: u8, first: Seq<Cycle>, second: Seq<Cycle>)
        requires
            addressable(mode),
            same_answers(first, second, self.now(), self.ldx(mode, first).now()),
        ensures
            self.ldx(mode, first) == self.ldx(mode, second),
    {
        self.lemma_operand_reads(mode, first, second);
    }

    /// LDY reads nothing of the log but the answers to its own bus cycles.
    proof fn lemma_ldy_reads(self, mode: u8, first: Seq<Cycle>, second: Seq<Cycle>)
        requires
            addressable(mode),
            same_answers(first, second, self.now(), self.ldy(mode, first).now()),
        ensures
            self.ldy(mode, first) == self.ldy(mode, second),
    {
        self.lemma_operand_reads(mode, first, second);
    }

    /// LXA reads nothing of the log but the answers to its own bus cycles.
    proof fn lemma_lxa_reads(self, mode: u8, first: Seq<Cycle>, second: Seq<Cycle>)
        requires
            addressable(mode),
            same_answers(first, second, self.now(), self.lxa(mode, first).now()),
        ensures
            self.lxa(mode, first) == self.lxa(mode, second),
    {
        self.lemma_operand_reads(mode, first, second);
    }

    /// ORA reads nothing of the log but the answers to its own bus cycles.
    proof fn lemma_ora_reads(self, mode: u8, first: Seq<Cycle>, second: Seq<Cycle>)
        requires
            addressable(mode),
            same_answers(first, second, self.now(), self.ora(mode, first).now()),
        ensures
            self.ora(mode, first) == self.ora(mode, second),
    {
        self.lemma_operand_reads(mode, first, second);
    }

    /// SBC reads nothing of the log but the answers to its own bus cycles.
    proof fn lemma_sbc_reads(self, mode: u8, first: Seq<Cycle>, second: Seq<Cycle>)
        requires
            addressable(mode),
            same_answers(first, second, self.now(), self.sbc(mode, first).now()),
        ensures
            self.sbc(mode, first) == self.sbc(mode, second),
    {
        self.lemma_operand_reads(mode, first, second);
    }

    /// SBX reads nothing of the log but the answers to its own bus cycles.
    proof fn lemma_sbx_reads(self, mode: u8, first: Seq<Cycle>, second: Seq<Cycle>)
        requires
            addressable(mode),
            same_answers(first, second, self.now(), self.sbx(mode, first).now()),
        ensures
            self.sbx(mode, first) == self.sbx(mode, second),
    {
        self.lemma_operand_reads(mode, first, second);
    }

    /// ASL reads nothing of the log but the answers to its own bus cycles.
    proof fn lemma_asl_reads(self, mode: u8, first: Seq<Cycle>, second: Seq<Cycle>)
        requires
            mode == ACCUMULATOR || addressable(mode),
            same_answers(first, second, self.now(), self.asl(mode, first).now()),
        ensures
            self.asl(mode, first) == self.asl(mode, second),
    {
        self.lemma_read_modify_write_reads(mode, crate::alu::ASL, first, second);
    }

    /// DCP reads nothing of the log but the answers to its own bus cycles.
    proof fn lemma_dcp_reads(self, mode: u8, first: Seq<Cycle>, second: Seq<Cycle>)
        requires
            mode == ACCUMULATOR || addressable(mode),
            same_answers(first, second, self.now(), self.dcp(mode, first).now()),
        ensures
            self.dcp(mode, first) == self.dcp(mode, second),
    {
        self.lemma_read_modify_write_reads(mode, crate::alu::DCP, first, second);
    }

    /// DEC reads nothing of the log but the answers to its own bus cycles.
    proof fn lemma_dec_reads(self, mode: u8, first: Seq<Cycle>, second: Seq<Cycle>)
        requires
            mode == ACCUMULATOR || addressable(mode),
            same_answers(first, second, self.now(), self.dec(mode, first).now()),
        ensures
            self.dec(mode, first) == self.dec(mode, second),
    {
        self.lemma_read_modify_write_reads(mode, crate::alu::DEC, first, second);
    }

    /// INC reads nothing of the log but the answers to its own bus cycles.
    proof fn lemma_inc_reads(self, mode: u8, first: Seq<Cycle>, second: Seq<Cycle>)
        requires
            mode == ACCUMULATOR || addressable(mode),
            same_answers(first, second, self.now(), self.inc(mode, first).now()),
        ensures
            self.inc(mode, first) == self.inc(mode, second),
    {
        self.lemma_read_modify_write_reads(mode, crate::alu::INC, first, second);
    }

    /// ISB reads nothing of the log but the answers to its own bus cycles.
    proof fn lemma_isb_reads(self, mode: u8, first: Seq<Cycle>, second: Seq<Cycle>)
        requires
            mode == ACCUMULATOR || addressable(mode),
            same_answers(first, second, self.now(), self.isb(mode, first).now()),
        ensures
            self.isb(mode, first) == self.isb(mode, second),
    {
        self.lemma_read_modify_write_reads(mode, crate::alu::ISB, first, second);
    }

    /// LSR reads nothing of the log but the answers to its own bus cycles.
    proof fn lemma_lsr_reads(self, mode: u8, first: Seq<Cycle>, second: Seq<Cycle>)
        requires
            mode == ACCUMULATOR || addressable(mode),
            same_answers(first, second, self.now(), self.lsr(mode, first).now()),
        ensures
            self.lsr(mode, first) == self.lsr(mode, second),
    {
        self.lemma_read_modify_write_reads(mode, crate::alu::LSR, first, second);
    }

    /// RLA reads nothing of the log but the answers to its own bus cycles.
    proof fn lemma_rla_reads(self, mode: u8, first: Seq<Cycle>, second: Seq<Cycle>)
        requires
            mode == ACCUMULATOR || addressable(mode),
            same_answers(first, second, self.now(), self.rla(mode, first).now()),
        ensures
            self.rla(mode, first) == self.rla(mode, second),
    {
        self.lemma_read_modify_write_reads(mode, crate::alu::RLA, first, second);
    }

    /// ROL reads nothing of the log but the answers to its own bus cycles.
    proof fn lemma_rol_reads(self, mode: u8, first: Seq<Cycle>, second: Seq<Cycle>)
        requires
            mode == ACCUMULATOR || addressable(mode),
            same_answers(first, second, self.now(), self.rol(mode, first).now()),
        ensures
            self.rol(mode, first) == self.rol(mode, second),
    {
        self.lemma_read_modify_write_reads(mode, crate::alu::ROL, first, second);
    }

    /// ROR reads nothing of the log but the answers to its own bus cycles.
    proof fn lemma_ror_reads(self, mode: u8, first: Seq<Cycle>, second: Seq<Cycle>)
        requires
            mode == ACCUMULATOR || addressable(mode),
            same_answers(first, second, self.now(), self.ror(mode, first).now()),
        ensures
            self.ror(mode, first) == self.ror(mode, second),
    {
        self.lemma_read_modify_write_reads(mode, crate::alu::ROR, first, second);
    }

    /// RRA reads nothing of the log but the answers to its own bus cycles.
    proof fn lemma_rra_reads(self, mode: u8, first: Seq<Cycle>, second: Seq<Cycle>)
        requires
            mode == ACCUMULATOR || addressable(mode),
            same_answers(first, second, self.now(), self.rra(mode, first).now()),
        ensures
            self.rra(mode, first) == self.rra(mode, second),
    {
        self.lemma_read_modify_write_reads(mode, crate::alu::RRA, first, second);
    }

    /// SLO reads nothing of the log but the answers to its own bus cycles.
    proof fn lemma_slo_reads(self, mode: u8, first: Seq<Cycle>, second: Seq<Cycle>)
        requires
            mode == ACCUMULATOR || addressable(mode),
            same_answers(first, second, self.now(), self.slo(mode, first).now()),
        ensures
            self.slo(mode, first) == self.slo(mode, second),
    {
        self.lemma_read_modify_write_reads(mode, crate::alu::SLO, first, second);
    }

    /// SRE reads nothing of the log but the answers to its own bus cycles.
    proof fn lemma_sre_reads(self, mode: u8, first: Seq<Cycle>, second: Seq<Cycle>)
        requires
            mode == ACCUMULATOR || addressable(mode),
            same_answers(first, second, self.now(), self.sre(mode, first).now()),
        ensures
            self.sre(mode, first) == self.sre(mode, second),
    {
        self.lemma_read_modify_write_reads(mode, crate::alu::SRE, first, second);
    }

    /// SAX reads nothing of the log but the answers to its own bus cycles.
    proof fn lemma_sax_reads(self, mode: u8, first: Seq<Cycle>, second: Seq<Cycle>)
        requires
            addressable(mode),
            same_answers(first, second, self.now(), self.sax(mode, first).now()),
        ensures
            self.sax(mode, first) == self.sax(mode, second),
    {
        self.lemma_store_reads(mode, self.a & self.x, first, second);
    }

    /// STA reads nothing of the log but the answers to its own bus cycles.
    proof fn lemma_sta_reads(self, mode: u8, first: Seq<Cycle>, second: Seq<Cycle>)
        requires
            addressable(mode),
            same_answers(first, second, self.now(), self.sta(mode, first).now()),
        ensures
            self.sta(mode, first) == self.sta(mode, second),
    {
        self.lemma_store_reads(mode, self.a, first, second);
    }

    /// STX reads nothing of the log but the answers to its own bus cycles.
    proof fn lemma_stx_reads(self, mode: u8, first: Seq<Cycle>, second: Seq<Cycle>)
        requires
            addressable(mode),
            same_answers(first, second, self.now(), self.stx(mode, first).now()),
        ensures
            self.stx(mode, first) == self.stx(mode, second),
    {
        self.lemma_store_reads(mode, self.x, first, second);
    }

    /// STY reads nothing of the log but the answers to its own bus cycles.
    proof fn lemma_sty_reads(self, mode: u8, first: Seq<Cycle>, second: Seq<Cycle>)
        requires
            addressable(mode),
            same_answers(first, second, self.now(), self.sty(mode, first).now()),
        ensures
            self.sty(mode, first) == self.sty(mode, second),
    {
        self.lemma_store_reads(mode, self.y, first, second);
    }

    /// SHA reads nothing of the log but the answers to its own bus cycles.
    proof fn lemma_sha_reads(self, mode: u8, first: Seq<Cycle>, second: Seq<Cycle>)
        requires
            addressable(mode),
            same_answers(first, second, self.now(), self.sha(mode, first).now()),
        ensures
            self.sha(mode, first) == self.sha(mode, second),
    {
        self.lemma_store_high_reads(mode, self.a & self.x, first, second);
    }

    /// SHX reads nothing of the log but the answers to its own bus cycles.
    proof fn lemma_shx_reads(self, mode: u8, first: Seq<Cycle>, second: Seq<Cycle>)
        requires
            addressable(mode),
            same_answers(first, second, self.now(), self.shx(mode, first).now()),
        ensures
            self.shx(mode, first) == self.shx(mode, second),
    {
        self.lemma_store_high_reads(mode, self.x, first, second);
    }

    /// SHY reads nothing of the log but the answers to its own bus cycles.
    proof fn lemma_shy_reads(self, mode: u8, first: Seq<Cycle>, second: Seq<Cycle>)
        requires
            addressable(mode),
            same_answers(first, second, self.now(), self.shy(mode, first).now()),
        ensures
            self.shy(mode, first) == self.shy(mode, second),
    {
        self.lemma_store_high_reads(mode, self.y, first, second);
    }

    /// TAS reads nothing of the log but the answers to its own bus cycles.
    proof fn lemma_tas_reads(self, mode: u8, first: Seq<Cycle>, second: Seq<Cycle>)
        requires
            addressable(mode),
            same_answers(first, second, self.now(), self.tas(mode, first).now()),
        ensures
            self.tas(mode, first) == self.tas(mode, second),
    {
        self.lemma_store_high_reads(mode, self.a & self.x, first, second);
    }

    /// CLC reads nothing of the log but the answer to its one bus cycle.
    proof fn lemma_clc_reads(self, first: Seq<Cycle>, second: Seq<Cycle>)
        requires
            same_answers(first, second, self.now(), self.clc(first).now()),
        ensures
            self.clc(first) == self.clc(second),
    {
    }

    /// CLD reads nothing of the log but the answer to its one bus cycle.
    proof fn lemma_cld_reads(self, first: Seq<Cycle>, second: Seq<Cycle>)
        requires
            same_answers(first, second, self.now(), self.cld(first).now()),
        ensures
            self.cld(first) == self.cld(second),
    {
    }

    /// CLI reads nothing of the log but the answer to its one bus cycle.
    proof fn lemma_cli_reads(self, first: Seq<Cycle>, second: Seq<Cycle>)
        requires
            same_answers(first, second, self.now(), self.cli(first).now()),
        ensures
            self.cli(first) == self.cli(second),
    {
    }

    /// CLV reads nothing of the log but the answer to its one bus cycle.
    proof fn lemma_clv_reads(self, first: Seq<Cycle>, second: Seq<Cycle>)
        requires
            same_answers(first, second, self.now(), self.clv(first).now()),
        ensures
            self.clv(first) == self.clv(second),
    {
    }

    /// DEX reads nothing of the log but the answer to its one bus cycle.
    proof fn lemma_dex_reads(self, first: Seq<Cycle>, second: Seq<Cycle>)
        requires
            same_answers(first, second, self.now(), self.dex(first).now()),
        ensures
            self.dex(first) == self.dex(second),
    {
    }

    /// DEY reads nothing of the log but the answer to its one bus cycle.
    proof fn lemma_dey_reads(self, first: Seq<Cycle>, second: Seq<Cycle>)
        requires
            same_answers(first, second, self.now(), self.dey(first).now()),
        ensures
            self.dey(first) == self.dey(second),
    {
    }

    /// INX reads nothing of the log but the answer to its one bus cycle.
    proof fn lemma_inx_reads(self, first: Seq<Cycle>, second: Seq<Cycle>)
        requires
            same_answers(first, second, self.now(), self.inx(first).now()),
        ensures
            self.inx(first) == self.inx(second),
    {
    }

    /// INY reads nothing of the log but the answer to its one bus cycle.
    proof fn lemma_iny_reads(self, first: Seq<Cycle>, second: Seq<Cycle>)
        requires
            same_answers(first, second, self.now(), self.iny(first).now()),
        ensures
            self.iny(first) == self.iny(second),
    {
    }

    /// JAM reads nothing of the log but the answer to its one bus cycle.
    proof fn lemma_jam_reads(self, first: Seq<Cycle>, second: Seq<Cycle>)
        requires
            same_answers(first, second, self.now(), self.jam(first).now()),
        ensures
            self.jam(first) == self.jam(second),
    {
    }

    /// SEC reads nothing of the log but the answer to its one bus cycle.
    proof fn lemma_sec_reads(self, first: Seq<Cycle>, second: Seq<Cycle>)
        requires
            same_answers(first, second, self.now(), self.sec(first).now()),
        ensures
            self.sec(first) == self.sec(second),
    {
    }

    /// SED reads nothing of the log but the answer to its one bus cycle.
    proof fn lemma_sed_reads(self, first: Seq<Cycle>, second: Seq<Cycle>)
        requires
            same_answers(first, second, self.now(), self.sed(first).now()),
        ensures
            self.sed(first) == self.sed(second),
    {
    }

    /// SEI reads nothing of the log but the answer to its one bus cycle.
    proof fn lemma_sei_reads(self, first: Seq<Cycle>, second: Seq<Cycle>)
        requires
            same_answers(first, second, self.now(), self.sei(first).now()),
        ensures
            self.sei(first) == self.sei(second),
    {
    }

    /// TAX reads nothing of the log but the answer to its one bus cycle.
    proof fn lemma_tax_reads(self, first: Seq<Cycle>, second: Seq<Cycle>)
        requires
            same_answers(first, second, self.now(), self.tax(first).now()),
        ensures
            self.tax(first) == self.tax(second),
    {
    }

    /// TAY reads nothing of the log but the answer to its one bus cycle.
    proof fn lemma_tay_reads(self, first: Seq<Cycle>, second: Seq<Cycle>)
        requires
            same_answers(first, second, self.now(), self.tay(first).now()),
        ensures
            self.tay(first) == self.tay(second),
    {
    }

    /// TSX reads nothing of the log but the answer to its one bus cycle.
    proof fn lemma_tsx_reads(self, first: Seq<Cycle>, second: Seq<Cycle>)
        requires
            same_answers(first, second, self.now(), self.tsx(first).now()),
        ensures
            self.tsx(first) == self.tsx(second),
    {
    }

    /// TXA reads nothing of the log but the answer to its one bus cycle.
    proof fn lemma_txa_reads(self, first: Seq<Cycle>, second: Seq<Cycle>)
        requires
            same_answers(first, second, self.now(), self.txa(first).now()),
        ensures
            self.txa(first) == self.txa(second),
    {
    }

    /// TXS reads nothing of the log but the answer to its one bus cycle.
    proof fn lemma_txs_reads(self, first: Seq<Cycle>, second: Seq<Cycle>)
        requires
            same_answers(first, second, self.now(), self.txs(first).now()),
        ensures
            self.txs(first) == self.txs(second),
    {
    }

    /// TYA reads nothing of the log but the answer to its one bus cycle.
    proof fn lemma_tya_reads(self, first: Seq<Cycle>, second: Seq<Cycle>)
        requires
            same_answers(first, second, self.now(), self.tya(first).now()),
        ensures
            self.tya(first) == self.tya(second),
    {
    }

    /// The instructions behind the opcodes from 0x00 to 0x0f read nothing of the log but
    /// the answers to their own bus cycles.
    proof fn lemma_execute_00_reads(self, opcode: u8, first: Seq<Cycle>, second: Seq<Cycle>)
        requires
            0x00 <= opcode <= 0x0f,
            same_answers(first, second, self.now(), self.execute(opcode, first).now()),
        ensures
            self.execute(opcode, first) == self.execute(opcode, second),
    {
        match opcode {
            0x00 => {
                self.lemma_interrupt(BRK, first);
                self.lemma_interrupt_reads(BRK, first, second)
            },
            0x01 => self.lemma_ora_reads(INDEXED_INDIRECT, first, second),
            0x02 => self.lemma_jam_reads(first, second),
            0x03 => self.lemma_slo_reads(INDEXED_INDIRECT, first, second),
            0x04 => self.lemma_nop_reads(ZERO_PAGE, first, second),
            0x05 => self.lemma_ora_reads(ZERO_PAGE, first, second),
            0x06 => self.lemma_asl_reads(ZERO_PAGE, first, second),
            0x07 => self.lemma_slo_reads(ZERO_PAGE, first, second),
            0x08 => {
                self.lemma_stack_instructions(first);
                self.lemma_stack_instructions_read(first, second)
            },
            0x09 => self.lemma_ora_reads(IMMEDIATE, first, second),
            0x0a => self.lemma_asl_reads(ACCUMULATOR, first, second),
            0x0b => self.lemma_anc_reads(IMMEDIATE, first, second),
            0x0c => self.lemma_nop_reads(ABSOLUTE, first, second),
            0x0d => self.lemma_ora_reads(ABSOLUTE, first, second),
            0x0e => self.lemma_asl_reads(ABSOLUTE, first, second),
            _ => self.lemma_slo_reads(ABSOLUTE, first, second),
        }
    }

    /// The instructions behind the opcodes from 0x10 to 0x1f read nothing of the log but
    /// the answers to their own bus cycles.
    proof fn lemma_execute_10_reads(self, opcode: u8, first: Seq<Cycle>, second: Seq<Cycle>)
        requires
            0x10 <= opcode <= 0x1f,
            same_answers(first, second, self.now(), self.execute(opcode, first).now()),
        ensures
            self.execute(opcode, first) == self.execute(opcode, second),
    {
        match opcode {
            0x10 => self.lemma_branch_reads(!self.p.n, first, second),
            0x11 => self.lemma_ora_reads(INDIRECT_INDEXED, first, second),
            0x12 => self.lemma_jam_reads(first, second),
            0x13 => self.lemma_slo_reads(INDIRECT_INDEXED, first, second),
            0x14 => self.lemma_nop_reads(ZERO_PAGE_X, first, second),
            0x15 => self.lemma_ora_reads(ZERO_PAGE_X, first, second),
            0x16 => self.lemma_asl_reads(ZERO_PAGE_X, first, second),
            0x17 => self.lemma_slo_reads(ZERO_PAGE_X, first, second),
            0x18 => self.lemma_clc_reads(first, second),
            0x19 => self.lemma_ora_reads(ABSOLUTE_Y, first, second),
            0x1a => self.lemma_nop_reads(IMPLIED, first, second),
            0x1b => self.lemma_slo_reads(ABSOLUTE_Y, first, second),
            0x1c => self.lemma_nop_reads(ABSOLUTE_X, first, second),
            0x1d => self.lemma_ora_reads(ABSOLUTE_X, first, second),
            0x1e => self.lemma_asl_reads(ABSOLUTE_X, first, second),
            _ => self.lemma_slo_reads(ABSOLUTE_X, first, second),
        }
    }

    /// The instructions behind the opcodes from 0x20 to 0x2f read nothing of the log but
    /// the answers to their own bus cycles.
    proof fn lemma_execute_20_reads(self, opcode: u8, first: Seq<Cycle>, second: Seq<Cycle>)
        requires
            0x20 <= opcode <= 0x2f,
            same_answers(first, second, self.now(), self.execute(opcode, first).now()),
        ensures
            self.execute(opcode, first) == self.execute(opcode, second),
    {
        match opcode {
            0x20 => {
                self.lemma_jsr(first);
                self.lemma_jsr_reads(first, second)
            },
            0x21 => self.lemma_and_reads(INDEXED_INDIRECT, first, second),
            0x22 => self.lemma_jam_reads(first, second),
            0x23 => self.lemma_rla_reads(INDEXED_INDIRECT, first, second),
            0x24 => self.lemma_bit_reads(ZERO_PAGE, first, second),
            0x25 => self.lemma_and_reads(ZERO_PAGE, first, second),
            0x26 => self.lemma_rol_reads(ZERO_PAGE, first, second),
            0x27 => self.lemma_rla_reads(ZERO_PAGE, first, second),
            0x28 => {
                self.lemma_stack_instructions(first);
                self.lemma_stack_instructions_read(first, second)
            },
            0x29 => self.lemma_and_reads(IMMEDIATE, first, second),
            0x2a => self.lemma_rol_reads(ACCUMULATOR, first, second),
            0x2b => self.lemma_anc_reads(IMMEDIATE, first, second),
            0x2c => self.lemma_bit_reads(ABSOLUTE, first, second),
            0x2d => self.lemma_and_reads(ABSOLUTE, first, second),
            0x2e => self.lemma_rol_reads(ABSOLUTE, first, second),
            _ => self.lemma_rla_reads(ABSOLUTE, first, second),
        }
    }

    /// The instructions behind the opcodes from 0x30 to 0x3f read nothing of the log but
    /// the answers to their own bus cycles.
    proof fn lemma_execute_30_reads(self, opcode: u8, first: Seq<Cycle>, second: Seq<Cycle>)
        requires
            0x30 <= opcode <= 0x3f,
            same_answers(first, second, self.now(), self.execute(opcode, first).now()),
        ensures
            self.execute(opcode, first) == self.execute(opcode, second),
    {
        match opcode {
            0x30 => self.lemma_branch_reads(self.p.n, first, second),
            0x31 => self.lemma_and_reads(INDIRECT_INDEXED, first, second),
            0x32 => self.lemma_jam_reads(first, second),
            0x33 => self.lemma_rla_reads(INDIRECT_INDEXED, first, second),
            0x34 => self.lemma_nop_reads(ZERO_PAGE_X, first, second),
            0x35 => self.lemma_and_reads(ZERO_PAGE_X, first, second),
            0x36 => self.lemma_rol_reads(ZERO_PAGE_X, first, second),
            0x37 => self.lemma_rla_reads(ZERO_PAGE_X, first, second),
            0x38 => self.lemma_sec_reads(first, second),
            0x39 => self.lemma_and_reads(ABSOLUTE_Y, first, second),
            0x3a => self.lemma_nop_reads(IMPLIED, first, second),
            0x3b => self.lemma_rla_reads(ABSOLUTE_Y, first, second),
            0x3c => self.lemma_nop_reads(ABSOLUTE_X, first, second),
            0x3d => self.lemma_and_reads(ABSOLUTE_X, first, second),
            0x3e => self.lemma_rol_reads(ABSOLUTE_X, first, second),
            _ => self.lemma_rla_reads(ABSOLUTE_X, first, second),
        }
    }

    /// The instructions behind the opcodes from 0x40 to 0x4f read nothing of the log but
    /// the answers to their own bus cycles.
    proof fn lemma_execute_40_reads(self, opcode: u8, first: Seq<Cycle>, second: Seq<Cycle>)
        requires
            0x40 <= opcode <= 0x4f,
            same_answers(first, second, self.now(), self.execute(opcode, first).now()),
        ensures
            self.execute(opcode, first) == self.execute(opcode, second),
    {
        match opcode {
            0x40 => {
                self.lemma_rti(first);
                self.lemma_rti_reads(first, second)
            },
            0x41 => self.lemma_eor_reads(INDEXED_INDIRECT, first, second),
            0x42 => self.lemma_jam_reads(first, second),
            0x43 => self.lemma_sre_reads(INDEXED_INDIRECT, first, second),
            0x44 => self.lemma_nop_reads(ZERO_PAGE, first, second),
            0x45 => self.lemma_eor_reads(ZERO_PAGE, first, second),
            0x46 => self.lemma_lsr_reads(ZERO_PAGE, first, second),
            0x47 => self.lemma_sre_reads(ZERO_PAGE, first, second),
            0x48 => {
                self.lemma_stack_instructions(first);
                self.lemma_stack_instructions_read(first, second)
            },
            0x49 => self.lemma_eor_reads(IMMEDIATE, first, second),
            0x4a => self.lemma_lsr_reads(ACCUMULATOR, first, second),
            0x4b => self.lemma_alr_reads(IMMEDIATE, first, second),
            0x4c => self.lemma_jmp_reads(ABSOLUTE, first, second),
            0x4d => self.lemma_eor_reads(ABSOLUTE, first, second),
            0x4e => self.lemma_lsr_reads(ABSOLUTE, first, second),
            _ => self.lemma_sre_reads(ABSOLUTE, first, second),
        }
    }

    /// The instructions behind the opcodes from 0x50 to 0x5f read nothing of the log but
    /// the answers to their own bus cycles.
    proof fn lemma_execute_50_reads(self, opcode: u8, first: Seq<Cycle>, second: Seq<Cycle>)
        requires
            0x50 <= opcode <= 0x5f,
            same_answers(first, second, self.now(), self.execute(opcode, first).now()),
        ensures
            self.execute(opcode, first) == self.execute(opcode, second),
    {
        match opcode {
            0x50 => self.lemma_branch_reads(!self.p.v, first, second),
            0x51 => self.lemma_eor_reads(INDIRECT_INDEXED, first, second),
            0x52 => self.lemma_jam_reads(first, second),
            0x53 => self.lemma_sre_reads(INDIRECT_INDEXED, first, second),
            0x54 => self.lemma_nop_reads(ZERO_PAGE_X, first, second),
            0x55 => self.lemma_eor_reads(ZERO_PAGE_X, first, second),
            0x56 => self.lemma_lsr_reads(ZERO_PAGE_X, first, second),
            0x57 => self.lemma_sre_reads(ZERO_PAGE_X, first, second),
            0x58 => self.lemma_cli_reads(first, second),
            0x59 => self.lemma_eor_reads(ABSOLUTE_Y, first, second),
            0x5a => self.lemma_nop_reads(IMPLIED, first, second),
            0x5b => self.lemma_sre_reads(ABSOLUTE_Y, first, second),
            0x5c => self.lemma_nop_reads(ABSOLUTE_X, first, second),
            0x5d => self.lemma_eor_reads(ABSOLUTE_X, first, second),
            0x5e => self.lemma_lsr_reads(ABSOLUTE_X, first, second),
            _ => self.lemma_sre_reads(ABSOLUTE_X, first, second),
        }
    }

    /// The instructions behind the opcodes from 0x60 to 0x6f read nothing of the log but
    /// the answers to their own bus cycles.
    proof fn lemma_execute_60_reads(self, opcode: u8, first: Seq<Cycle>, second: Seq<Cycle>)
        requires
            0x60 <= opcode <= 0x6f,
            same_answers(first, second, self.now(), self.execute(opcode, first).now()),
        ensures
            self.execute(opcode, first) == self.execute(opcode, second),
    {
        match opcode {
            0x60 => {
                self.lemma_rts(first);
                self.lemma_rts_reads(first, second)
            },
            0x61 => self.lemma_adc_reads(INDEXED_INDIRECT, first, second),
            0x62 => self.lemma_jam_reads(first, second),
            0x63 => self.lemma_rra_reads(INDEXED_INDIRECT, first, second),
            0x64 => self.lemma_nop_reads(ZERO_PAGE, first, second),
            0x65 => self.lemma_adc_reads(ZERO_PAGE, first, second),
            0x66 => self.lemma_ror_reads(ZERO_PAGE, first, second),
            0x67 => self.lemma_rra_reads(ZERO_PAGE, first, second),
            0x68 => {
                self.lemma_stack_instructions(first);
                self.lemma_stack_instructions_read(first, second)
            },
            0x69 => self.lemma_adc_reads(IMMEDIATE, first, second),
            0x6a => self.lemma_ror_reads(ACCUMULATOR, first, second),
            0x6b => self.lemma_arr_reads(IMMEDIATE, first, second),
            0x6c => self.lemma_jmp_reads(INDIRECT, first, second),
            0x6d => self.lemma_adc_reads(ABSOLUTE, first, second),
            0x6e => self.lemma_ror_reads(ABSOLUTE, first, second),
            _ => self.lemma_rra_reads(ABSOLUTE, first, second),
        }
    }

    /// The instructions behind the opcodes from 0x70 to 0x7f read nothing of the log but
    /// the answers to their own bus cycles.
    proof fn lemma_execute_70_reads(self, opcode: u8, first: Seq<Cycle>, second: Seq<Cycle>)
        requires
            0x70 <= opcode <= 0x7f,
            same_answers(first, second, self.now(), self.execute(opcode, first).now()),
        ensures
            self.execute(opcode, first) == self.execute(opcode, second),
    {
        match opcode {
            0x70 => self.lemma_branch_reads(self.p.v, first, second),
            0x71 => self.lemma_adc_reads(INDIRECT_INDEXED, first, second),
            0x72 => self.lemma_jam_reads(first, second),
            0x73 => self.lemma_rra_reads(INDIRECT_INDEXED, first, second),
            0x74 => self.lemma_nop_reads(ZERO_PAGE_X, first, second),
            0x75 => self.lemma_adc_reads(ZERO_PAGE_X, first, second),
            0x76 => self.lemma_ror_reads(ZERO_PAGE_X, first, second),
            0x77 => self.lemma_rra_reads(ZERO_PAGE_X, first, second),
            0x78 => self.lemma_sei_reads(first, second),
            0x79 => self.lemma_adc_reads(ABSOLUTE_Y, first, second),
            0x7a => self.lemma_nop_reads(IMPLIED, first, second),
            0x7b => self.lemma_rra_reads(ABSOLUTE_Y, first, second),
            0x7c => self.lemma_nop_reads(ABSOLUTE_X, first, second),
            0x7d => self.lemma_adc_reads(ABSOLUTE_X, first, second),
            0x7e => self.lemma_ror_reads(ABSOLUTE_X, first, second),
            _ => self.lemma_rra_reads(ABSOLUTE_X, first, second),
        }
    }

    /// The instructions behind the opcodes from 0x80 to 0x8f read nothing of the log but
    /// the answers to their own bus cycles.
    proof fn lemma_execute_80_reads(self, opcode: u8, first: Seq<Cycle>, second: Seq<Cycle>)
        requires
            0x80 <= opcode <= 0x8f,
            same_answers(first, second, self.now(), self.execute(opcode, first).now()),
        ensures
            self.execute(opcode, first) == self.execute(opcode, second),
    {
        match opcode {
            0x80 => self.lemma_nop_reads(IMMEDIATE, first, second),
            0x81 => self.lemma_sta_reads(INDEXED_INDIRECT, first, second),
            0x82 => self.lemma_nop_reads(IMMEDIATE, first, second),
            0x83 => self.lemma_sax_reads(INDEXED_INDIRECT, first, second),
            0x84 => self.lemma_sty_reads(ZERO_PAGE, first, second),
            0x85 => self.lemma_sta_reads(ZERO_PAGE, first, second),
            0x86 => self.lemma_stx_reads(ZERO_PAGE, first, second),
            0x87 => self.lemma_sax_reads(ZERO_PAGE, first, second),
            0x88 => self.lemma_dey_reads(first, second),
            0x89 => self.lemma_nop_reads(IMMEDIATE, first, second),
            0x8a => self.lemma_txa_reads(first, second),
            0x8b => self.lemma_ane_reads(IMMEDIATE, first, second),
            0x8c => self.lemma_sty_reads(ABSOLUTE, first, second),
            0x8d => self.lemma_sta_reads(ABSOLUTE, first, second),
            0x8e => self.lemma_stx_reads(ABSOLUTE, first, second),
            _ => self.lemma_sax_reads(ABSOLUTE, first, second),
        }
    }

    /// The instructions behind the opcodes from 0x90 to 0x9f read nothing of the log but
    /// the answers to their own bus cycles.
    proof fn lemma_execute_90_reads(self, opcode: u8, first: Seq<Cycle>, second: Seq<Cycle>)
        requires
            0x90 <= opcode <= 0x9f,
            same_answers(first, second, self.now(), self.execute(opcode, first).now()),
        ensures
            self.execute(opcode, first) == self.execute(opcode, second),
    {
        match opcode {
            0x90 => self.lemma_branch_reads(!self.p.c, first, second),
            0x91 => self.lemma_sta_reads(INDIRECT_INDEXED, first, second),
            0x92 => self.lemma_jam_reads(first, second),
            0x93 => self.lemma_sha_reads(INDIRECT_INDEXED, first, second),
            0x94 => self.lemma_sty_reads(ZERO_PAGE_X, first, second),
            0x95 => self.lemma_sta_reads(ZERO_PAGE_X, first, second),
            0x96 => self.lemma_stx_reads(ZERO_PAGE_Y, first, second),
            0x97 => self.lemma_sax_reads(ZERO_PAGE_Y, first, second),
            0x98 => self.lemma_tya_reads(first, second),
            0x99 => self.lemma_sta_reads(ABSOLUTE_Y, first, second),
            0x9a => self.lemma_txs_reads(first, second),
            0x9b => self.lemma_tas_reads(ABSOLUTE_Y, first, second),
            0x9c => self.lemma_shy_reads(ABSOLUTE_X, first, second),
            0x9d => self.lemma_sta_reads(ABSOLUTE_X, first, second),
            0x9e => self.lemma_shx_reads(ABSOLUTE_Y, first, second),
            _ => self.lemma_sha_reads(ABSOLUTE_Y, first, second),
        }
    }

    /// The instructions behind the opcodes from 0xa0 to 0xaf read nothing of the log but
    /// the answers to their own bus cycles.
    proof fn lemma_execute_a0_reads(self, opcode: u8, first: Seq<Cycle>, second: Seq<Cycle>)
        requires
            0xa0 <= opcode <= 0xaf,
            same_answers(first, second, self.now(), self.execute(opcode, first).now()),
        ensures
            self.execute(opcode, first) == self.execute(opcode, second),
    {
        match opcode {
            0xa0 => self.lemma_ldy_reads(IMMEDIATE, first, second),
            0xa1 => self.lemma_lda_reads(INDEXED_INDIRECT, first, second),
            0xa2 => self.lemma_ldx_reads(IMMEDIATE, first, second),
            0xa3 => self.lemma_lax_reads(INDEXED_INDIRECT, first, second),
            0xa4 => self.lemma_ldy_reads(ZERO_PAGE, first, second),
            0xa5 => self.lemma_lda_reads(ZERO_PAGE, first, second),
            0xa6 => self.lemma_ldx_reads(ZERO_PAGE, first, second),
            0xa7 => self.lemma_lax_reads(ZERO_PAGE, first, second),
            0xa8 => self.lemma_tay_reads(first, second),
            0xa9 => self.lemma_lda_reads(IMMEDIATE, first, second),
            0xaa => self.lemma_tax_reads(first, second),
            0xab => self.lemma_lxa_reads(IMMEDIATE, first, second),
            0xac => self.lemma_ldy_reads(ABSOLUTE, first, second),
            0xad => self.lemma_lda_reads(ABSOLUTE, first, second),
            0xae => self.lemma_ldx_reads(ABSOLUTE, first, second),
            _ => self.lemma_lax_reads(ABSOLUTE, first, second),
        }
    }

    /// The instructions behind the opcodes from 0xb0 to 0xbf read nothing of the log but
    /// the answers to their own bus cycles.
    proof fn lemma_execute_b0_reads(self, opcode: u8, first: Seq<Cycle>, second: Seq<Cycle>)
        requires
            0xb0 <= opcode <= 0xbf,
            same_answers(first, second, self.now(), self.execute(opcode, first).now()),
        ensures
            self.execute(opcode, first) == self.execute(opcode, second),
    {
        match opcode {
            0xb0 => self.lemma_branch_reads(self.p.c, first, second),
            0xb1 => self.lemma_lda_reads(INDIRECT_INDEXED, first, second),
            0xb2 => self.lemma_jam_reads(first, second),
            0xb3 => self.lemma_lax_reads(INDIRECT_INDEXED, first, second),
            0xb4 => self.lemma_ldy_reads(ZERO_PAGE_X, first, second),
            0xb5 => self.lemma_lda_reads(ZERO_PAGE_X, first, second),
            0xb6 => self.lemma_ldx_reads(ZERO_PAGE_Y, first, second),
            0xb7 => self.lemma_lax_reads(ZERO_PAGE_Y, first, second),
            0xb8 => self.lemma_clv_reads(first, second),
            0xb9 => self.lemma_lda_reads(ABSOLUTE_Y, first, second),
            0xba => self.lemma_tsx_reads(first, second),
            0xbb => self.lemma_las_reads(ABSOLUTE_Y, first, second),
            0xbc => self.lemma_ldy_reads(ABSOLUTE_X, first, second),
            0xbd => self.lemma_lda_reads(ABSOLUTE_X, first, second),
            0xbe => self.lemma_ldx_reads(ABSOLUTE_Y, first, second),
            _ => self.lemma_lax_reads(ABSOLUTE_Y, first, second),
        }
    }

    /// The instructions behind the opcodes from 0xc0 to 0xcf read nothing of the log but
    /// the answers to their own bus cycles.
    proof fn lemma_execute_c0_reads(self, opcode: u8, first: Seq<Cycle>, second: Seq<Cycle>)
        requires
            0xc0 <= opcode <= 0xcf,
            same_answers(first, second, self.now(), self.execute(opcode, first).now()),
        ensures
            self.execute(opcode, first) == self.execute(opcode, second),
    {
        match opcode {
            0xc0 => self.lemma_cpy_reads(IMMEDIATE, first, second),
            0xc1 => self.lemma_cmp_reads(INDEXED_INDIRECT, first, second),
            0xc2 => self.lemma_nop_reads(IMMEDIATE, first, second),
            0xc3 => self.lemma_dcp_reads(INDEXED_INDIRECT, first, second),
            0xc4 => self.lemma_cpy_reads(ZERO_PAGE, first, second),
            0xc5 => self.lemma_cmp_reads(ZERO_PAGE, first, second),
            0xc6 => self.lemma_dec_reads(ZERO_PAGE, first, second),
            0xc7 => self.lemma_dcp_reads(ZERO_PAGE, first, second),
            0xc8 => self.lemma_iny_reads(first, second),
            0xc9 => self.lemma_cmp_reads(IMMEDIATE, first, second),
            0xca => self.lemma_dex_reads(first, second),
            0xcb => self.lemma_sbx_reads(IMMEDIATE, first, second),
            0xcc => self.lemma_cpy_reads(ABSOLUTE, first, second),
            0xcd => self.lemma_cmp_reads(ABSOLUTE, first, second),
            0xce => self.lemma_dec_reads(ABSOLUTE, first, second),
            _ => self.lemma_dcp_reads(ABSOLUTE, first, second),
        }
    }

    /// The instructions behind the opcodes from 0xd0 to 0xdf read nothing of the log but
    /// the answers to their own bus cycles.
    proof fn lemma_execute_d0_reads(self, opcode: u8, first: Seq<Cycle>, second: Seq<Cycle>)
        requires
            0xd0 <= opcode <= 0xdf,
            same_answers(first, second, self.now(), self.execute(opcode, first).now()),
        ensures
            self.execute(opcode, first) == self.execute(opcode, second),
    {
        match opcode {
            0xd0 => self.lemma_branch_reads(!self.p.z, first, second),
            0xd1 => self.lemma_cmp_reads(INDIRECT_INDEXED, first, second),
            0xd2 => self.lemma_jam_reads(first, second),
            0xd3 => self.lemma_dcp_reads(INDIRECT_INDEXED, first, second),
            0xd4 => self.lemma_nop_reads(ZERO_PAGE_X, first, second),
            0xd5 => self.lemma_cmp_reads(ZERO_PAGE_X, first, second),
            0xd6 => self.lemma_dec_reads(ZERO_PAGE_X, first, second),
            0xd7 => self.lemma_dcp_reads(ZERO_PAGE_X, first, second),
            0xd8 => self.lemma_cld_reads(first, second),
            0xd9 => self.lemma_cmp_reads(ABSOLUTE_Y, first, second),
            0xda => self.lemma_nop_reads(IMPLIED, first, second),
            0xdb => self.lemma_dcp_reads(ABSOLUTE_Y, first, second),
            0xdc => self.lemma_nop_reads(ABSOLUTE_X, first, second),
            0xdd => self.lemma_cmp_reads(ABSOLUTE_X, first, second),
            0xde => self.lemma_dec_reads(ABSOLUTE_X, first, second),
            _ => self.lemma_dcp_reads(ABSOLUTE_X, first, second),
        }
    }

    /// The instructions behind the opcodes from 0xe0 to 0xef read nothing of the log but
    /// the answers to their own bus cycles.
    proof fn lemma_execute_e0_reads(self, opcode: u8, first: Seq<Cycle>, second: Seq<Cycle>)
        requires
            0xe0 <= opcode <= 0xef,
            same_answers(first, second, self.now(), self.execute(opcode, first).now()),
        ensures
            self.execute(opcode, first) == self.execute(opcode, second),
    {
        match opcode {
            0xe0 => self.lemma_cpx_reads(IMMEDIATE, first, second),
            0xe1 => self.lemma_sbc_reads(INDEXED_INDIRECT, first, second),
            0xe2 => self.lemma_nop_reads(IMMEDIATE, first, second),
            0xe3 => self.lemma_isb_reads(INDEXED_INDIRECT, first, second),
            0xe4 => self.lemma_cpx_reads(ZERO_PAGE, first, second),
            0xe5 => self.lemma_sbc_reads(ZERO_PAGE, first, second),
            0xe6 => self.lemma_inc_reads(ZERO_PAGE, first, second),
            0xe7 => self.lemma_isb_reads(ZERO_PAGE, first, second),
            0xe8 => self.lemma_inx_reads(first, second),
            0xe9 => self.lemma_sbc_reads(IMMEDIATE, first, second),
            0xea => self.lemma_nop_reads(IMPLIED, first, second),
            0xeb => self.lemma_sbc_reads(IMMEDIATE, first, second),
            0xec => self.lemma_cpx_reads(ABSOLUTE, first, second),
            0xed => self.lemma_sbc_reads(ABSOLUTE, first, second),
            0xee => self.lemma_inc_reads(ABSOLUTE, first, second),
            _ => self.lemma_isb_reads(ABSOLUTE, first, second),
        }
    }

    /// The instructions behind the opcodes from 0xf0 to 0xff read nothing of the log but
    /// the answers to their own bus cycles.
    proof fn lemma_execute_f0_reads(self, opcode: u8, first: Seq<Cycle>, second: Seq<Cycle>)
        requires
            0xf0 <= opcode <= 0xff,
            same_answers(first, second, self.now(), self.execute(opcode, first).now()),
        ensures
            self.execute(opcode, first) == self.execute(opcode, second),
    {
        match opcode {
            0xf0 => self.lemma_branch_reads(self.p.z, first, second),
            0xf1 => self.lemma_sbc_reads(INDIRECT_INDEXED, first, second),
            0xf2 => self.lemma_jam_reads(first, second),
            0xf3 => self.lemma_isb_reads(INDIRECT_INDEXED, first, second),
            0xf4 => self.lemma_nop_reads(ZERO_PAGE_X, first, second),
            0xf5 => self.lemma_sbc_reads(ZERO_PAGE_X, first, second),
            0xf6 => self.lemma_inc_reads(ZERO_PAGE_X, first, second),
            0xf7 => self.lemma_isb_reads(ZERO_PAGE_X, first, second),
            0xf8 => self.lemma_sed_reads(first, second),
            0xf9 => self.lemma_sbc_reads(ABSOLUTE_Y, first, second),
            0xfa => self.lemma_nop_reads(IMPLIED, first, second),
            0xfb => self.lemma_isb_reads(ABSOLUTE_Y, first, second),
            0xfc => self.lemma_nop_reads(ABSOLUTE_X, first, second),
            0xfd => self.lemma_sbc_reads(ABSOLUTE_X, first, second),
            0xfe => self.lemma_inc_reads(ABSOLUTE_X, first, second),
            _ => self.lemma_isb_reads(ABSOLUTE_X, first, second),
        }
    }

    /// An instruction reads nothing of the log but the answers to its own bus cycles.
    pub proof fn lemma_execute_reads(self, opcode: u8, first: Seq<Cycle>, second: Seq<Cycle>)
        requires
            same_answers(first, second, self.now(), self.execute(opcode, first).now()),
        ensures
            self.execute(opcode, first) == self.execute(opcode, second),
    {
        if opcode <= 0x0f {
            self.lemma_execute_00_reads(opcode, first, second);
        } else if opcode <= 0x1f {
            self.lemma_execute_10_reads(opcode, first, second);
        } else if opcode <= 0x2f {
            self.lemma_execute_20_reads(opcode, first, second);
        } else if opcode <= 0x3f {
            self.lemma_execute_30_reads(opcode, first, second);
        } else if opcode <= 0x4f {
            self.lemma_execute_40_reads(opcode, first, second);
        } else if opcode <= 0x5f {
            self.lemma_execute_50_reads(opcode, first, second);
        } else if opcode <= 0x6f {
            self.lemma_execute_60_reads(opcode, first, second);
        } else if opcode <= 0x7f {
            self.lemma_execute_70_reads(opcode, first, second);
        } else if opcode <= 0x8f {
            self.lemma_execute_80_reads(opcode, first, second);
        } else if opcode <= 0x9f {
            self.lemma_execute_90_reads(opcode, first, second);
        } else if opcode <= 0xaf {
            self.lemma_execute_a0_reads(opcode, first, second);
        } else if opcode <= 0xbf {
            self.lemma_execute_b0_reads(opcode, first, second);
        } else if opcode <= 0xcf {
            self.lemma_execute_c0_reads(opcode, first, second);
        } else if opcode <= 0xdf {
            self.lemma_execute_d0_reads(opcode, first, second);
        } else if opcode <= 0xef {
            self.lemma_execute_e0_reads(opcode, first, second);
        } else {
            self.lemma_execute_f0_reads(opcode, first, second);
        }
    }

    /// A step is a function of the state before it and of what the host answers in the
    /// bus cycles of the step: two logs that hold the same answers for these cycles give
    /// the same step, whatever else they hold.
    pub proof fn law_step_goes_by_its_own_answers(self, first: Seq<Cycle>, second: Seq<Cycle>)
        requires
            same_answers(first, second, self.now(), self.step(first).now()),
        ensures
            self.step(first) == self.step(second),
    {
        self.law_step(first);
        match self.latch.due() {
            Some(kind) => {
                let idle = self.acknowledged().read(self.pc, first);
                idle.lemma_interrupt(kind, first);
                assert(idle == self.acknowledged().read(self.pc, second));
                idle.lemma_interrupt_reads(kind, first, second);
            },
            None => {
                let fetched = self.consume_byte(first);
                fetched.lemma_execute(self.opcode(first), first);
                assert(fetched == self.consume_byte(second));
                fetched.lemma_execute_reads(self.opcode(first), first, second);
            },
        }
    }

    /// A step stands in every log that holds its answers: if `after` is the step from
    /// `self` by the cycles that `after` has run, it is the step from `self` by every log
    /// that holds the same answers for the cycles of the step, such as the cycles of any
    /// later state. So the steps of a run can all be stated over the cycles of its last
    /// state.
    pub proof fn law_step_stands_in_a_longer_log(self, after: State, log: Seq<Cycle>)
        requires
            after == self.step(after.trace),
            same_answers(after.trace, log, self.now(), after.now()),
        ensures
            after == self.step(log),
    {
        self.law_step_goes_by_its_own_answers(after.trace, log);
    }
}

} // verus!

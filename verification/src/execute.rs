use vstd::prelude::*;
use crate::addressing::{
    ABSOLUTE, ABSOLUTE_X, ABSOLUTE_Y, ACCUMULATOR, IMMEDIATE, IMPLIED, INDEXED_INDIRECT, INDIRECT,
    INDIRECT_INDEXED, ZERO_PAGE, ZERO_PAGE_X, ZERO_PAGE_Y,
};
use crate::bus::Bus;
use crate::cpu::Cpu;
use crate::decode::{base_cycles, decode, pays_for_crossing, Op};
use crate::interrupts::BRK;
use crate::model::{Cycle, State};

verus! {

impl State {
    /// Runs the instruction that `opcode` stands for, the opcode having been fetched.
    pub open spec fn execute(self, opcode: u8, log: Seq<Cycle>) -> State {
        let instruction = decode(opcode);
        match instruction.op {
            Op::Adc => self.adc(instruction.mode, log),
            Op::Alr => self.alr(instruction.mode, log),
            Op::Anc => self.anc(instruction.mode, log),
            Op::And => self.and(instruction.mode, log),
            Op::Ane => self.ane(instruction.mode, log),
            Op::Arr => self.arr(instruction.mode, log),
            Op::Asl => self.asl(instruction.mode, log),
            Op::Bcc => self.bcc(log),
            Op::Bcs => self.bcs(log),
            Op::Beq => self.beq(log),
            Op::Bit => self.bit(instruction.mode, log),
            Op::Bmi => self.bmi(log),
            Op::Bne => self.bne(log),
            Op::Bpl => self.bpl(log),
            Op::Brk => self.interrupt(BRK, log),
            Op::Bvc => self.bvc(log),
            Op::Bvs => self.bvs(log),
            Op::Clc => self.clc(log),
            Op::Cld => self.cld(log),
            Op::Cli => self.cli(log),
            Op::Clv => self.clv(log),
            Op::Cmp => self.cmp(instruction.mode, log),
            Op::Cpx => self.cpx(instruction.mode, log),
            Op::Cpy => self.cpy(instruction.mode, log),
            Op::Dcp => self.dcp(instruction.mode, log),
            Op::Dec => self.dec(instruction.mode, log),
            Op::Dex => self.dex(log),
            Op::Dey => self.dey(log),
            Op::Eor => self.eor(instruction.mode, log),
            Op::Inc => self.inc(instruction.mode, log),
            Op::Inx => self.inx(log),
            Op::Iny => self.iny(log),
            Op::Isb => self.isb(instruction.mode, log),
            Op::Jam => self.jam(log),
            Op::Jmp => self.jmp(instruction.mode, log),
            Op::Jsr => self.jsr(log),
            Op::Las => self.las(instruction.mode, log),
            Op::Lax => self.lax(instruction.mode, log),
            Op::Lda => self.lda(instruction.mode, log),
            Op::Ldx => self.ldx(instruction.mode, log),
            Op::Ldy => self.ldy(instruction.mode, log),
            Op::Lsr => self.lsr(instruction.mode, log),
            Op::Lxa => self.lxa(instruction.mode, log),
            Op::Nop => self.nop(instruction.mode, log),
            Op::Ora => self.ora(instruction.mode, log),
            Op::Pha => self.pha(log),
            Op::Php => self.php(log),
            Op::Pla => self.pla(log),
            Op::Plp => self.plp(log),
            Op::Rla => self.rla(instruction.mode, log),
            Op::Rol => self.rol(instruction.mode, log),
            Op::Ror => self.ror(instruction.mode, log),
            Op::Rra => self.rra(instruction.mode, log),
            Op::Rti => self.rti(log),
            Op::Rts => self.rts(log),
            Op::Sax => self.sax(instruction.mode, log),
            Op::Sbc => self.sbc(instruction.mode, log),
            Op::Sbx => self.sbx(instruction.mode, log),
            Op::Sec => self.sec(log),
            Op::Sed => self.sed(log),
            Op::Sei => self.sei(log),
            Op::Sha => self.sha(instruction.mode, log),
            Op::Shx => self.shx(instruction.mode, log),
            Op::Shy => self.shy(instruction.mode, log),
            Op::Slo => self.slo(instruction.mode, log),
            Op::Sre => self.sre(instruction.mode, log),
            Op::Sta => self.sta(instruction.mode, log),
            Op::Stx => self.stx(instruction.mode, log),
            Op::Sty => self.sty(instruction.mode, log),
            Op::Tas => self.tas(instruction.mode, log),
            Op::Tax => self.tax(log),
            Op::Tay => self.tay(log),
            Op::Tsx => self.tsx(log),
            Op::Txa => self.txa(log),
            Op::Txs => self.txs(log),
            Op::Tya => self.tya(log),
        }
    }

    /// Whether the branch `op` is taken.
    pub open spec fn takes(self, op: Op) -> bool {
        match op {
            Op::Bcc => !self.p.c,
            Op::Bcs => self.p.c,
            Op::Beq => self.p.z,
            Op::Bmi => self.p.n,
            Op::Bne => !self.p.z,
            Op::Bpl => !self.p.n,
            Op::Bvc => !self.p.v,
            Op::Bvs => self.p.v,
            _ => false,
        }
    }

    /// The bus cycles that a page crossing and a taken branch add to the cycles of the
    /// timing table: one where an instruction that reads through an indexed address
    /// crosses a page, one where a branch is taken, and one more where the branch taken
    /// crosses a page.
    pub open spec fn penalty(self, opcode: u8, log: Seq<Cycle>) -> nat {
        let instruction = decode(opcode);
        let crossing: nat = if pays_for_crossing(opcode) && self.page_crossed(instruction.mode, log) {
            1
        } else {
            0
        };
        let branching: nat = if !self.takes(instruction.op) {
            0
        } else if self.branch_crosses(log) {
            2
        } else {
            1
        };
        crossing + branching
    }

    /// The number of bus cycles that the instruction behind `opcode` runs after the opcode
    /// fetch: one less than the timing table says, and those that a page crossing and a
    /// taken branch add.
    pub open spec fn execute_cycles(self, opcode: u8, log: Seq<Cycle>) -> nat {
        (base_cycles(opcode) - 1 + self.penalty(opcode, log)) as nat
    }
}

impl<B: Bus> Cpu<B> {
    /// Runs the instruction behind an opcode from 0x00 to 0x0f.
    fn execute_00(&mut self, opcode: u8)
        requires
            0x00 <= opcode <= 0x0f,
            old(self).cycles + 7 <= u64::MAX,
        ensures
            final(self)@ == old(self)@.execute(opcode, final(self)@.trace),
            old(self)@.advances(final(self)@, old(self)@.execute_cycles(opcode, final(self)@.trace)),
    {
        match opcode {
            0x00 => self.brk::<BRK>(),
            0x01 => self.ora::<INDEXED_INDIRECT>(),
            0x02 => self.jam(),
            0x03 => self.slo::<INDEXED_INDIRECT>(),
            0x04 => self.nop::<ZERO_PAGE>(),
            0x05 => self.ora::<ZERO_PAGE>(),
            0x06 => self.asl::<ZERO_PAGE>(),
            0x07 => self.slo::<ZERO_PAGE>(),
            0x08 => self.php(),
            0x09 => self.ora::<IMMEDIATE>(),
            0x0a => self.asl::<ACCUMULATOR>(),
            0x0b => self.anc::<IMMEDIATE>(),
            0x0c => self.nop::<ABSOLUTE>(),
            0x0d => self.ora::<ABSOLUTE>(),
            0x0e => self.asl::<ABSOLUTE>(),
            _ => self.slo::<ABSOLUTE>(),
        }
    }

    /// Runs the instruction behind an opcode from 0x10 to 0x1f.
    fn execute_10(&mut self, opcode: u8)
        requires
            0x10 <= opcode <= 0x1f,
            old(self).cycles + 7 <= u64::MAX,
        ensures
            final(self)@ == old(self)@.execute(opcode, final(self)@.trace),
            old(self)@.advances(final(self)@, old(self)@.execute_cycles(opcode, final(self)@.trace)),
    {
        match opcode {
            0x10 => self.bpl(),
            0x11 => self.ora::<INDIRECT_INDEXED>(),
            0x12 => self.jam(),
            0x13 => self.slo::<INDIRECT_INDEXED>(),
            0x14 => self.nop::<ZERO_PAGE_X>(),
            0x15 => self.ora::<ZERO_PAGE_X>(),
            0x16 => self.asl::<ZERO_PAGE_X>(),
            0x17 => self.slo::<ZERO_PAGE_X>(),
            0x18 => self.clc(),
            0x19 => self.ora::<ABSOLUTE_Y>(),
            0x1a => self.nop::<IMPLIED>(),
            0x1b => self.slo::<ABSOLUTE_Y>(),
            0x1c => self.nop::<ABSOLUTE_X>(),
            0x1d => self.ora::<ABSOLUTE_X>(),
            0x1e => self.asl::<ABSOLUTE_X>(),
            _ => self.slo::<ABSOLUTE_X>(),
        }
    }

    /// Runs the instruction behind an opcode from 0x20 to 0x2f.
    fn execute_20(&mut self, opcode: u8)
        requires
            0x20 <= opcode <= 0x2f,
            old(self).cycles + 7 <= u64::MAX,
        ensures
            final(self)@ == old(self)@.execute(opcode, final(self)@.trace),
            old(self)@.advances(final(self)@, old(self)@.execute_cycles(opcode, final(self)@.trace)),
    {
        match opcode {
            0x20 => self.jsr(),
            0x21 => self.and::<INDEXED_INDIRECT>(),
            0x22 => self.jam(),
            0x23 => self.rla::<INDEXED_INDIRECT>(),
            0x24 => self.bit::<ZERO_PAGE>(),
            0x25 => self.and::<ZERO_PAGE>(),
            0x26 => self.rol::<ZERO_PAGE>(),
            0x27 => self.rla::<ZERO_PAGE>(),
            0x28 => self.plp(),
            0x29 => self.and::<IMMEDIATE>(),
            0x2a => self.rol::<ACCUMULATOR>(),
            0x2b => self.anc::<IMMEDIATE>(),
            0x2c => self.bit::<ABSOLUTE>(),
            0x2d => self.and::<ABSOLUTE>(),
            0x2e => self.rol::<ABSOLUTE>(),
            _ => self.rla::<ABSOLUTE>(),
        }
    }

    /// Runs the instruction behind an opcode from 0x30 to 0x3f.
    fn execute_30(&mut self, opcode: u8)
        requires
            0x30 <= opcode <= 0x3f,
            old(self).cycles + 7 <= u64::MAX,
        ensures
            final(self)@ == old(self)@.execute(opcode, final(self)@.trace),
            old(self)@.advances(final(self)@, old(self)@.execute_cycles(opcode, final(self)@.trace)),
    {
        match opcode {
            0x30 => self.bmi(),
            0x31 => self.and::<INDIRECT_INDEXED>(),
            0x32 => self.jam(),
            0x33 => self.rla::<INDIRECT_INDEXED>(),
            0x34 => self.nop::<ZERO_PAGE_X>(),
            0x35 => self.and::<ZERO_PAGE_X>(),
            0x36 => self.rol::<ZERO_PAGE_X>(),
            0x37 => self.rla::<ZERO_PAGE_X>(),
            0x38 => self.sec(),
            0x39 => self.and::<ABSOLUTE_Y>(),
            0x3a => self.nop::<IMPLIED>(),
            0x3b => self.rla::<ABSOLUTE_Y>(),
            0x3c => self.nop::<ABSOLUTE_X>(),
            0x3d => self.and::<ABSOLUTE_X>(),
            0x3e => self.rol::<ABSOLUTE_X>(),
            _ => self.rla::<ABSOLUTE_X>(),
        }
    }

    /// Runs the instruction behind an opcode from 0x40 to 0x4f.
    fn execute_40(&mut self, opcode: u8)
        requires
            0x40 <= opcode <= 0x4f,
            old(self).cycles + 7 <= u64::MAX,
        ensures
            final(self)@ == old(self)@.execute(opcode, final(self)@.trace),
            old(self)@.advances(final(self)@, old(self)@.execute_cycles(opcode, final(self)@.trace)),
    {
        match opcode {
            0x40 => self.rti(),
            0x41 => self.eor::<INDEXED_INDIRECT>(),
            0x42 => self.jam(),
            0x43 => self.sre::<INDEXED_INDIRECT>(),
            0x44 => self.nop::<ZERO_PAGE>(),
            0x45 => self.eor::<ZERO_PAGE>(),
            0x46 => self.lsr::<ZERO_PAGE>(),
            0x47 => self.sre::<ZERO_PAGE>(),
            0x48 => self.pha(),
            0x49 => self.eor::<IMMEDIATE>(),
            0x4a => self.lsr::<ACCUMULATOR>(),
            0x4b => self.alr::<IMMEDIATE>(),
            0x4c => self.jmp::<ABSOLUTE>(),
            0x4d => self.eor::<ABSOLUTE>(),
            0x4e => self.lsr::<ABSOLUTE>(),
            _ => self.sre::<ABSOLUTE>(),
        }
    }

    /// Runs the instruction behind an opcode from 0x50 to 0x5f.
    fn execute_50(&mut self, opcode: u8)
        requires
            0x50 <= opcode <= 0x5f,
            old(self).cycles + 7 <= u64::MAX,
        ensures
            final(self)@ == old(self)@.execute(opcode, final(self)@.trace),
            old(self)@.advances(final(self)@, old(self)@.execute_cycles(opcode, final(self)@.trace)),
    {
        match opcode {
            0x50 => self.bvc(),
            0x51 => self.eor::<INDIRECT_INDEXED>(),
            0x52 => self.jam(),
            0x53 => self.sre::<INDIRECT_INDEXED>(),
            0x54 => self.nop::<ZERO_PAGE_X>(),
            0x55 => self.eor::<ZERO_PAGE_X>(),
            0x56 => self.lsr::<ZERO_PAGE_X>(),
            0x57 => self.sre::<ZERO_PAGE_X>(),
            0x58 => self.cli(),
            0x59 => self.eor::<ABSOLUTE_Y>(),
            0x5a => self.nop::<IMPLIED>(),
            0x5b => self.sre::<ABSOLUTE_Y>(),
            0x5c => self.nop::<ABSOLUTE_X>(),
            0x5d => self.eor::<ABSOLUTE_X>(),
            0x5e => self.lsr::<ABSOLUTE_X>(),
            _ => self.sre::<ABSOLUTE_X>(),
        }
    }

    /// Runs the instruction behind an opcode from 0x60 to 0x6f.
    fn execute_60(&mut self, opcode: u8)
        requires
            0x60 <= opcode <= 0x6f,
            old(self).cycles + 7 <= u64::MAX,
        ensures
            final(self)@ == old(self)@.execute(opcode, final(self)@.trace),
            old(self)@.advances(final(self)@, old(self)@.execute_cycles(opcode, final(self)@.trace)),
    {
        match opcode {
            0x60 => self.rts(),
            0x61 => self.adc::<INDEXED_INDIRECT>(),
            0x62 => self.jam(),
            0x63 => self.rra::<INDEXED_INDIRECT>(),
            0x64 => self.nop::<ZERO_PAGE>(),
            0x65 => self.adc::<ZERO_PAGE>(),
            0x66 => self.ror::<ZERO_PAGE>(),
            0x67 => self.rra::<ZERO_PAGE>(),
            0x68 => self.pla(),
            0x69 => self.adc::<IMMEDIATE>(),
            0x6a => self.ror::<ACCUMULATOR>(),
            0x6b => self.arr::<IMMEDIATE>(),
            0x6c => self.jmp::<INDIRECT>(),
            0x6d => self.adc::<ABSOLUTE>(),
            0x6e => self.ror::<ABSOLUTE>(),
            _ => self.rra::<ABSOLUTE>(),
        }
    }

    /// Runs the instruction behind an opcode from 0x70 to 0x7f.
    fn execute_70(&mut self, opcode: u8)
        requires
            0x70 <= opcode <= 0x7f,
            old(self).cycles + 7 <= u64::MAX,
        ensures
            final(self)@ == old(self)@.execute(opcode, final(self)@.trace),
            old(self)@.advances(final(self)@, old(self)@.execute_cycles(opcode, final(self)@.trace)),
    {
        match opcode {
            0x70 => self.bvs(),
            0x71 => self.adc::<INDIRECT_INDEXED>(),
            0x72 => self.jam(),
            0x73 => self.rra::<INDIRECT_INDEXED>(),
            0x74 => self.nop::<ZERO_PAGE_X>(),
            0x75 => self.adc::<ZERO_PAGE_X>(),
            0x76 => self.ror::<ZERO_PAGE_X>(),
            0x77 => self.rra::<ZERO_PAGE_X>(),
            0x78 => self.sei(),
            0x79 => self.adc::<ABSOLUTE_Y>(),
            0x7a => self.nop::<IMPLIED>(),
            0x7b => self.rra::<ABSOLUTE_Y>(),
            0x7c => self.nop::<ABSOLUTE_X>(),
            0x7d => self.adc::<ABSOLUTE_X>(),
            0x7e => self.ror::<ABSOLUTE_X>(),
            _ => self.rra::<ABSOLUTE_X>(),
        }
    }

    /// Runs the instruction behind an opcode from 0x80 to 0x8f.
    fn execute_80(&mut self, opcode: u8)
        requires
            0x80 <= opcode <= 0x8f,
            old(self).cycles + 7 <= u64::MAX,
        ensures
            final(self)@ == old(self)@.execute(opcode, final(self)@.trace),
            old(self)@.advances(final(self)@, old(self)@.execute_cycles(opcode, final(self)@.trace)),
    {
        match opcode {
            0x80 => self.nop::<IMMEDIATE>(),
            0x81 => self.sta::<INDEXED_INDIRECT>(),
            0x82 => self.nop::<IMMEDIATE>(),
            0x83 => self.sax::<INDEXED_INDIRECT>(),
            0x84 => self.sty::<ZERO_PAGE>(),
            0x85 => self.sta::<ZERO_PAGE>(),
            0x86 => self.stx::<ZERO_PAGE>(),
            0x87 => self.sax::<ZERO_PAGE>(),
            0x88 => self.dey(),
            0x89 => self.nop::<IMMEDIATE>(),
            0x8a => self.txa(),
            0x8b => self.ane::<IMMEDIATE>(),
            0x8c => self.sty::<ABSOLUTE>(),
            0x8d => self.sta::<ABSOLUTE>(),
            0x8e => self.stx::<ABSOLUTE>(),
            _ => self.sax::<ABSOLUTE>(),
        }
    }

    /// Runs the instruction behind an opcode from 0x90 to 0x9f.
    fn execute_90(&mut self, opcode: u8)
        requires
            0x90 <= opcode <= 0x9f,
            old(self).cycles + 7 <= u64::MAX,
        ensures
            final(self)@ == old(self)@.execute(opcode, final(self)@.trace),
            old(self)@.advances(final(self)@, old(self)@.execute_cycles(opcode, final(self)@.trace)),
    {
        match opcode {
            0x90 => self.bcc(),
            0x91 => self.sta::<INDIRECT_INDEXED>(),
            0x92 => self.jam(),
            0x93 => self.sha::<INDIRECT_INDEXED>(),
            0x94 => self.sty::<ZERO_PAGE_X>(),
            0x95 => self.sta::<ZERO_PAGE_X>(),
            0x96 => self.stx::<ZERO_PAGE_Y>(),
            0x97 => self.sax::<ZERO_PAGE_Y>(),
            0x98 => self.tya(),
            0x99 => self.sta::<ABSOLUTE_Y>(),
            0x9a => self.txs(),
            0x9b => self.tas::<ABSOLUTE_Y>(),
            0x9c => self.shy::<ABSOLUTE_X>(),
            0x9d => self.sta::<ABSOLUTE_X>(),
            0x9e => self.shx::<ABSOLUTE_Y>(),
            _ => self.sha::<ABSOLUTE_Y>(),
        }
    }

    /// Runs the instruction behind an opcode from 0xa0 to 0xaf.
    fn execute_a0(&mut self, opcode: u8)
        requires
            0xa0 <= opcode <= 0xaf,
            old(self).cycles + 7 <= u64::MAX,
        ensures
            final(self)@ == old(self)@.execute(opcode, final(self)@.trace),
            old(self)@.advances(final(self)@, old(self)@.execute_cycles(opcode, final(self)@.trace)),
    {
        match opcode {
            0xa0 => self.ldy::<IMMEDIATE>(),
            0xa1 => self.lda::<INDEXED_INDIRECT>(),
            0xa2 => self.ldx::<IMMEDIATE>(),
            0xa3 => self.lax::<INDEXED_INDIRECT>(),
            0xa4 => self.ldy::<ZERO_PAGE>(),
            0xa5 => self.lda::<ZERO_PAGE>(),
            0xa6 => self.ldx::<ZERO_PAGE>(),
            0xa7 => self.lax::<ZERO_PAGE>(),
            0xa8 => self.tay(),
            0xa9 => self.lda::<IMMEDIATE>(),
            0xaa => self.tax(),
            0xab => self.lxa::<IMMEDIATE>(),
            0xac => self.ldy::<ABSOLUTE>(),
            0xad => self.lda::<ABSOLUTE>(),
            0xae => self.ldx::<ABSOLUTE>(),
            _ => self.lax::<ABSOLUTE>(),
        }
    }

    /// Runs the instruction behind an opcode from 0xb0 to 0xbf.
    fn execute_b0(&mut self, opcode: u8)
        requires
            0xb0 <= opcode <= 0xbf,
            old(self).cycles + 7 <= u64::MAX,
        ensures
            final(self)@ == old(self)@.execute(opcode, final(self)@.trace),
            old(self)@.advances(final(self)@, old(self)@.execute_cycles(opcode, final(self)@.trace)),
    {
        match opcode {
            0xb0 => self.bcs(),
            0xb1 => self.lda::<INDIRECT_INDEXED>(),
            0xb2 => self.jam(),
            0xb3 => self.lax::<INDIRECT_INDEXED>(),
            0xb4 => self.ldy::<ZERO_PAGE_X>(),
            0xb5 => self.lda::<ZERO_PAGE_X>(),
            0xb6 => self.ldx::<ZERO_PAGE_Y>(),
            0xb7 => self.lax::<ZERO_PAGE_Y>(),
            0xb8 => self.clv(),
            0xb9 => self.lda::<ABSOLUTE_Y>(),
            0xba => self.tsx(),
            0xbb => self.las::<ABSOLUTE_Y>(),
            0xbc => self.ldy::<ABSOLUTE_X>(),
            0xbd => self.lda::<ABSOLUTE_X>(),
            0xbe => self.ldx::<ABSOLUTE_Y>(),
            _ => self.lax::<ABSOLUTE_Y>(),
        }
    }

    /// Runs the instruction behind an opcode from 0xc0 to 0xcf.
    fn execute_c0(&mut self, opcode: u8)
        requires
            0xc0 <= opcode <= 0xcf,
            old(self).cycles + 7 <= u64::MAX,
        ensures
            final(self)@ == old(self)@.execute(opcode, final(self)@.trace),
            old(self)@.advances(final(self)@, old(self)@.execute_cycles(opcode, final(self)@.trace)),
    {
        match opcode {
            0xc0 => self.cpy::<IMMEDIATE>(),
            0xc1 => self.cmp::<INDEXED_INDIRECT>(),
            0xc2 => self.nop::<IMMEDIATE>(),
            0xc3 => self.dcp::<INDEXED_INDIRECT>(),
            0xc4 => self.cpy::<ZERO_PAGE>(),
            0xc5 => self.cmp::<ZERO_PAGE>(),
            0xc6 => self.dec::<ZERO_PAGE>(),
            0xc7 => self.dcp::<ZERO_PAGE>(),
            0xc8 => self.iny(),
            0xc9 => self.cmp::<IMMEDIATE>(),
            0xca => self.dex(),
            0xcb => self.sbx::<IMMEDIATE>(),
            0xcc => self.cpy::<ABSOLUTE>(),
            0xcd => self.cmp::<ABSOLUTE>(),
            0xce => self.dec::<ABSOLUTE>(),
            _ => self.dcp::<ABSOLUTE>(),
        }
    }

    /// Runs the instruction behind an opcode from 0xd0 to 0xdf.
    fn execute_d0(&mut self, opcode: u8)
        requires
            0xd0 <= opcode <= 0xdf,
            old(self).cycles + 7 <= u64::MAX,
        ensures
            final(self)@ == old(self)@.execute(opcode, final(self)@.trace),
            old(self)@.advances(final(self)@, old(self)@.execute_cycles(opcode, final(self)@.trace)),
    {
        match opcode {
            0xd0 => self.bne(),
            0xd1 => self.cmp::<INDIRECT_INDEXED>(),
            0xd2 => self.jam(),
            0xd3 => self.dcp::<INDIRECT_INDEXED>(),
            0xd4 => self.nop::<ZERO_PAGE_X>(),
            0xd5 => self.cmp::<ZERO_PAGE_X>(),
            0xd6 => self.dec::<ZERO_PAGE_X>(),
            0xd7 => self.dcp::<ZERO_PAGE_X>(),
            0xd8 => self.cld(),
            0xd9 => self.cmp::<ABSOLUTE_Y>(),
            0xda => self.nop::<IMPLIED>(),
            0xdb => self.dcp::<ABSOLUTE_Y>(),
            0xdc => self.nop::<ABSOLUTE_X>(),
            0xdd => self.cmp::<ABSOLUTE_X>(),
            0xde => self.dec::<ABSOLUTE_X>(),
            _ => self.dcp::<ABSOLUTE_X>(),
        }
    }

    /// Runs the instruction behind an opcode from 0xe0 to 0xef.
    fn execute_e0(&mut self, opcode: u8)
        requires
            0xe0 <= opcode <= 0xef,
            old(self).cycles + 7 <= u64::MAX,
        ensures
            final(self)@ == old(self)@.execute(opcode, final(self)@.trace),
            old(self)@.advances(final(self)@, old(self)@.execute_cycles(opcode, final(self)@.trace)),
    {
        match opcode {
            0xe0 => self.cpx::<IMMEDIATE>(),
            0xe1 => self.sbc::<INDEXED_INDIRECT>(),
            0xe2 => self.nop::<IMMEDIATE>(),
            0xe3 => self.isb::<INDEXED_INDIRECT>(),
            0xe4 => self.cpx::<ZERO_PAGE>(),
            0xe5 => self.sbc::<ZERO_PAGE>(),
            0xe6 => self.inc::<ZERO_PAGE>(),
            0xe7 => self.isb::<ZERO_PAGE>(),
            0xe8 => self.inx(),
            0xe9 => self.sbc::<IMMEDIATE>(),
            0xea => self.nop::<IMPLIED>(),
            0xeb => self.sbc::<IMMEDIATE>(),
            0xec => self.cpx::<ABSOLUTE>(),
            0xed => self.sbc::<ABSOLUTE>(),
            0xee => self.inc::<ABSOLUTE>(),
            _ => self.isb::<ABSOLUTE>(),
        }
    }

    /// Runs the instruction behind an opcode from 0xf0 to 0xff.
    fn execute_f0(&mut self, opcode: u8)
        requires
            0xf0 <= opcode <= 0xff,
            old(self).cycles + 7 <= u64::MAX,
        ensures
            final(self)@ == old(self)@.execute(opcode, final(self)@.trace),
            old(self)@.advances(final(self)@, old(self)@.execute_cycles(opcode, final(self)@.trace)),
    {
        match opcode {
            0xf0 => self.beq(),
            0xf1 => self.sbc::<INDIRECT_INDEXED>(),
            0xf2 => self.jam(),
            0xf3 => self.isb::<INDIRECT_INDEXED>(),
            0xf4 => self.nop::<ZERO_PAGE_X>(),
            0xf5 => self.sbc::<ZERO_PAGE_X>(),
            0xf6 => self.inc::<ZERO_PAGE_X>(),
            0xf7 => self.isb::<ZERO_PAGE_X>(),
            0xf8 => self.sed(),
            0xf9 => self.sbc::<ABSOLUTE_Y>(),
            0xfa => self.nop::<IMPLIED>(),
            0xfb => self.isb::<ABSOLUTE_Y>(),
            0xfc => self.nop::<ABSOLUTE_X>(),
            0xfd => self.sbc::<ABSOLUTE_X>(),
            0xfe => self.inc::<ABSOLUTE_X>(),
            _ => self.isb::<ABSOLUTE_X>(),
        }
    }

    /// Runs the instruction that `opcode` stands for, the opcode having been fetched.
    pub(crate) fn execute(&mut self, opcode: u8)
        requires
            old(self).cycles + 7 <= u64::MAX,
        ensures
            final(self)@ == old(self)@.execute(opcode, final(self)@.trace),
            old(self)@.advances(final(self)@, old(self)@.execute_cycles(opcode, final(self)@.trace)),
    {
        match opcode {
            0x00..=0x0f => self.execute_00(opcode),
            0x10..=0x1f => self.execute_10(opcode),
            0x20..=0x2f => self.execute_20(opcode),
            0x30..=0x3f => self.execute_30(opcode),
            0x40..=0x4f => self.execute_40(opcode),
            0x50..=0x5f => self.execute_50(opcode),
            0x60..=0x6f => self.execute_60(opcode),
            0x70..=0x7f => self.execute_70(opcode),
            0x80..=0x8f => self.execute_80(opcode),
            0x90..=0x9f => self.execute_90(opcode),
            0xa0..=0xaf => self.execute_a0(opcode),
            0xb0..=0xbf => self.execute_b0(opcode),
            0xc0..=0xcf => self.execute_c0(opcode),
            0xd0..=0xdf => self.execute_d0(opcode),
            0xe0..=0xef => self.execute_e0(opcode),
            _ => self.execute_f0(opcode),
        }
    }
}

} // verus!

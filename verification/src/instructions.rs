use vstd::prelude::*;
use crate::addressing::{addressable, ACCUMULATOR, IMPLIED};
use crate::alu::{ASL, DCP, DEC, INC, ISB, LSR, RLA, ROL, ROR, RRA, SLO, SRE};
use crate::bus::Bus;
use crate::bytes::negative;
use crate::cpu::Cpu;
use crate::model::{Cycle, State};
use crate::status::{Flag, Flags, Status};

verus! {

impl State {
    /// ADC: adds the operand and the carry flag to A.
    pub open spec fn adc(self, mode: u8, log: Seq<Cycle>) -> State {
        let read = self.operand(mode, log);
        read.add(read.data())
    }

    /// ANC: ANDs the operand into A, and copies N into C.
    pub open spec fn anc(self, mode: u8, log: Seq<Cycle>) -> State {
        let read = self.operand(mode, log);
        let loaded = read.set_a(read.a & read.data());
        State { p: Flags { c: negative(loaded.a), ..loaded.p }, ..loaded }
    }

    /// AND: ANDs the operand into A.
    pub open spec fn and(self, mode: u8, log: Seq<Cycle>) -> State {
        let read = self.operand(mode, log);
        read.set_a(read.a & read.data())
    }

    /// ALR: ANDs the operand into A, then shifts A right; C is the bit shifted out.
    pub open spec fn alr(self, mode: u8, log: Seq<Cycle>) -> State {
        let read = self.operand(mode, log);
        let masked = read.a & read.data();
        let loaded = read.set_a(masked.wrapping_shr(1));
        State { p: Flags { c: masked & 0x01 != 0, ..loaded.p }, ..loaded }
    }

    /// ANE: unstable on the chip, where a constant is ORed into A before X and the operand
    /// are ANDed in; here the constant is 0xff, and A is loaded with X AND the operand.
    pub open spec fn ane(self, mode: u8, log: Seq<Cycle>) -> State {
        let read = self.operand(mode, log);
        read.set_a(read.x & read.data())
    }

    /// ARR: ANDs the operand into A, then rotates A right through the carry; C is bit 6 of
    /// the result, and V tells whether its bits 6 and 5 differ.
    pub open spec fn arr(self, mode: u8, log: Seq<Cycle>) -> State {
        let read = self.operand(mode, log);
        let masked = read.a & read.data();
        let loaded = read.set_a((if read.p.c { 0x80u8 } else { 0x00u8 }) | masked.wrapping_shr(1));
        State {
            p: Flags {
                c: loaded.a & 0x40 != 0,
                v: (loaded.a & 0x40 != 0) != (loaded.a & 0x20 != 0),
                ..loaded.p
            },
            ..loaded
        }
    }

    /// BIT: Z tells whether A and the operand share no bit; V and N are bits 6 and 7 of the
    /// operand. A stays as it is.
    pub open spec fn bit(self, mode: u8, log: Seq<Cycle>) -> State {
        let read = self.operand(mode, log);
        State {
            p: Flags {
                z: read.a & read.data() == 0,
                v: read.data() & 0x40 != 0,
                n: negative(read.data()),
                ..read.p
            },
            ..read
        }
    }

    /// CMP: compares A with the operand.
    pub open spec fn cmp(self, mode: u8, log: Seq<Cycle>) -> State {
        let read = self.operand(mode, log);
        read.compare(read.a, read.data())
    }

    /// CPX: compares X with the operand.
    pub open spec fn cpx(self, mode: u8, log: Seq<Cycle>) -> State {
        let read = self.operand(mode, log);
        read.compare(read.x, read.data())
    }

    /// CPY: compares Y with the operand.
    pub open spec fn cpy(self, mode: u8, log: Seq<Cycle>) -> State {
        let read = self.operand(mode, log);
        read.compare(read.y, read.data())
    }

    /// EOR: exclusive-ORs the operand into A.
    pub open spec fn eor(self, mode: u8, log: Seq<Cycle>) -> State {
        let read = self.operand(mode, log);
        read.set_a(read.a ^ read.data())
    }

    /// LAS: ANDs the operand with the stack pointer, and loads A, X and the stack pointer
    /// with the result.
    pub open spec fn las(self, mode: u8, log: Seq<Cycle>) -> State {
        let read = self.operand(mode, log);
        let value = read.data() & read.s;
        State { a: value, s: value, ..read.set_x(value) }
    }

    /// LAX: loads A and X with the operand.
    pub open spec fn lax(self, mode: u8, log: Seq<Cycle>) -> State {
        let read = self.operand(mode, log);
        State { a: read.data(), ..read.set_x(read.data()) }
    }

    /// LDA: loads A with the operand.
    pub open spec fn lda(self, mode: u8, log: Seq<Cycle>) -> State {
        let read = self.operand(mode, log);
        read.set_a(read.data())
    }

    /// LDX: loads X with the operand.
    pub open spec fn ldx(self, mode: u8, log: Seq<Cycle>) -> State {
        let read = self.operand(mode, log);
        read.set_x(read.data())
    }

    /// LDY: loads Y with the operand.
    pub open spec fn ldy(self, mode: u8, log: Seq<Cycle>) -> State {
        let read = self.operand(mode, log);
        read.set_y(read.data())
    }

    /// LXA: unstable on the chip, where a constant is ANDed in; here the constant is 0xff,
    /// and A and X are loaded with the operand.
    pub open spec fn lxa(self, mode: u8, log: Seq<Cycle>) -> State {
        let read = self.operand(mode, log);
        State { a: read.data(), ..read.set_x(read.data()) }
    }

    /// ORA: ORs the operand into A.
    pub open spec fn ora(self, mode: u8, log: Seq<Cycle>) -> State {
        let read = self.operand(mode, log);
        read.set_a(read.a | read.data())
    }

    /// SBC: subtracts the operand and the borrow, which is the carry flag inverted, from A,
    /// by adding the operand's complement.
    pub open spec fn sbc(self, mode: u8, log: Seq<Cycle>) -> State {
        let read = self.operand(mode, log);
        read.add(read.data() ^ 0xff)
    }

    /// SBX: subtracts the operand from A AND X, without borrow, and loads X with the
    /// difference; C tells whether A AND X was at least the operand.
    pub open spec fn sbx(self, mode: u8, log: Seq<Cycle>) -> State {
        let read = self.operand(mode, log);
        let loaded = read.set_x((read.a & read.x).wrapping_sub(read.data()));
        State { p: Flags { c: (read.a & read.x) >= read.data(), ..loaded.p }, ..loaded }
    }

    /// ASL: shifts the operand left.
    pub open spec fn asl(self, mode: u8, log: Seq<Cycle>) -> State {
        self.read_modify_write(mode, ASL, log).0
    }

    /// DCP: decrements the operand, then compares A with it.
    pub open spec fn dcp(self, mode: u8, log: Seq<Cycle>) -> State {
        let (written, result) = self.read_modify_write(mode, DCP, log);
        written.compare(written.a, result)
    }

    /// DEC: decrements the operand.
    pub open spec fn dec(self, mode: u8, log: Seq<Cycle>) -> State {
        self.read_modify_write(mode, DEC, log).0
    }

    /// INC: increments the operand.
    pub open spec fn inc(self, mode: u8, log: Seq<Cycle>) -> State {
        self.read_modify_write(mode, INC, log).0
    }

    /// ISB: increments the operand, then subtracts it from A.
    pub open spec fn isb(self, mode: u8, log: Seq<Cycle>) -> State {
        let (written, result) = self.read_modify_write(mode, ISB, log);
        written.add(result ^ 0xff)
    }

    /// LSR: shifts the operand right.
    pub open spec fn lsr(self, mode: u8, log: Seq<Cycle>) -> State {
        self.read_modify_write(mode, LSR, log).0
    }

    /// RLA: rotates the operand left, then ANDs it into A.
    pub open spec fn rla(self, mode: u8, log: Seq<Cycle>) -> State {
        let (written, result) = self.read_modify_write(mode, RLA, log);
        written.set_a(written.a & result)
    }

    /// ROL: rotates the operand left through the carry.
    pub open spec fn rol(self, mode: u8, log: Seq<Cycle>) -> State {
        self.read_modify_write(mode, ROL, log).0
    }

    /// ROR: rotates the operand right through the carry.
    pub open spec fn ror(self, mode: u8, log: Seq<Cycle>) -> State {
        self.read_modify_write(mode, ROR, log).0
    }

    /// RRA: rotates the operand right, then adds it to A.
    pub open spec fn rra(self, mode: u8, log: Seq<Cycle>) -> State {
        let (written, result) = self.read_modify_write(mode, RRA, log);
        written.add(result)
    }

    /// SLO: shifts the operand left, then ORs it into A.
    pub open spec fn slo(self, mode: u8, log: Seq<Cycle>) -> State {
        let (written, result) = self.read_modify_write(mode, SLO, log);
        written.set_a(written.a | result)
    }

    /// SRE: shifts the operand right, then exclusive-ORs it into A.
    pub open spec fn sre(self, mode: u8, log: Seq<Cycle>) -> State {
        let (written, result) = self.read_modify_write(mode, SRE, log);
        written.set_a(written.a ^ result)
    }

    /// SAX: stores A AND X.
    pub open spec fn sax(self, mode: u8, log: Seq<Cycle>) -> State {
        self.store(mode, self.a & self.x, log)
    }

    /// SHA: unstable on the chip; here it stores A AND X by the rule of `store_high`.
    pub open spec fn sha(self, mode: u8, log: Seq<Cycle>) -> State {
        self.store_high(mode, self.a & self.x, log)
    }

    /// SHX: unstable on the chip; here it stores X by the rule of `store_high`.
    pub open spec fn shx(self, mode: u8, log: Seq<Cycle>) -> State {
        self.store_high(mode, self.x, log)
    }

    /// SHY: unstable on the chip; here it stores Y by the rule of `store_high`.
    pub open spec fn shy(self, mode: u8, log: Seq<Cycle>) -> State {
        self.store_high(mode, self.y, log)
    }

    /// STA: stores A.
    pub open spec fn sta(self, mode: u8, log: Seq<Cycle>) -> State {
        self.store(mode, self.a, log)
    }

    /// STX: stores X.
    pub open spec fn stx(self, mode: u8, log: Seq<Cycle>) -> State {
        self.store(mode, self.x, log)
    }

    /// STY: stores Y.
    pub open spec fn sty(self, mode: u8, log: Seq<Cycle>) -> State {
        self.store(mode, self.y, log)
    }

    /// TAS: unstable on the chip; here it loads the stack pointer with A AND X, and stores
    /// that by the rule of `store_high`.
    pub open spec fn tas(self, mode: u8, log: Seq<Cycle>) -> State {
        State { s: self.a & self.x, ..self.store_high(mode, self.a & self.x, log) }
    }

    /// CLC: clears the carry flag.
    pub open spec fn clc(self, log: Seq<Cycle>) -> State {
        let idle = self.read(self.pc, log);
        State { p: idle.p.with(Flag::C, false), ..idle }
    }

    /// CLD: clears the decimal flag.
    pub open spec fn cld(self, log: Seq<Cycle>) -> State {
        let idle = self.read(self.pc, log);
        State { p: idle.p.with(Flag::D, false), ..idle }
    }

    /// CLI: enables interrupt requests.
    pub open spec fn cli(self, log: Seq<Cycle>) -> State {
        let idle = self.read(self.pc, log);
        State { p: idle.p.with(Flag::I, false), ..idle }
    }

    /// CLV: clears the overflow flag.
    pub open spec fn clv(self, log: Seq<Cycle>) -> State {
        let idle = self.read(self.pc, log);
        State { p: idle.p.with(Flag::V, false), ..idle }
    }

    /// SEC: sets the carry flag.
    pub open spec fn sec(self, log: Seq<Cycle>) -> State {
        let idle = self.read(self.pc, log);
        State { p: idle.p.with(Flag::C, true), ..idle }
    }

    /// SED: sets the decimal flag.
    pub open spec fn sed(self, log: Seq<Cycle>) -> State {
        let idle = self.read(self.pc, log);
        State { p: idle.p.with(Flag::D, true), ..idle }
    }

    /// SEI: disables interrupt requests.
    pub open spec fn sei(self, log: Seq<Cycle>) -> State {
        let idle = self.read(self.pc, log);
        State { p: idle.p.with(Flag::I, true), ..idle }
    }

    /// DEX: decrements X.
    pub open spec fn dex(self, log: Seq<Cycle>) -> State {
        let idle = self.read(self.pc, log);
        idle.set_x(idle.x.wrapping_sub(1))
    }

    /// DEY: decrements Y.
    pub open spec fn dey(self, log: Seq<Cycle>) -> State {
        let idle = self.read(self.pc, log);
        idle.set_y(idle.y.wrapping_sub(1))
    }

    /// INX: increments X.
    pub open spec fn inx(self, log: Seq<Cycle>) -> State {
        let idle = self.read(self.pc, log);
        idle.set_x(idle.x.wrapping_add(1))
    }

    /// INY: increments Y.
    pub open spec fn iny(self, log: Seq<Cycle>) -> State {
        let idle = self.read(self.pc, log);
        idle.set_y(idle.y.wrapping_add(1))
    }

    /// JAM: halts the chip; here it is a one-byte instruction that does nothing.
    pub open spec fn jam(self, log: Seq<Cycle>) -> State {
        let idle = self.read(self.pc, log);
        idle
    }

    /// TAX: loads X with A.
    pub open spec fn tax(self, log: Seq<Cycle>) -> State {
        let idle = self.read(self.pc, log);
        idle.set_x(idle.a)
    }

    /// TAY: loads Y with A.
    pub open spec fn tay(self, log: Seq<Cycle>) -> State {
        let idle = self.read(self.pc, log);
        idle.set_y(idle.a)
    }

    /// TSX: loads X with the stack pointer.
    pub open spec fn tsx(self, log: Seq<Cycle>) -> State {
        let idle = self.read(self.pc, log);
        idle.set_x(idle.s)
    }

    /// TXA: loads A with X.
    pub open spec fn txa(self, log: Seq<Cycle>) -> State {
        let idle = self.read(self.pc, log);
        idle.set_a(idle.x)
    }

    /// TXS: loads the stack pointer with X. No flag changes.
    pub open spec fn txs(self, log: Seq<Cycle>) -> State {
        let idle = self.read(self.pc, log);
        State { s: idle.x, ..idle }
    }

    /// TYA: loads A with Y.
    pub open spec fn tya(self, log: Seq<Cycle>) -> State {
        let idle = self.read(self.pc, log);
        idle.set_a(idle.y)
    }

    /// BCC: branches if the carry flag is clear.
    pub open spec fn bcc(self, log: Seq<Cycle>) -> State {
        self.branch(!self.p.c, log)
    }

    /// BCS: branches if the carry flag is set.
    pub open spec fn bcs(self, log: Seq<Cycle>) -> State {
        self.branch(self.p.c, log)
    }

    /// BEQ: branches if the zero flag is set.
    pub open spec fn beq(self, log: Seq<Cycle>) -> State {
        self.branch(self.p.z, log)
    }

    /// BMI: branches if the negative flag is set.
    pub open spec fn bmi(self, log: Seq<Cycle>) -> State {
        self.branch(self.p.n, log)
    }

    /// BNE: branches if the zero flag is clear.
    pub open spec fn bne(self, log: Seq<Cycle>) -> State {
        self.branch(!self.p.z, log)
    }

    /// BPL: branches if the negative flag is clear.
    pub open spec fn bpl(self, log: Seq<Cycle>) -> State {
        self.branch(!self.p.n, log)
    }

    /// BVC: branches if the overflow flag is clear.
    pub open spec fn bvc(self, log: Seq<Cycle>) -> State {
        self.branch(!self.p.v, log)
    }

    /// BVS: branches if the overflow flag is set.
    pub open spec fn bvs(self, log: Seq<Cycle>) -> State {
        self.branch(self.p.v, log)
    }

    /// NOP: does nothing, but an operand is still read where the instruction has one.
    pub open spec fn nop(self, mode: u8, log: Seq<Cycle>) -> State {
        if mode == IMPLIED {
            self.read(self.pc, log)
        } else {
            self.operand(mode, log)
        }
    }

    /// The number of bus cycles that `nop` runs.
    pub open spec fn nop_cycles(self, mode: u8, log: Seq<Cycle>) -> nat {
        if mode == IMPLIED {
            1
        } else {
            self.operand_cycles(mode, log)
        }
    }

    /// PHA: pushes A, after an idle read.
    pub open spec fn pha(self, log: Seq<Cycle>) -> State {
        let idle = self.read(self.pc, log);
        idle.push(idle.a, log)
    }

    /// PHP: pushes the status register, with B set in the pushed byte as U always is, after
    /// an idle read.
    pub open spec fn php(self, log: Seq<Cycle>) -> State {
        let idle = self.read(self.pc, log);
        idle.push(idle.p.pushed(true), log)
    }

    /// PLA: pulls A, after two idle reads, and sets Z and N from it.
    pub open spec fn pla(self, log: Seq<Cycle>) -> State {
        let pulled = self.read(self.pc, log).peek(log).pop(log);
        pulled.set_a(pulled.data())
    }

    /// PLP: pulls the status register, after two idle reads.
    pub open spec fn plp(self, log: Seq<Cycle>) -> State {
        let pulled = self.read(self.pc, log).peek(log).pop(log);
        State { p: pulled.p.pulled(pulled.data()), ..pulled }
    }
}

impl<B: Bus> Cpu<B> {
    /// ADC: adds the operand and the carry flag to A.
    pub(crate) fn adc<const M: u8>(&mut self)
        requires
            addressable(M),
            old(self).cycles + 7 <= u64::MAX,
        ensures
            final(self)@ == old(self)@.adc(M, final(self)@.trace),
            old(self)@.advances(final(self)@, old(self)@.operand_cycles(M, final(self)@.trace)),
    {
        let value = self.operand::<M>();
        self.add(value);
    }

    /// ANC: ANDs the operand into A, and copies N into C.
    pub(crate) fn anc<const M: u8>(&mut self)
        requires
            addressable(M),
            old(self).cycles + 7 <= u64::MAX,
        ensures
            final(self)@ == old(self)@.anc(M, final(self)@.trace),
            old(self)@.advances(final(self)@, old(self)@.operand_cycles(M, final(self)@.trace)),
    {
        let operand = self.operand::<M>();
        self.set_a(self.a & operand);

        self.p.set(Status::C, self.a & 0x80 != 0);
    }

    /// AND: ANDs the operand into A.
    pub(crate) fn and<const M: u8>(&mut self)
        requires
            addressable(M),
            old(self).cycles + 7 <= u64::MAX,
        ensures
            final(self)@ == old(self)@.and(M, final(self)@.trace),
            old(self)@.advances(final(self)@, old(self)@.operand_cycles(M, final(self)@.trace)),
    {
        let operand = self.operand::<M>();
        self.set_a(self.a & operand);
    }

    /// ALR: ANDs the operand into A, then shifts A right; C is the bit shifted out.
    pub(crate) fn alr<const M: u8>(&mut self)
        requires
            addressable(M),
            old(self).cycles + 7 <= u64::MAX,
        ensures
            final(self)@ == old(self)@.alr(M, final(self)@.trace),
            old(self)@.advances(final(self)@, old(self)@.operand_cycles(M, final(self)@.trace)),
    {
        let operand = self.operand::<M>();
        self.a = self.a & operand;
        let carry = self.a & 0x01 != 0;
        self.set_a(self.a.wrapping_shr(1));

        self.p.set(Status::C, carry);
    }

    /// ANE: unstable on the chip, where a constant is ORed into A before X and the operand
    /// are ANDed in; here the constant is 0xff, and A is loaded with X AND the operand.
    pub(crate) fn ane<const M: u8>(&mut self)
        requires
            addressable(M),
            old(self).cycles + 7 <= u64::MAX,
        ensures
            final(self)@ == old(self)@.ane(M, final(self)@.trace),
            old(self)@.advances(final(self)@, old(self)@.operand_cycles(M, final(self)@.trace)),
    {
        let operand = self.operand::<M>();
        self.set_a(self.x & operand);
    }

    /// ARR: ANDs the operand into A, then rotates A right through the carry; C is bit 6 of
    /// the result, and V tells whether its bits 6 and 5 differ.
    pub(crate) fn arr<const M: u8>(&mut self)
        requires
            addressable(M),
            old(self).cycles + 7 <= u64::MAX,
        ensures
            final(self)@ == old(self)@.arr(M, final(self)@.trace),
            old(self)@.advances(final(self)@, old(self)@.operand_cycles(M, final(self)@.trace)),
    {
        let operand = self.operand::<M>();
        self.a = self.a & operand;
        let carry: u8 = if self.p.contains(Status::C) { 0x80 } else { 0x00 };
        self.set_a(carry | self.a.wrapping_shr(1));

        self.p.set(Status::C, self.a & 0x40 != 0);
        self.p.set(Status::V, (self.a & 0x40 != 0) != (self.a & 0x20 != 0));
    }

    /// BIT: Z tells whether A and the operand share no bit; V and N are bits 6 and 7 of the
    /// operand. A stays as it is.
    pub(crate) fn bit<const M: u8>(&mut self)
        requires
            addressable(M),
            old(self).cycles + 7 <= u64::MAX,
        ensures
            final(self)@ == old(self)@.bit(M, final(self)@.trace),
            old(self)@.advances(final(self)@, old(self)@.operand_cycles(M, final(self)@.trace)),
    {
        let value = self.operand::<M>();

        self.p.set(Status::Z, self.a & value == 0);
        self.p.set(Status::V, value & 0x40 != 0);
        self.p.set(Status::N, value & 0x80 != 0);
    }

    /// CMP: compares A with the operand.
    pub(crate) fn cmp<const M: u8>(&mut self)
        requires
            addressable(M),
            old(self).cycles + 7 <= u64::MAX,
        ensures
            final(self)@ == old(self)@.cmp(M, final(self)@.trace),
            old(self)@.advances(final(self)@, old(self)@.operand_cycles(M, final(self)@.trace)),
    {
        let value = self.operand::<M>();
        self.compare(self.a, value);
    }

    /// CPX: compares X with the operand.
    pub(crate) fn cpx<const M: u8>(&mut self)
        requires
            addressable(M),
            old(self).cycles + 7 <= u64::MAX,
        ensures
            final(self)@ == old(self)@.cpx(M, final(self)@.trace),
            old(self)@.advances(final(self)@, old(self)@.operand_cycles(M, final(self)@.trace)),
    {
        let value = self.operand::<M>();
        self.compare(self.x, value);
    }

    /// CPY: compares Y with the operand.
    pub(crate) fn cpy<const M: u8>(&mut self)
        requires
            addressable(M),
            old(self).cycles + 7 <= u64::MAX,
        ensures
            final(self)@ == old(self)@.cpy(M, final(self)@.trace),
            old(self)@.advances(final(self)@, old(self)@.operand_cycles(M, final(self)@.trace)),
    {
        let value = self.operand::<M>();
        self.compare(self.y, value);
    }

    /// EOR: exclusive-ORs the operand into A.
    pub(crate) fn eor<const M: u8>(&mut self)
        requires
            addressable(M),
            old(self).cycles + 7 <= u64::MAX,
        ensures
            final(self)@ == old(self)@.eor(M, final(self)@.trace),
            old(self)@.advances(final(self)@, old(self)@.operand_cycles(M, final(self)@.trace)),
    {
        let operand = self.operand::<M>();
        self.set_a(self.a ^ operand);
    }

    /// LAS: ANDs the operand with the stack pointer, and loads A, X and the stack pointer
    /// with the result.
    pub(crate) fn las<const M: u8>(&mut self)
        requires
            addressable(M),
            old(self).cycles + 7 <= u64::MAX,
        ensures
            final(self)@ == old(self)@.las(M, final(self)@.trace),
            old(self)@.advances(final(self)@, old(self)@.operand_cycles(M, final(self)@.trace)),
    {
        let operand = self.operand::<M>();
        self.a = operand & self.s;
        self.set_x(self.a);
        self.s = self.a;
    }

    /// LAX: loads A and X with the operand.
    pub(crate) fn lax<const M: u8>(&mut self)
        requires
            addressable(M),
            old(self).cycles + 7 <= u64::MAX,
        ensures
            final(self)@ == old(self)@.lax(M, final(self)@.trace),
            old(self)@.advances(final(self)@, old(self)@.operand_cycles(M, final(self)@.trace)),
    {
        let value = self.operand::<M>();
        self.a = value;
        self.set_x(value);
    }

    /// LDA: loads A with the operand.
    pub(crate) fn lda<const M: u8>(&mut self)
        requires
            addressable(M),
            old(self).cycles + 7 <= u64::MAX,
        ensures
            final(self)@ == old(self)@.lda(M, final(self)@.trace),
            old(self)@.advances(final(self)@, old(self)@.operand_cycles(M, final(self)@.trace)),
    {
        let operand = self.operand::<M>();
        self.set_a(operand);
    }

    /// LDX: loads X with the operand.
    pub(crate) fn ldx<const M: u8>(&mut self)
        requires
            addressable(M),
            old(self).cycles + 7 <= u64::MAX,
        ensures
            final(self)@ == old(self)@.ldx(M, final(self)@.trace),
            old(self)@.advances(final(self)@, old(self)@.operand_cycles(M, final(self)@.trace)),
    {
        let operand = self.operand::<M>();
        self.set_x(operand);
    }

    /// LDY: loads Y with the operand.
    pub(crate) fn ldy<const M: u8>(&mut self)
        requires
            addressable(M),
            old(self).cycles + 7 <= u64::MAX,
        ensures
            final(self)@ == old(self)@.ldy(M, final(self)@.trace),
            old(self)@.advances(final(self)@, old(self)@.operand_cycles(M, final(self)@.trace)),
    {
        let operand = self.operand::<M>();
        self.set_y(operand);
    }

    /// LXA: unstable on the chip, where a constant is ANDed in; here the constant is 0xff,
    /// and A and X are loaded with the operand.
    pub(crate) fn lxa<const M: u8>(&mut self)
        requires
            addressable(M),
            old(self).cycles + 7 <= u64::MAX,
        ensures
            final(self)@ == old(self)@.lxa(M, final(self)@.trace),
            old(self)@.advances(final(self)@, old(self)@.operand_cycles(M, final(self)@.trace)),
    {
        self.a = self.operand::<M>();
        self.set_x(self.a);
    }

    /// ORA: ORs the operand into A.
    pub(crate) fn ora<const M: u8>(&mut self)
        requires
            addressable(M),
            old(self).cycles + 7 <= u64::MAX,
        ensures
            final(self)@ == old(self)@.ora(M, final(self)@.trace),
            old(self)@.advances(final(self)@, old(self)@.operand_cycles(M, final(self)@.trace)),
    {
        let operand = self.operand::<M>();
        self.set_a(self.a | operand);
    }

    /// SBC: subtracts the operand and the borrow, which is the carry flag inverted, from A,
    /// by adding the operand's complement.
    pub(crate) fn sbc<const M: u8>(&mut self)
        requires
            addressable(M),
            old(self).cycles + 7 <= u64::MAX,
        ensures
            final(self)@ == old(self)@.sbc(M, final(self)@.trace),
            old(self)@.advances(final(self)@, old(self)@.operand_cycles(M, final(self)@.trace)),
    {
        // Subtraction is addition of the complement, so ADC and SBC share their logic.
        let value = self.operand::<M>() ^ 0xff;
        self.add(value);
    }

    /// SBX: subtracts the operand from A AND X, without borrow, and loads X with the
    /// difference; C tells whether A AND X was at least the operand.
    pub(crate) fn sbx<const M: u8>(&mut self)
        requires
            addressable(M),
            old(self).cycles + 7 <= u64::MAX,
        ensures
            final(self)@ == old(self)@.sbx(M, final(self)@.trace),
            old(self)@.advances(final(self)@, old(self)@.operand_cycles(M, final(self)@.trace)),
    {
        let value = self.operand::<M>();
        let carry = (self.a & self.x) >= value;
        self.set_x((self.a & self.x).wrapping_sub(value));

        self.p.set(Status::C, carry);
    }

    /// ASL: shifts the operand left.
    pub(crate) fn asl<const M: u8>(&mut self)
        requires
            M == ACCUMULATOR || addressable(M),
            old(self).cycles + 7 <= u64::MAX,
        ensures
            final(self)@ == old(self)@.asl(M, final(self)@.trace),
            old(self)@.advances(final(self)@, old(self)@.read_modify_write_cycles(M, final(self)@.trace)),
    {
        self.read_modify_write::<M, ASL>();
    }

    /// DCP: decrements the operand, then compares A with it.
    pub(crate) fn dcp<const M: u8>(&mut self)
        requires
            M == ACCUMULATOR || addressable(M),
            old(self).cycles + 7 <= u64::MAX,
        ensures
            final(self)@ == old(self)@.dcp(M, final(self)@.trace),
            old(self)@.advances(final(self)@, old(self)@.read_modify_write_cycles(M, final(self)@.trace)),
    {
        let result = self.read_modify_write::<M, DCP>();
        self.compare(self.a, result);
    }

    /// DEC: decrements the operand.
    pub(crate) fn dec<const M: u8>(&mut self)
        requires
            M == ACCUMULATOR || addressable(M),
            old(self).cycles + 7 <= u64::MAX,
        ensures
            final(self)@ == old(self)@.dec(M, final(self)@.trace),
            old(self)@.advances(final(self)@, old(self)@.read_modify_write_cycles(M, final(self)@.trace)),
    {
        self.read_modify_write::<M, DEC>();
    }

    /// INC: increments the operand.
    pub(crate) fn inc<const M: u8>(&mut self)
        requires
            M == ACCUMULATOR || addressable(M),
            old(self).cycles + 7 <= u64::MAX,
        ensures
            final(self)@ == old(self)@.inc(M, final(self)@.trace),
            old(self)@.advances(final(self)@, old(self)@.read_modify_write_cycles(M, final(self)@.trace)),
    {
        self.read_modify_write::<M, INC>();
    }

    /// ISB: increments the operand, then subtracts it from A.
    pub(crate) fn isb<const M: u8>(&mut self)
        requires
            M == ACCUMULATOR || addressable(M),
            old(self).cycles + 7 <= u64::MAX,
        ensures
            final(self)@ == old(self)@.isb(M, final(self)@.trace),
            old(self)@.advances(final(self)@, old(self)@.read_modify_write_cycles(M, final(self)@.trace)),
    {
        let result = self.read_modify_write::<M, ISB>();
        self.add(result ^ 0xff);
    }

    /// LSR: shifts the operand right.
    pub(crate) fn lsr<const M: u8>(&mut self)
        requires
            M == ACCUMULATOR || addressable(M),
            old(self).cycles + 7 <= u64::MAX,
        ensures
            final(self)@ == old(self)@.lsr(M, final(self)@.trace),
            old(self)@.advances(final(self)@, old(self)@.read_modify_write_cycles(M, final(self)@.trace)),
    {
        self.read_modify_write::<M, LSR>();
    }

    /// RLA: rotates the operand left, then ANDs it into A.
    pub(crate) fn rla<const M: u8>(&mut self)
        requires
            M == ACCUMULATOR || addressable(M),
            old(self).cycles + 7 <= u64::MAX,
        ensures
            final(self)@ == old(self)@.rla(M, final(self)@.trace),
            old(self)@.advances(final(self)@, old(self)@.read_modify_write_cycles(M, final(self)@.trace)),
    {
        let result = self.read_modify_write::<M, RLA>();
        self.set_a(self.a & result);
    }

    /// ROL: rotates the operand left through the carry.
    pub(crate) fn rol<const M: u8>(&mut self)
        requires
            M == ACCUMULATOR || addressable(M),
            old(self).cycles + 7 <= u64::MAX,
        ensures
            final(self)@ == old(self)@.rol(M, final(self)@.trace),
            old(self)@.advances(final(self)@, old(self)@.read_modify_write_cycles(M, final(self)@.trace)),
    {
        self.read_modify_write::<M, ROL>();
    }

    /// ROR: rotates the operand right through the carry.
    pub(crate) fn ror<const M: u8>(&mut self)
        requires
            M == ACCUMULATOR || addressable(M),
            old(self).cycles + 7 <= u64::MAX,
        ensures
            final(self)@ == old(self)@.ror(M, final(self)@.trace),
            old(self)@.advances(final(self)@, old(self)@.read_modify_write_cycles(M, final(self)@.trace)),
    {
        self.read_modify_write::<M, ROR>();
    }

    /// RRA: rotates the operand right, then adds it to A.
    pub(crate) fn rra<const M: u8>(&mut self)
        requires
            M == ACCUMULATOR || addressable(M),
            old(self).cycles + 7 <= u64::MAX,
        ensures
            final(self)@ == old(self)@.rra(M, final(self)@.trace),
            old(self)@.advances(final(self)@, old(self)@.read_modify_write_cycles(M, final(self)@.trace)),
    {
        let result = self.read_modify_write::<M, RRA>();
        self.add(result);
    }

    /// SLO: shifts the operand left, then ORs it into A.
    pub(crate) fn slo<const M: u8>(&mut self)
        requires
            M == ACCUMULATOR || addressable(M),
            old(self).cycles + 7 <= u64::MAX,
        ensures
            final(self)@ == old(self)@.slo(M, final(self)@.trace),
            old(self)@.advances(final(self)@, old(self)@.read_modify_write_cycles(M, final(self)@.trace)),
    {
        let result = self.read_modify_write::<M, SLO>();
        self.set_a(self.a | result);
    }

    /// SRE: shifts the operand right, then exclusive-ORs it into A.
    pub(crate) fn sre<const M: u8>(&mut self)
        requires
            M == ACCUMULATOR || addressable(M),
            old(self).cycles + 7 <= u64::MAX,
        ensures
            final(self)@ == old(self)@.sre(M, final(self)@.trace),
            old(self)@.advances(final(self)@, old(self)@.read_modify_write_cycles(M, final(self)@.trace)),
    {
        let result = self.read_modify_write::<M, SRE>();
        self.set_a(self.a ^ result);
    }

    /// SAX: stores A AND X.
    pub(crate) fn sax<const M: u8>(&mut self)
        requires
            addressable(M),
            old(self).cycles + 7 <= u64::MAX,
        ensures
            final(self)@ == old(self)@.sax(M, final(self)@.trace),
            old(self)@.advances(final(self)@, old(self)@.store_cycles(M, final(self)@.trace)),
    {
        self.store::<M>(self.a & self.x);
    }

    /// SHA: unstable on the chip; here it stores A AND X by the rule of `store_high`.
    pub(crate) fn sha<const M: u8>(&mut self)
        requires
            addressable(M),
            old(self).cycles + 7 <= u64::MAX,
        ensures
            final(self)@ == old(self)@.sha(M, final(self)@.trace),
            old(self)@.advances(final(self)@, old(self)@.store_cycles(M, final(self)@.trace)),
    {
        self.store_high::<M>(self.a & self.x);
    }

    /// SHX: unstable on the chip; here it stores X by the rule of `store_high`.
    pub(crate) fn shx<const M: u8>(&mut self)
        requires
            addressable(M),
            old(self).cycles + 7 <= u64::MAX,
        ensures
            final(self)@ == old(self)@.shx(M, final(self)@.trace),
            old(self)@.advances(final(self)@, old(self)@.store_cycles(M, final(self)@.trace)),
    {
        self.store_high::<M>(self.x);
    }

    /// SHY: unstable on the chip; here it stores Y by the rule of `store_high`.
    pub(crate) fn shy<const M: u8>(&mut self)
        requires
            addressable(M),
            old(self).cycles + 7 <= u64::MAX,
        ensures
            final(self)@ == old(self)@.shy(M, final(self)@.trace),
            old(self)@.advances(final(self)@, old(self)@.store_cycles(M, final(self)@.trace)),
    {
        self.store_high::<M>(self.y);
    }

    /// STA: stores A.
    pub(crate) fn sta<const M: u8>(&mut self)
        requires
            addressable(M),
            old(self).cycles + 7 <= u64::MAX,
        ensures
            final(self)@ == old(self)@.sta(M, final(self)@.trace),
            old(self)@.advances(final(self)@, old(self)@.store_cycles(M, final(self)@.trace)),
    {
        self.store::<M>(self.a);
    }

    /// STX: stores X.
    pub(crate) fn stx<const M: u8>(&mut self)
        requires
            addressable(M),
            old(self).cycles + 7 <= u64::MAX,
        ensures
            final(self)@ == old(self)@.stx(M, final(self)@.trace),
            old(self)@.advances(final(self)@, old(self)@.store_cycles(M, final(self)@.trace)),
    {
        self.store::<M>(self.x);
    }

    /// STY: stores Y.
    pub(crate) fn sty<const M: u8>(&mut self)
        requires
            addressable(M),
            old(self).cycles + 7 <= u64::MAX,
        ensures
            final(self)@ == old(self)@.sty(M, final(self)@.trace),
            old(self)@.advances(final(self)@, old(self)@.store_cycles(M, final(self)@.trace)),
    {
        self.store::<M>(self.y);
    }

    /// TAS: unstable on the chip; here it loads the stack pointer with A AND X, and stores
    /// that by the rule of `store_high`.
    pub(crate) fn tas<const M: u8>(&mut self)
        requires
            addressable(M),
            old(self).cycles + 7 <= u64::MAX,
        ensures
            final(self)@ == old(self)@.tas(M, final(self)@.trace),
            old(self)@.advances(final(self)@, old(self)@.store_cycles(M, final(self)@.trace)),
    {
        let value = self.a & self.x;
        self.store_high::<M>(value);
        self.s = value;
    }

    /// CLC: clears the carry flag.
    pub(crate) fn clc(&mut self)
        requires
            old(self).cycles + 7 <= u64::MAX,
        ensures
            final(self)@ == old(self)@.clc(final(self)@.trace),
            old(self)@.advances(final(self)@, 1),
    {
        self.read_byte(self.pc);
        self.p.remove(Status::C);
    }

    /// CLD: clears the decimal flag.
    pub(crate) fn cld(&mut self)
        requires
            old(self).cycles + 7 <= u64::MAX,
        ensures
            final(self)@ == old(self)@.cld(final(self)@.trace),
            old(self)@.advances(final(self)@, 1),
    {
        self.read_byte(self.pc);
        self.p.remove(Status::D);
    }

    /// CLI: enables interrupt requests.
    pub(crate) fn cli(&mut self)
        requires
            old(self).cycles + 7 <= u64::MAX,
        ensures
            final(self)@ == old(self)@.cli(final(self)@.trace),
            old(self)@.advances(final(self)@, 1),
    {
        self.read_byte(self.pc);
        self.p.remove(Status::I);
    }

    /// CLV: clears the overflow flag.
    pub(crate) fn clv(&mut self)
        requires
            old(self).cycles + 7 <= u64::MAX,
        ensures
            final(self)@ == old(self)@.clv(final(self)@.trace),
            old(self)@.advances(final(self)@, 1),
    {
        self.read_byte(self.pc);
        self.p.remove(Status::V);
    }

    /// SEC: sets the carry flag.
    pub(crate) fn sec(&mut self)
        requires
            old(self).cycles + 7 <= u64::MAX,
        ensures
            final(self)@ == old(self)@.sec(final(self)@.trace),
            old(self)@.advances(final(self)@, 1),
    {
        self.read_byte(self.pc);
        self.p.insert(Status::C);
    }

    /// SED: sets the decimal flag.
    pub(crate) fn sed(&mut self)
        requires
            old(self).cycles + 7 <= u64::MAX,
        ensures
            final(self)@ == old(self)@.sed(final(self)@.trace),
            old(self)@.advances(final(self)@, 1),
    {
        self.read_byte(self.pc);
        self.p.insert(Status::D);
    }

    /// SEI: disables interrupt requests.
    pub(crate) fn sei(&mut self)
        requires
            old(self).cycles + 7 <= u64::MAX,
        ensures
            final(self)@ == old(self)@.sei(final(self)@.trace),
            old(self)@.advances(final(self)@, 1),
    {
        self.read_byte(self.pc);
        self.p.insert(Status::I);
    }

    /// DEX: decrements X.
    pub(crate) fn dex(&mut self)
        requires
            old(self).cycles + 7 <= u64::MAX,
        ensures
            final(self)@ == old(self)@.dex(final(self)@.trace),
            old(self)@.advances(final(self)@, 1),
    {
        self.read_byte(self.pc);
        self.set_x(self.x.wrapping_sub(1));
    }

    /// DEY: decrements Y.
    pub(crate) fn dey(&mut self)
        requires
            old(self).cycles + 7 <= u64::MAX,
        ensures
            final(self)@ == old(self)@.dey(final(self)@.trace),
            old(self)@.advances(final(self)@, 1),
    {
        self.read_byte(self.pc);
        self.set_y(self.y.wrapping_sub(1));
    }

    /// INX: increments X.
    pub(crate) fn inx(&mut self)
        requires
            old(self).cycles + 7 <= u64::MAX,
        ensures
            final(self)@ == old(self)@.inx(final(self)@.trace),
            old(self)@.advances(final(self)@, 1),
    {
        self.read_byte(self.pc);
        self.set_x(self.x.wrapping_add(1));
    }

    /// INY: increments Y.
    pub(crate) fn iny(&mut self)
        requires
            old(self).cycles + 7 <= u64::MAX,
        ensures
            final(self)@ == old(self)@.iny(final(self)@.trace),
            old(self)@.advances(final(self)@, 1),
    {
        self.read_byte(self.pc);
        self.set_y(self.y.wrapping_add(1));
    }

    /// JAM: halts the chip; here it is a one-byte instruction that does nothing.
    pub(crate) fn jam(&mut self)
        requires
            old(self).cycles + 7 <= u64::MAX,
        ensures
            final(self)@ == old(self)@.jam(final(self)@.trace),
            old(self)@.advances(final(self)@, 1),
    {
        self.read_byte(self.pc);
    }

    /// TAX: loads X with A.
    pub(crate) fn tax(&mut self)
        requires
            old(self).cycles + 7 <= u64::MAX,
        ensures
            final(self)@ == old(self)@.tax(final(self)@.trace),
            old(self)@.advances(final(self)@, 1),
    {
        self.read_byte(self.pc);
        self.set_x(self.a);
    }

    /// TAY: loads Y with A.
    pub(crate) fn tay(&mut self)
        requires
            old(self).cycles + 7 <= u64::MAX,
        ensures
            final(self)@ == old(self)@.tay(final(self)@.trace),
            old(self)@.advances(final(self)@, 1),
    {
        self.read_byte(self.pc);
        self.set_y(self.a);
    }

    /// TSX: loads X with the stack pointer.
    pub(crate) fn tsx(&mut self)
        requires
            old(self).cycles + 7 <= u64::MAX,
        ensures
            final(self)@ == old(self)@.tsx(final(self)@.trace),
            old(self)@.advances(final(self)@, 1),
    {
        self.read_byte(self.pc);
        self.set_x(self.s);
    }

    /// TXA: loads A with X.
    pub(crate) fn txa(&mut self)
        requires
            old(self).cycles + 7 <= u64::MAX,
        ensures
            final(self)@ == old(self)@.txa(final(self)@.trace),
            old(self)@.advances(final(self)@, 1),
    {
        self.read_byte(self.pc);
        self.set_a(self.x);
    }

    /// TXS: loads the stack pointer with X. No flag changes.
    pub(crate) fn txs(&mut self)
        requires
            old(self).cycles + 7 <= u64::MAX,
        ensures
            final(self)@ == old(self)@.txs(final(self)@.trace),
            old(self)@.advances(final(self)@, 1),
    {
        self.read_byte(self.pc);
        self.s = self.x;
    }

    /// TYA: loads A with Y.
    pub(crate) fn tya(&mut self)
        requires
            old(self).cycles + 7 <= u64::MAX,
        ensures
            final(self)@ == old(self)@.tya(final(self)@.trace),
            old(self)@.advances(final(self)@, 1),
    {
        self.read_byte(self.pc);
        self.set_a(self.y);
    }

    /// BCC: branches if the carry flag is clear.
    pub(crate) fn bcc(&mut self)
        requires
            old(self).cycles + 7 <= u64::MAX,
        ensures
            final(self)@ == old(self)@.bcc(final(self)@.trace),
            old(self)@.advances(final(self)@, old(self)@.branch_cycles(!old(self)@.p.c, final(self)@.trace)),
    {
        self.branch(!self.p.contains(Status::C));
    }

    /// BCS: branches if the carry flag is set.
    pub(crate) fn bcs(&mut self)
        requires
            old(self).cycles + 7 <= u64::MAX,
        ensures
            final(self)@ == old(self)@.bcs(final(self)@.trace),
            old(self)@.advances(final(self)@, old(self)@.branch_cycles(old(self)@.p.c, final(self)@.trace)),
    {
        self.branch(self.p.contains(Status::C));
    }

    /// BEQ: branches if the zero flag is set.
    pub(crate) fn beq(&mut self)
        requires
            old(self).cycles + 7 <= u64::MAX,
        ensures
            final(self)@ == old(self)@.beq(final(self)@.trace),
            old(self)@.advances(final(self)@, old(self)@.branch_cycles(old(self)@.p.z, final(self)@.trace)),
    {
        self.branch(self.p.contains(Status::Z));
    }

    /// BMI: branches if the negative flag is set.
    pub(crate) fn bmi(&mut self)
        requires
            old(self).cycles + 7 <= u64::MAX,
        ensures
            final(self)@ == old(self)@.bmi(final(self)@.trace),
            old(self)@.advances(final(self)@, old(self)@.branch_cycles(old(self)@.p.n, final(self)@.trace)),
    {
        self.branch(self.p.contains(Status::N));
    }

    /// BNE: branches if the zero flag is clear.
    pub(crate) fn bne(&mut self)
        requires
            old(self).cycles + 7 <= u64::MAX,
        ensures
            final(self)@ == old(self)@.bne(final(self)@.trace),
            old(self)@.advances(final(self)@, old(self)@.branch_cycles(!old(self)@.p.z, final(self)@.trace)),
    {
        self.branch(!self.p.contains(Status::Z));
    }

    /// BPL: branches if the negative flag is clear.
    pub(crate) fn bpl(&mut self)
        requires
            old(self).cycles + 7 <= u64::MAX,
        ensures
            final(self)@ == old(self)@.bpl(final(self)@.trace),
            old(self)@.advances(final(self)@, old(self)@.branch_cycles(!old(self)@.p.n, final(self)@.trace)),
    {
        self.branch(!self.p.contains(Status::N));
    }

    /// BVC: branches if the overflow flag is clear.
    pub(crate) fn bvc(&mut self)
        requires
            old(self).cycles + 7 <= u64::MAX,
        ensures
            final(self)@ == old(self)@.bvc(final(self)@.trace),
            old(self)@.advances(final(self)@, old(self)@.branch_cycles(!old(self)@.p.v, final(self)@.trace)),
    {
        self.branch(!self.p.contains(Status::V));
    }

    /// BVS: branches if the overflow flag is set.
    pub(crate) fn bvs(&mut self)
        requires
            old(self).cycles + 7 <= u64::MAX,
        ensures
            final(self)@ == old(self)@.bvs(final(self)@.trace),
            old(self)@.advances(final(self)@, old(self)@.branch_cycles(old(self)@.p.v, final(self)@.trace)),
    {
        self.branch(self.p.contains(Status::V));
    }

    /// NOP: does nothing, but an operand is still read where the instruction has one.
    pub(crate) fn nop<const M: u8>(&mut self)
        requires
            M == IMPLIED || addressable(M),
            old(self).cycles + 7 <= u64::MAX,
        ensures
            final(self)@ == old(self)@.nop(M, final(self)@.trace),
            old(self)@.advances(final(self)@, old(self)@.nop_cycles(M, final(self)@.trace)),
    {
        if M == IMPLIED {
            self.read_byte(self.pc);
        } else {
            self.operand::<M>();
        }
    }

    /// PHA: pushes A, after an idle read.
    pub(crate) fn pha(&mut self)
        requires
            old(self).cycles + 7 <= u64::MAX,
        ensures
            final(self)@ == old(self)@.pha(final(self)@.trace),
            old(self)@.advances(final(self)@, 2),
    {
        self.read_byte(self.pc);
        self.push(self.a);
    }

    /// PHP: pushes the status register, with B set in the pushed byte as U always is, after
    /// an idle read.
    pub(crate) fn php(&mut self)
        requires
            old(self).cycles + 7 <= u64::MAX,
        ensures
            final(self)@ == old(self)@.php(final(self)@.trace),
            old(self)@.advances(final(self)@, 2),
    {
        self.read_byte(self.pc);
        self.push(self.p.pushed(true));
    }

    /// PLA: pulls A, after two idle reads, and sets Z and N from it.
    pub(crate) fn pla(&mut self)
        requires
            old(self).cycles + 7 <= u64::MAX,
        ensures
            final(self)@ == old(self)@.pla(final(self)@.trace),
            old(self)@.advances(final(self)@, 3),
    {
        self.read_byte(self.pc);
        let ghost idle = self@;
        self.peek();
        let ghost peeked = self@;
        let value = self.pop();
        self.set_a(value);
        proof {
            let log = self@.trace;
            assert(idle == old(self)@.read(old(self)@.pc, log));
            assert(peeked == idle.peek(log));
        }
    }

    /// PLP: pulls the status register, after two idle reads.
    pub(crate) fn plp(&mut self)
        requires
            old(self).cycles + 7 <= u64::MAX,
        ensures
            final(self)@ == old(self)@.plp(final(self)@.trace),
            old(self)@.advances(final(self)@, 3),
    {
        self.read_byte(self.pc);
        let ghost idle = self@;
        self.peek();
        let ghost peeked = self@;
        let value = self.pop();
        self.p = self.p.pulled(value);
        proof {
            let log = self@.trace;
            assert(idle == old(self)@.read(old(self)@.pc, log));
            assert(peeked == idle.peek(log));
        }
    }
}

} // verus!

use vstd::prelude::*;
use crate::addressing::{
    ABSOLUTE, ABSOLUTE_X, ABSOLUTE_Y, ACCUMULATOR, IMMEDIATE, IMPLIED, INDEXED_INDIRECT, INDIRECT,
    INDIRECT_INDEXED, ZERO_PAGE, ZERO_PAGE_X, ZERO_PAGE_Y,
};

verus! {

/// The operations of the processor, the undocumented ones among them.
pub enum Op {
    /// Add with carry.
    Adc,
    /// AND, then shift right.
    Alr,
    /// AND, with N copied into C.
    Anc,
    /// AND.
    And,
    /// Unstable; modelled as a read.
    Ane,
    /// AND, then rotate right.
    Arr,
    /// Shift left.
    Asl,
    /// Branch if carry clear.
    Bcc,
    /// Branch if carry set.
    Bcs,
    /// Branch if zero set.
    Beq,
    /// Test bits.
    Bit,
    /// Branch if negative set.
    Bmi,
    /// Branch if zero clear.
    Bne,
    /// Branch if negative clear.
    Bpl,
    /// Software interrupt.
    Brk,
    /// Branch if overflow clear.
    Bvc,
    /// Branch if overflow set.
    Bvs,
    /// Clear carry.
    Clc,
    /// Clear decimal.
    Cld,
    /// Clear interrupt disable.
    Cli,
    /// Clear overflow.
    Clv,
    /// Compare with A.
    Cmp,
    /// Compare with X.
    Cpx,
    /// Compare with Y.
    Cpy,
    /// Decrement, then compare.
    Dcp,
    /// Decrement.
    Dec,
    /// Decrement X.
    Dex,
    /// Decrement Y.
    Dey,
    /// Exclusive OR.
    Eor,
    /// Increment.
    Inc,
    /// Increment X.
    Inx,
    /// Increment Y.
    Iny,
    /// Increment, then subtract.
    Isb,
    /// Halt; modelled as a one-byte no-operation.
    Jam,
    /// Jump.
    Jmp,
    /// Jump to subroutine.
    Jsr,
    /// AND with the stack pointer into A, X and S.
    Las,
    /// Load A and X.
    Lax,
    /// Load A.
    Lda,
    /// Load X.
    Ldx,
    /// Load Y.
    Ldy,
    /// Shift right.
    Lsr,
    /// Unstable; modelled as a load of A and X.
    Lxa,
    /// No operation.
    Nop,
    /// OR.
    Ora,
    /// Push A.
    Pha,
    /// Push P.
    Php,
    /// Pull A.
    Pla,
    /// Pull P.
    Plp,
    /// Rotate left, then AND.
    Rla,
    /// Rotate left.
    Rol,
    /// Rotate right.
    Ror,
    /// Rotate right, then add.
    Rra,
    /// Return from interrupt.
    Rti,
    /// Return from subroutine.
    Rts,
    /// Store A AND X.
    Sax,
    /// Subtract with borrow.
    Sbc,
    /// Subtract from A AND X into X.
    Sbx,
    /// Set carry.
    Sec,
    /// Set decimal.
    Sed,
    /// Set interrupt disable.
    Sei,
    /// Unstable store of A AND X.
    Sha,
    /// Unstable store of X.
    Shx,
    /// Unstable store of Y.
    Shy,
    /// Shift left, then OR.
    Slo,
    /// Shift right, then exclusive OR.
    Sre,
    /// Store A.
    Sta,
    /// Store X.
    Stx,
    /// Store Y.
    Sty,
    /// Unstable store of A AND X, which also goes to S.
    Tas,
    /// Transfer A to X.
    Tax,
    /// Transfer A to Y.
    Tay,
    /// Transfer S to X.
    Tsx,
    /// Transfer X to A.
    Txa,
    /// Transfer X to S.
    Txs,
    /// Transfer Y to A.
    Tya,
}

/// An operation with its addressing mode.
pub struct Instruction {
    pub op: Op,
    pub mode: u8,
}

/// The instruction that `opcode` stands for. An operation that has no operand, or that
/// fetches its operand in a way of its own, is listed as implied.
pub open spec fn decode(opcode: u8) -> Instruction {
    match opcode {
        0x00 => Instruction { op: Op::Brk, mode: IMPLIED },
        0x01 => Instruction { op: Op::Ora, mode: INDEXED_INDIRECT },
        0x02 => Instruction { op: Op::Jam, mode: IMPLIED },
        0x03 => Instruction { op: Op::Slo, mode: INDEXED_INDIRECT },
        0x04 => Instruction { op: Op::Nop, mode: ZERO_PAGE },
        0x05 => Instruction { op: Op::Ora, mode: ZERO_PAGE },
        0x06 => Instruction { op: Op::Asl, mode: ZERO_PAGE },
        0x07 => Instruction { op: Op::Slo, mode: ZERO_PAGE },
        0x08 => Instruction { op: Op::Php, mode: IMPLIED },
        0x09 => Instruction { op: Op::Ora, mode: IMMEDIATE },
        0x0a => Instruction { op: Op::Asl, mode: ACCUMULATOR },
        0x0b => Instruction { op: Op::Anc, mode: IMMEDIATE },
        0x0c => Instruction { op: Op::Nop, mode: ABSOLUTE },
        0x0d => Instruction { op: Op::Ora, mode: ABSOLUTE },
        0x0e => Instruction { op: Op::Asl, mode: ABSOLUTE },
        0x0f => Instruction { op: Op::Slo, mode: ABSOLUTE },
        0x10 => Instruction { op: Op::Bpl, mode: IMPLIED },
        0x11 => Instruction { op: Op::Ora, mode: INDIRECT_INDEXED },
        0x12 => Instruction { op: Op::Jam, mode: IMPLIED },
        0x13 => Instruction { op: Op::Slo, mode: INDIRECT_INDEXED },
        0x14 => Instruction { op: Op::Nop, mode: ZERO_PAGE_X },
        0x15 => Instruction { op: Op::Ora, mode: ZERO_PAGE_X },
        0x16 => Instruction { op: Op::Asl, mode: ZERO_PAGE_X },
        0x17 => Instruction { op: Op::Slo, mode: ZERO_PAGE_X },
        0x18 => Instruction { op: Op::Clc, mode: IMPLIED },
        0x19 => Instruction { op: Op::Ora, mode: ABSOLUTE_Y },
        0x1a => Instruction { op: Op::Nop, mode: IMPLIED },
        0x1b => Instruction { op: Op::Slo, mode: ABSOLUTE_Y },
        0x1c => Instruction { op: Op::Nop, mode: ABSOLUTE_X },
        0x1d => Instruction { op: Op::Ora, mode: ABSOLUTE_X },
        0x1e => Instruction { op: Op::Asl, mode: ABSOLUTE_X },
        0x1f => Instruction { op: Op::Slo, mode: ABSOLUTE_X },
        0x20 => Instruction { op: Op::Jsr, mode: IMPLIED },
        0x21 => Instruction { op: Op::And, mode: INDEXED_INDIRECT },
        0x22 => Instruction { op: Op::Jam, mode: IMPLIED },
        0x23 => Instruction { op: Op::Rla, mode: INDEXED_INDIRECT },
        0x24 => Instruction { op: Op::Bit, mode: ZERO_PAGE },
        0x25 => Instruction { op: Op::And, mode: ZERO_PAGE },
        0x26 => Instruction { op: Op::Rol, mode: ZERO_PAGE },
        0x27 => Instruction { op: Op::Rla, mode: ZERO_PAGE },
        0x28 => Instruction { op: Op::Plp, mode: IMPLIED },
        0x29 => Instruction { op: Op::And, mode: IMMEDIATE },
        0x2a => Instruction { op: Op::Rol, mode: ACCUMULATOR },
        0x2b => Instruction { op: Op::Anc, mode: IMMEDIATE },
        0x2c => Instruction { op: Op::Bit, mode: ABSOLUTE },
        0x2d => Instruction { op: Op::And, mode: ABSOLUTE },
        0x2e => Instruction { op: Op::Rol, mode: ABSOLUTE },
        0x2f => Instruction { op: Op::Rla, mode: ABSOLUTE },
        0x30 => Instruction { op: Op::Bmi, mode: IMPLIED },
        0x31 => Instruction { op: Op::And, mode: INDIRECT_INDEXED },
        0x32 => Instruction { op: Op::Jam, mode: IMPLIED },
        0x33 => Instruction { op: Op::Rla, mode: INDIRECT_INDEXED },
        0x34 => Instruction { op: Op::Nop, mode: ZERO_PAGE_X },
        0x35 => Instruction { op: Op::And, mode: ZERO_PAGE_X },
        0x36 => Instruction { op: Op::Rol, mode: ZERO_PAGE_X },
        0x37 => Instruction { op: Op::Rla, mode: ZERO_PAGE_X },
        0x38 => Instruction { op: Op::Sec, mode: IMPLIED },
        0x39 => Instruction { op: Op::And, mode: ABSOLUTE_Y },
        0x3a => Instruction { op: Op::Nop, mode: IMPLIED },
        0x3b => Instruction { op: Op::Rla, mode: ABSOLUTE_Y },
        0x3c => Instruction { op: Op::Nop, mode: ABSOLUTE_X },
        0x3d => Instruction { op: Op::And, mode: ABSOLUTE_X },
        0x3e => Instruction { op: Op::Rol, mode: ABSOLUTE_X },
        0x3f => Instruction { op: Op::Rla, mode: ABSOLUTE_X },
        0x40 => Instruction { op: Op::Rti, mode: IMPLIED },
        0x41 => Instruction { op: Op::Eor, mode: INDEXED_INDIRECT },
        0x42 => Instruction { op: Op::Jam, mode: IMPLIED },
        0x43 => Instruction { op: Op::Sre, mode: INDEXED_INDIRECT },
        0x44 => Instruction { op: Op::Nop, mode: ZERO_PAGE },
        0x45 => Instruction { op: Op::Eor, mode: ZERO_PAGE },
        0x46 => Instruction { op: Op::Lsr, mode: ZERO_PAGE },
        0x47 => Instruction { op: Op::Sre, mode: ZERO_PAGE },
        0x48 => Instruction { op: Op::Pha, mode: IMPLIED },
        0x49 => Instruction { op: Op::Eor, mode: IMMEDIATE },
        0x4a => Instruction { op: Op::Lsr, mode: ACCUMULATOR },
        0x4b => Instruction { op: Op::Alr, mode: IMMEDIATE },
        0x4c => Instruction { op: Op::Jmp, mode: ABSOLUTE },
        0x4d => Instruction { op: Op::Eor, mode: ABSOLUTE },
        0x4e => Instruction { op: Op::Lsr, mode: ABSOLUTE },
        0x4f => Instruction { op: Op::Sre, mode: ABSOLUTE },
        0x50 => Instruction { op: Op::Bvc, mode: IMPLIED },
        0x51 => Instruction { op: Op::Eor, mode: INDIRECT_INDEXED },
        0x52 => Instruction { op: Op::Jam, mode: IMPLIED },
        0x53 => Instruction { op: Op::Sre, mode: INDIRECT_INDEXED },
        0x54 => Instruction { op: Op::Nop, mode: ZERO_PAGE_X },
        0x55 => Instruction { op: Op::Eor, mode: ZERO_PAGE_X },
        0x56 => Instruction { op: Op::Lsr, mode: ZERO_PAGE_X },
        0x57 => Instruction { op: Op::Sre, mode: ZERO_PAGE_X },
        0x58 => Instruction { op: Op::Cli, mode: IMPLIED },
        0x59 => Instruction { op: Op::Eor, mode: ABSOLUTE_Y },
        0x5a => Instruction { op: Op::Nop, mode: IMPLIED },
        0x5b => Instruction { op: Op::Sre, mode: ABSOLUTE_Y },
        0x5c => Instruction { op: Op::Nop, mode: ABSOLUTE_X },
        0x5d => Instruction { op: Op::Eor, mode: ABSOLUTE_X },
        0x5e => Instruction { op: Op::Lsr, mode: ABSOLUTE_X },
        0x5f => Instruction { op: Op::Sre, mode: ABSOLUTE_X },
        0x60 => Instruction { op: Op::Rts, mode: IMPLIED },
        0x61 => Instruction { op: Op::Adc, mode: INDEXED_INDIRECT },
        0x62 => Instruction { op: Op::Jam, mode: IMPLIED },
        0x63 => Instruction { op: Op::Rra, mode: INDEXED_INDIRECT },
        0x64 => Instruction { op: Op::Nop, mode: ZERO_PAGE },
        0x65 => Instruction { op: Op::Adc, mode: ZERO_PAGE },
        0x66 => Instruction { op: Op::Ror, mode: ZERO_PAGE },
        0x67 => Instruction { op: Op::Rra, mode: ZERO_PAGE },
        0x68 => Instruction { op: Op::Pla, mode: IMPLIED },
        0x69 => Instruction { op: Op::Adc, mode: IMMEDIATE },
        0x6a => Instruction { op: Op::Ror, mode: ACCUMULATOR },
        0x6b => Instruction { op: Op::Arr, mode: IMMEDIATE },
        0x6c => Instruction { op: Op::Jmp, mode: INDIRECT },
        0x6d => Instruction { op: Op::Adc, mode: ABSOLUTE },
        0x6e => Instruction { op: Op::Ror, mode: ABSOLUTE },
        0x6f => Instruction { op: Op::Rra, mode: ABSOLUTE },
        0x70 => Instruction { op: Op::Bvs, mode: IMPLIED },
        0x71 => Instruction { op: Op::Adc, mode: INDIRECT_INDEXED },
        0x72 => Instruction { op: Op::Jam, mode: IMPLIED },
        0x73 => Instruction { op: Op::Rra, mode: INDIRECT_INDEXED },
        0x74 => Instruction { op: Op::Nop, mode: ZERO_PAGE_X },
        0x75 => Instruction { op: Op::Adc, mode: ZERO_PAGE_X },
        0x76 => Instruction { op: Op::Ror, mode: ZERO_PAGE_X },
        0x77 => Instruction { op: Op::Rra, mode: ZERO_PAGE_X },
        0x78 => Instruction { op: Op::Sei, mode: IMPLIED },
        0x79 => Instruction { op: Op::Adc, mode: ABSOLUTE_Y },
        0x7a => Instruction { op: Op::Nop, mode: IMPLIED },
        0x7b => Instruction { op: Op::Rra, mode: ABSOLUTE_Y },
        0x7c => Instruction { op: Op::Nop, mode: ABSOLUTE_X },
        0x7d => Instruction { op: Op::Adc, mode: ABSOLUTE_X },
        0x7e => Instruction { op: Op::Ror, mode: ABSOLUTE_X },
        0x7f => Instruction { op: Op::Rra, mode: ABSOLUTE_X },
        0x80 => Instruction { op: Op::Nop, mode: IMMEDIATE },
        0x81 => Instruction { op: Op::Sta, mode: INDEXED_INDIRECT },
        0x82 => Instruction { op: Op::Nop, mode: IMMEDIATE },
        0x83 => Instruction { op: Op::Sax, mode: INDEXED_INDIRECT },
        0x84 => Instruction { op: Op::Sty, mode: ZERO_PAGE },
        0x85 => Instruction { op: Op::Sta, mode: ZERO_PAGE },
        0x86 => Instruction { op: Op::Stx, mode: ZERO_PAGE },
        0x87 => Instruction { op: Op::Sax, mode: ZERO_PAGE },
        0x88 => Instruction { op: Op::Dey, mode: IMPLIED },
        0x89 => Instruction { op: Op::Nop, mode: IMMEDIATE },
        0x8a => Instruction { op: Op::Txa, mode: IMPLIED },
        0x8b => Instruction { op: Op::Ane, mode: IMMEDIATE },
        0x8c => Instruction { op: Op::Sty, mode: ABSOLUTE },
        0x8d => Instruction { op: Op::Sta, mode: ABSOLUTE },
        0x8e => Instruction { op: Op::Stx, mode: ABSOLUTE },
        0x8f => Instruction { op: Op::Sax, mode: ABSOLUTE },
        0x90 => Instruction { op: Op::Bcc, mode: IMPLIED },
        0x91 => Instruction { op: Op::Sta, mode: INDIRECT_INDEXED },
        0x92 => Instruction { op: Op::Jam, mode: IMPLIED },
        0x93 => Instruction { op: Op::Sha, mode: INDIRECT_INDEXED },
        0x94 => Instruction { op: Op::Sty, mode: ZERO_PAGE_X },
        0x95 => Instruction { op: Op::Sta, mode: ZERO_PAGE_X },
        0x96 => Instruction { op: Op::Stx, mode: ZERO_PAGE_Y },
        0x97 => Instruction { op: Op::Sax, mode: ZERO_PAGE_Y },
        0x98 => Instruction { op: Op::Tya, mode: IMPLIED },
        0x99 => Instruction { op: Op::Sta, mode: ABSOLUTE_Y },
        0x9a => Instruction { op: Op::Txs, mode: IMPLIED },
        0x9b => Instruction { op: Op::Tas, mode: ABSOLUTE_Y },
        0x9c => Instruction { op: Op::Shy, mode: ABSOLUTE_X },
        0x9d => Instruction { op: Op::Sta, mode: ABSOLUTE_X },
        0x9e => Instruction { op: Op::Shx, mode: ABSOLUTE_Y },
        0x9f => Instruction { op: Op::Sha, mode: ABSOLUTE_Y },
        0xa0 => Instruction { op: Op::Ldy, mode: IMMEDIATE },
        0xa1 => Instruction { op: Op::Lda, mode: INDEXED_INDIRECT },
        0xa2 => Instruction { op: Op::Ldx, mode: IMMEDIATE },
        0xa3 => Instruction { op: Op::Lax, mode: INDEXED_INDIRECT },
        0xa4 => Instruction { op: Op::Ldy, mode: ZERO_PAGE },
        0xa5 => Instruction { op: Op::Lda, mode: ZERO_PAGE },
        0xa6 => Instruction { op: Op::Ldx, mode: ZERO_PAGE },
        0xa7 => Instruction { op: Op::Lax, mode: ZERO_PAGE },
        0xa8 => Instruction { op: Op::Tay, mode: IMPLIED },
        0xa9 => Instruction { op: Op::Lda, mode: IMMEDIATE },
        0xaa => Instruction { op: Op::Tax, mode: IMPLIED },
        0xab => Instruction { op: Op::Lxa, mode: IMMEDIATE },
        0xac => Instruction { op: Op::Ldy, mode: ABSOLUTE },
        0xad => Instruction { op: Op::Lda, mode: ABSOLUTE },
        0xae => Instruction { op: Op::Ldx, mode: ABSOLUTE },
        0xaf => Instruction { op: Op::Lax, mode: ABSOLUTE },
        0xb0 => Instruction { op: Op::Bcs, mode: IMPLIED },
        0xb1 => Instruction { op: Op::Lda, mode: INDIRECT_INDEXED },
        0xb2 => Instruction { op: Op::Jam, mode: IMPLIED },
        0xb3 => Instruction { op: Op::Lax, mode: INDIRECT_INDEXED },
        0xb4 => Instruction { op: Op::Ldy, mode: ZERO_PAGE_X },
        0xb5 => Instruction { op: Op::Lda, mode: ZERO_PAGE_X },
        0xb6 => Instruction { op: Op::Ldx, mode: ZERO_PAGE_Y },
        0xb7 => Instruction { op: Op::Lax, mode: ZERO_PAGE_Y },
        0xb8 => Instruction { op: Op::Clv, mode: IMPLIED },
        0xb9 => Instruction { op: Op::Lda, mode: ABSOLUTE_Y },
        0xba => Instruction { op: Op::Tsx, mode: IMPLIED },
        0xbb => Instruction { op: Op::Las, mode: ABSOLUTE_Y },
        0xbc => Instruction { op: Op::Ldy, mode: ABSOLUTE_X },
        0xbd => Instruction { op: Op::Lda, mode: ABSOLUTE_X },
        0xbe => Instruction { op: Op::Ldx, mode: ABSOLUTE_Y },
        0xbf => Instruction { op: Op::Lax, mode: ABSOLUTE_Y },
        0xc0 => Instruction { op: Op::Cpy, mode: IMMEDIATE },
        0xc1 => Instruction { op: Op::Cmp, mode: INDEXED_INDIRECT },
        0xc2 => Instruction { op: Op::Nop, mode: IMMEDIATE },
        0xc3 => Instruction { op: Op::Dcp, mode: INDEXED_INDIRECT },
        0xc4 => Instruction { op: Op::Cpy, mode: ZERO_PAGE },
        0xc5 => Instruction { op: Op::Cmp, mode: ZERO_PAGE },
        0xc6 => Instruction { op: Op::Dec, mode: ZERO_PAGE },
        0xc7 => Instruction { op: Op::Dcp, mode: ZERO_PAGE },
        0xc8 => Instruction { op: Op::Iny, mode: IMPLIED },
        0xc9 => Instruction { op: Op::Cmp, mode: IMMEDIATE },
        0xca => Instruction { op: Op::Dex, mode: IMPLIED },
        0xcb => Instruction { op: Op::Sbx, mode: IMMEDIATE },
        0xcc => Instruction { op: Op::Cpy, mode: ABSOLUTE },
        0xcd => Instruction { op: Op::Cmp, mode: ABSOLUTE },
        0xce => Instruction { op: Op::Dec, mode: ABSOLUTE },
        0xcf => Instruction { op: Op::Dcp, mode: ABSOLUTE },
        0xd0 => Instruction { op: Op::Bne, mode: IMPLIED },
        0xd1 => Instruction { op: Op::Cmp, mode: INDIRECT_INDEXED },
        0xd2 => Instruction { op: Op::Jam, mode: IMPLIED },
        0xd3 => Instruction { op: Op::Dcp, mode: INDIRECT_INDEXED },
        0xd4 => Instruction { op: Op::Nop, mode: ZERO_PAGE_X },
        0xd5 => Instruction { op: Op::Cmp, mode: ZERO_PAGE_X },
        0xd6 => Instruction { op: Op::Dec, mode: ZERO_PAGE_X },
        0xd7 => Instruction { op: Op::Dcp, mode: ZERO_PAGE_X },
        0xd8 => Instruction { op: Op::Cld, mode: IMPLIED },
        0xd9 => Instruction { op: Op::Cmp, mode: ABSOLUTE_Y },
        0xda => Instruction { op: Op::Nop, mode: IMPLIED },
        0xdb => Instruction { op: Op::Dcp, mode: ABSOLUTE_Y },
        0xdc => Instruction { op: Op::Nop, mode: ABSOLUTE_X },
        0xdd => Instruction { op: Op::Cmp, mode: ABSOLUTE_X },
        0xde => Instruction { op: Op::Dec, mode: ABSOLUTE_X },
        0xdf => Instruction { op: Op::Dcp, mode: ABSOLUTE_X },
        0xe0 => Instruction { op: Op::Cpx, mode: IMMEDIATE },
        0xe1 => Instruction { op: Op::Sbc, mode: INDEXED_INDIRECT },
        0xe2 => Instruction { op: Op::Nop, mode: IMMEDIATE },
        0xe3 => Instruction { op: Op::Isb, mode: INDEXED_INDIRECT },
        0xe4 => Instruction { op: Op::Cpx, mode: ZERO_PAGE },
        0xe5 => Instruction { op: Op::Sbc, mode: ZERO_PAGE },
        0xe6 => Instruction { op: Op::Inc, mode: ZERO_PAGE },
        0xe7 => Instruction { op: Op::Isb, mode: ZERO_PAGE },
        0xe8 => Instruction { op: Op::Inx, mode: IMPLIED },
        0xe9 => Instruction { op: Op::Sbc, mode: IMMEDIATE },
        0xea => Instruction { op: Op::Nop, mode: IMPLIED },
        0xeb => Instruction { op: Op::Sbc, mode: IMMEDIATE },
        0xec => Instruction { op: Op::Cpx, mode: ABSOLUTE },
        0xed => Instruction { op: Op::Sbc, mode: ABSOLUTE },
        0xee => Instruction { op: Op::Inc, mode: ABSOLUTE },
        0xef => Instruction { op: Op::Isb, mode: ABSOLUTE },
        0xf0 => Instruction { op: Op::Beq, mode: IMPLIED },
        0xf1 => Instruction { op: Op::Sbc, mode: INDIRECT_INDEXED },
        0xf2 => Instruction { op: Op::Jam, mode: IMPLIED },
        0xf3 => Instruction { op: Op::Isb, mode: INDIRECT_INDEXED },
        0xf4 => Instruction { op: Op::Nop, mode: ZERO_PAGE_X },
        0xf5 => Instruction { op: Op::Sbc, mode: ZERO_PAGE_X },
        0xf6 => Instruction { op: Op::Inc, mode: ZERO_PAGE_X },
        0xf7 => Instruction { op: Op::Isb, mode: ZERO_PAGE_X },
        0xf8 => Instruction { op: Op::Sed, mode: IMPLIED },
        0xf9 => Instruction { op: Op::Sbc, mode: ABSOLUTE_Y },
        0xfa => Instruction { op: Op::Nop, mode: IMPLIED },
        0xfb => Instruction { op: Op::Isb, mode: ABSOLUTE_Y },
        0xfc => Instruction { op: Op::Nop, mode: ABSOLUTE_X },
        0xfd => Instruction { op: Op::Sbc, mode: ABSOLUTE_X },
        0xfe => Instruction { op: Op::Inc, mode: ABSOLUTE_X },
        _ => Instruction { op: Op::Isb, mode: ABSOLUTE_X },
    }
}

/// The number of bus cycles that the instruction behind `opcode` takes by the timing table
/// of the 6502, the opcode fetch among them, before the cycles that a page crossing or a
/// taken branch adds. The opcodes that halt the chip stand for a one-byte instruction of
/// two cycles here.
pub open spec fn base_cycles(opcode: u8) -> nat {
    match opcode {
        0x00 => 7,
        0x01 => 6,
        0x02 => 2,
        0x03 => 8,
        0x04 => 3,
        0x05 => 3,
        0x06 => 5,
        0x07 => 5,
        0x08 => 3,
        0x09 => 2,
        0x0a => 2,
        0x0b => 2,
        0x0c => 4,
        0x0d => 4,
        0x0e => 6,
        0x0f => 6,
        0x10 => 2,
        0x11 => 5,
        0x12 => 2,
        0x13 => 8,
        0x14 => 4,
        0x15 => 4,
        0x16 => 6,
        0x17 => 6,
        0x18 => 2,
        0x19 => 4,
        0x1a => 2,
        0x1b => 7,
        0x1c => 4,
        0x1d => 4,
        0x1e => 7,
        0x1f => 7,
        0x20 => 6,
        0x21 => 6,
        0x22 => 2,
        0x23 => 8,
        0x24 => 3,
        0x25 => 3,
        0x26 => 5,
        0x27 => 5,
        0x28 => 4,
        0x29 => 2,
        0x2a => 2,
        0x2b => 2,
        0x2c => 4,
        0x2d => 4,
        0x2e => 6,
        0x2f => 6,
        0x30 => 2,
        0x31 => 5,
        0x32 => 2,
        0x33 => 8,
        0x34 => 4,
        0x35 => 4,
        0x36 => 6,
        0x37 => 6,
        0x38 => 2,
        0x39 => 4,
        0x3a => 2,
        0x3b => 7,
        0x3c => 4,
        0x3d => 4,
        0x3e => 7,
        0x3f => 7,
        0x40 => 6,
        0x41 => 6,
        0x42 => 2,
        0x43 => 8,
        0x44 => 3,
        0x45 => 3,
        0x46 => 5,
        0x47 => 5,
        0x48 => 3,
        0x49 => 2,
        0x4a => 2,
        0x4b => 2,
        0x4c => 3,
        0x4d => 4,
        0x4e => 6,
        0x4f => 6,
        0x50 => 2,
        0x51 => 5,
        0x52 => 2,
        0x53 => 8,
        0x54 => 4,
        0x55 => 4,
        0x56 => 6,
        0x57 => 6,
        0x58 => 2,
        0x59 => 4,
        0x5a => 2,
        0x5b => 7,
        0x5c => 4,
        0x5d => 4,
        0x5e => 7,
        0x5f => 7,
        0x60 => 6,
        0x61 => 6,
        0x62 => 2,
        0x63 => 8,
        0x64 => 3,
        0x65 => 3,
        0x66 => 5,
        0x67 => 5,
        0x68 => 4,
        0x69 => 2,
        0x6a => 2,
        0x6b => 2,
        0x6c => 5,
        0x6d => 4,
        0x6e => 6,
        0x6f => 6,
        0x70 => 2,
        0x71 => 5,
        0x72 => 2,
        0x73 => 8,
        0x74 => 4,
        0x75 => 4,
        0x76 => 6,
        0x77 => 6,
        0x78 => 2,
        0x79 => 4,
        0x7a => 2,
        0x7b => 7,
        0x7c => 4,
        0x7d => 4,
        0x7e => 7,
        0x7f => 7,
        0x80 => 2,
        0x81 => 6,
        0x82 => 2,
        0x83 => 6,
        0x84 => 3,
        0x85 => 3,
        0x86 => 3,
        0x87 => 3,
        0x88 => 2,
        0x89 => 2,
        0x8a => 2,
        0x8b => 2,
        0x8c => 4,
        0x8d => 4,
        0x8e => 4,
        0x8f => 4,
        0x90 => 2,
        0x91 => 6,
        0x92 => 2,
        0x93 => 6,
        0x94 => 4,
        0x95 => 4,
        0x96 => 4,
        0x97 => 4,
        0x98 => 2,
        0x99 => 5,
        0x9a => 2,
        0x9b => 5,
        0x9c => 5,
        0x9d => 5,
        0x9e => 5,
        0x9f => 5,
        0xa0 => 2,
        0xa1 => 6,
        0xa2 => 2,
        0xa3 => 6,
        0xa4 => 3,
        0xa5 => 3,
        0xa6 => 3,
        0xa7 => 3,
        0xa8 => 2,
        0xa9 => 2,
        0xaa => 2,
        0xab => 2,
        0xac => 4,
        0xad => 4,
        0xae => 4,
        0xaf => 4,
        0xb0 => 2,
        0xb1 => 5,
        0xb2 => 2,
        0xb3 => 5,
        0xb4 => 4,
        0xb5 => 4,
        0xb6 => 4,
        0xb7 => 4,
        0xb8 => 2,
        0xb9 => 4,
        0xba => 2,
        0xbb => 4,
        0xbc => 4,
        0xbd => 4,
        0xbe => 4,
        0xbf => 4,
        0xc0 => 2,
        0xc1 => 6,
        0xc2 => 2,
        0xc3 => 8,
        0xc4 => 3,
        0xc5 => 3,
        0xc6 => 5,
        0xc7 => 5,
        0xc8 => 2,
        0xc9 => 2,
        0xca => 2,
        0xcb => 2,
        0xcc => 4,
        0xcd => 4,
        0xce => 6,
        0xcf => 6,
        0xd0 => 2,
        0xd1 => 5,
        0xd2 => 2,
        0xd3 => 8,
        0xd4 => 4,
        0xd5 => 4,
        0xd6 => 6,
        0xd7 => 6,
        0xd8 => 2,
        0xd9 => 4,
        0xda => 2,
        0xdb => 7,
        0xdc => 4,
        0xdd => 4,
        0xde => 7,
        0xdf => 7,
        0xe0 => 2,
        0xe1 => 6,
        0xe2 => 2,
        0xe3 => 8,
        0xe4 => 3,
        0xe5 => 3,
        0xe6 => 5,
        0xe7 => 5,
        0xe8 => 2,
        0xe9 => 2,
        0xea => 2,
        0xeb => 2,
        0xec => 4,
        0xed => 4,
        0xee => 6,
        0xef => 6,
        0xf0 => 2,
        0xf1 => 5,
        0xf2 => 2,
        0xf3 => 8,
        0xf4 => 4,
        0xf5 => 4,
        0xf6 => 6,
        0xf7 => 6,
        0xf8 => 2,
        0xf9 => 4,
        0xfa => 2,
        0xfb => 7,
        0xfc => 4,
        0xfd => 4,
        0xfe => 7,
        _ => 7,
    }
}

/// Whether the instruction behind `opcode` takes one cycle more where adding the index
/// crosses a page: the instructions that read through an address indexed by a full
/// register.
pub open spec fn pays_for_crossing(opcode: u8) -> bool {
    opcode == 0x11
        || opcode == 0x19
        || opcode == 0x1c
        || opcode == 0x1d
        || opcode == 0x31
        || opcode == 0x39
        || opcode == 0x3c
        || opcode == 0x3d
        || opcode == 0x51
        || opcode == 0x59
        || opcode == 0x5c
        || opcode == 0x5d
        || opcode == 0x71
        || opcode == 0x79
        || opcode == 0x7c
        || opcode == 0x7d
        || opcode == 0xb1
        || opcode == 0xb3
        || opcode == 0xb9
        || opcode == 0xbb
        || opcode == 0xbc
        || opcode == 0xbd
        || opcode == 0xbe
        || opcode == 0xbf
        || opcode == 0xd1
        || opcode == 0xd9
        || opcode == 0xdc
        || opcode == 0xdd
        || opcode == 0xf1
        || opcode == 0xf9
        || opcode == 0xfc
        || opcode == 0xfd
}

} // verus!

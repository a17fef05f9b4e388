use vstd::prelude::*;
use crate::bus::Bus;
use crate::bytes::{low, negative};
use crate::cpu::Cpu;
use crate::model::State;
use crate::status::{Flags, Status};

verus! {

/// Shift left.
pub const ASL: u8 = 0;

/// Decrement, then compare with the accumulator.
pub const DCP: u8 = 1;

/// Decrement.
pub const DEC: u8 = 2;

/// Increment.
pub const INC: u8 = 3;

/// Increment, then subtract from the accumulator.
pub const ISB: u8 = 4;

/// Shift right.
pub const LSR: u8 = 5;

/// Rotate left, then AND with the accumulator.
pub const RLA: u8 = 6;

/// Rotate left through the carry.
pub const ROL: u8 = 7;

/// Rotate right through the carry.
pub const ROR: u8 = 8;

/// Rotate right, then add to the accumulator.
pub const RRA: u8 = 9;

/// Shift left, then OR with the accumulator.
pub const SLO: u8 = 10;

/// Shift right, then exclusive-OR with the accumulator.
pub const SRE: u8 = 11;

/// Whether `kind` names a way to modify a byte.
pub open spec fn modifies(kind: u8) -> bool {
    kind <= SRE
}

/// The byte that modifying `value` in the way of `kind` gives, with `carry` the carry
/// flag before.
#[verifier::opaque]
pub open spec fn modified(kind: u8, value: u8, carry: bool) -> u8 {
    if kind == ASL || kind == SLO {
        value.wrapping_shl(1)
    } else if kind == DCP || kind == DEC {
        value.wrapping_sub(1)
    } else if kind == INC || kind == ISB {
        value.wrapping_add(1)
    } else if kind == LSR || kind == SRE {
        value.wrapping_shr(1)
    } else if kind == ROL || kind == RLA {
        value.wrapping_shl(1) | if carry { 0x01u8 } else { 0x00u8 }
    } else {
        (if carry { 0x80u8 } else { 0x00u8 }) | value.wrapping_shr(1)
    }
}

/// The carry flag after modifying `value` in the way of `kind`: the bit shifted out, or
/// `carry` where nothing is shifted.
#[verifier::opaque]
pub open spec fn modified_carry(kind: u8, value: u8, carry: bool) -> bool {
    if kind == ASL || kind == SLO || kind == ROL || kind == RLA {
        value & 0x80 != 0
    } else if kind == LSR || kind == SRE || kind == ROR || kind == RRA {
        value & 0x01 != 0
    } else {
        carry
    }
}

impl Flags {
    /// The flags with Z and N set from `value`: Z if it is zero, N if its bit 7 is set.
    pub open spec fn load(self, value: u8) -> Flags {
        Flags { z: value == 0, n: negative(value), ..self }
    }
}

impl State {
    /// Loads `value` into A and sets Z and N from it.
    pub open spec fn set_a(self, value: u8) -> State {
        State { a: value, p: self.p.load(value), ..self }
    }

    /// Loads `value` into X and sets Z and N from it.
    pub open spec fn set_x(self, value: u8) -> State {
        State { x: value, p: self.p.load(value), ..self }
    }

    /// Loads `value` into Y and sets Z and N from it.
    pub open spec fn set_y(self, value: u8) -> State {
        State { y: value, p: self.p.load(value), ..self }
    }

    /// The sum of A, `value` and the carry flag, not reduced.
    pub open spec fn sum(self, value: u8) -> int {
        self.a + value + if self.p.c { 1int } else { 0 }
    }

    /// Adds `value` and the carry flag to A. C is the carry out of bit 7, V tells whether
    /// the sum of the operands, read as signed numbers, left the signed range, and Z and N
    /// go by the new A. The decimal flag changes nothing.
    pub open spec fn add(self, value: u8) -> State {
        let a = low(self.sum(value) as u16);
        State {
            a,
            p: Flags {
                c: self.sum(value) > 0xff,
                z: a == 0,
                v: (self.a ^ a) & (value ^ a) & 0x80 != 0,
                n: negative(a),
                ..self.p
            },
            ..self
        }
    }

    /// Compares `register` with `value`: C if the register is at least the value, and Z and
    /// N by their difference modulo 256. No register changes.
    pub open spec fn compare(self, register: u8, value: u8) -> State {
        State {
            p: Flags {
                c: register >= value,
                z: register.wrapping_sub(value) == 0,
                n: negative(register.wrapping_sub(value)),
                ..self.p
            },
            ..self
        }
    }

    /// Sets the flags for modifying `value` in the way of `kind`: C by the bit shifted out,
    /// Z and N by the result.
    pub open spec fn modify(self, kind: u8, value: u8) -> State {
        State {
            p: Flags { c: modified_carry(kind, value, self.p.c), ..self.p }.load(
                modified(kind, value, self.p.c),
            ),
            ..self
        }
    }
}

impl<B: Bus> Cpu<B> {
    /// Loads `value` into A and sets Z and N from it.
    pub(crate) fn set_a(&mut self, value: u8)
        ensures
            final(self)@ == old(self)@.set_a(value),
    {
        self.a = value;
        self.p.set(Status::Z, self.a == 0);
        self.p.set(Status::N, self.a & 0x80 != 0);
    }

    /// Loads `value` into X and sets Z and N from it.
    pub(crate) fn set_x(&mut self, value: u8)
        ensures
            final(self)@ == old(self)@.set_x(value),
    {
        self.x = value;
        self.p.set(Status::Z, self.x == 0);
        self.p.set(Status::N, self.x & 0x80 != 0);
    }

    /// Loads `value` into Y and sets Z and N from it.
    pub(crate) fn set_y(&mut self, value: u8)
        ensures
            final(self)@ == old(self)@.set_y(value),
    {
        self.y = value;
        self.p.set(Status::Z, self.y == 0);
        self.p.set(Status::N, self.y & 0x80 != 0);
    }

    /// Adds `value` and the carry flag to A.
    pub(crate) fn add(&mut self, value: u8)
        ensures
            final(self)@ == old(self)@.add(value),
    {
        let a = self.a;
        let carry: u16 = if self.p.contains(Status::C) { 1 } else { 0 };
        let result: u16 = self.a as u16 + value as u16 + carry;
        self.a = low(result);

        self.p.set(Status::C, result > 0xff);
        self.p.set(Status::Z, self.a == 0);
        self.p.set(Status::V, ((a ^ self.a) & (value ^ self.a) & 0x80) != 0);
        self.p.set(Status::N, self.a & 0x80 != 0);
    }

    /// Compares `register` with `value`.
    pub(crate) fn compare(&mut self, register: u8, value: u8)
        ensures
            final(self)@ == old(self)@.compare(register, value),
    {
        let result = register.wrapping_sub(value);

        self.p.set(Status::C, register >= value);
        self.p.set(Status::Z, result == 0);
        self.p.set(Status::N, result & 0x80 != 0);
    }

    /// Modifies `value` in the way of `I`, sets the flags for it and returns the result.
    pub(crate) fn modify<const I: u8>(&mut self, value: u8) -> (result: u8)
        requires
            modifies(I),
        ensures
            final(self)@ == old(self)@.modify(I, value),
            result == modified(I, value, old(self)@.p.c),
    {
        proof {
            reveal(modified);
            reveal(modified_carry);
        }
        let old_carry = self.p.contains(Status::C);
        let (result, carry) = match I {
            ASL | SLO => (value.wrapping_shl(1), value & 0x80 != 0),
            DCP | DEC => (value.wrapping_sub(1), old_carry),
            INC | ISB => (value.wrapping_add(1), old_carry),
            LSR | SRE => (value.wrapping_shr(1), value & 0x01 != 0),
            ROL | RLA => (value.wrapping_shl(1) | if old_carry { 0x01u8 } else { 0x00u8 }, value & 0x80 != 0),
            ROR | RRA => ((if old_carry { 0x80u8 } else { 0x00u8 }) | value.wrapping_shr(1), value & 0x01 != 0),
            _ => vstd::pervasive::unreached(),
        };

        self.p.set(Status::C, carry);
        self.p.set(Status::Z, result == 0);
        self.p.set(Status::N, result & 0x80 != 0);

        result
    }
}

} // verus!

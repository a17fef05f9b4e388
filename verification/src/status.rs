use vstd::prelude::*;

verus! {

/// One bit of the status register's byte.
#[derive(Clone, Copy, Debug, PartialEq, Eq, Structural)]
pub enum Flag {
    /// Carry.
    C,
    /// Zero.
    Z,
    /// Interrupt disable.
    I,
    /// Decimal mode; stored, but without effect on arithmetic.
    D,
    /// Break; not held in the register, and set only in a copy pushed on the stack.
    B,
    /// Unused; not held in the register, and always read as set.
    U,
    /// Overflow.
    V,
    /// Negative.
    N,
}

/// The status register as the six flags that it holds: the mathematical view of
/// [`Status`]. The bits B and U of its byte are no flags of the register: U reads as set
/// and B as clear, whatever is written.
pub struct Flags {
    pub c: bool,
    pub z: bool,
    pub i: bool,
    pub d: bool,
    pub v: bool,
    pub n: bool,
}

impl Flags {
    /// No flag set.
    pub open spec fn empty() -> Flags {
        Flags { c: false, z: false, i: false, d: false, v: false, n: false }
    }

    /// The register at power-up: interrupts disabled.
    pub open spec fn power_up() -> Flags {
        Flags { i: true, ..Flags::empty() }
    }

    /// Whether `flag` reads as set: U always does, and B never.
    pub open spec fn get(self, flag: Flag) -> bool {
        match flag {
            Flag::C => self.c,
            Flag::Z => self.z,
            Flag::I => self.i,
            Flag::D => self.d,
            Flag::B => false,
            Flag::U => true,
            Flag::V => self.v,
            Flag::N => self.n,
        }
    }

    /// The register with `flag` set to `on` and every other flag as it was. B and U are
    /// not held, so writing them changes nothing.
    pub open spec fn with(self, flag: Flag, on: bool) -> Flags {
        match flag {
            Flag::C => Flags { c: on, ..self },
            Flag::Z => Flags { z: on, ..self },
            Flag::I => Flags { i: on, ..self },
            Flag::D => Flags { d: on, ..self },
            Flag::B => self,
            Flag::U => self,
            Flag::V => Flags { v: on, ..self },
            Flag::N => Flags { n: on, ..self },
        }
    }

    /// The register as read from the stack in the byte `bits`: the six flags are taken
    /// from it, and its bits B and U are dropped.
    pub open spec fn pulled(self, bits: u8) -> Flags {
        Flags::from_bits(bits)
    }

    /// The register as a byte: C is bit 0, then Z, I, D; bit 4, B, is clear; bit 5, U, is
    /// set; V is bit 6 and N is bit 7.
    #[verifier::opaque]
    pub open spec fn bits(self) -> u8 {
        ((if self.c { 1int } else { 0 })
            + (if self.z { 2int } else { 0 })
            + (if self.i { 4int } else { 0 })
            + (if self.d { 8int } else { 0 })
            + 32
            + (if self.v { 64int } else { 0 })
            + (if self.n { 128int } else { 0 })) as u8
    }

    /// The byte that is pushed on the stack for the register: its byte, with bit 4, B, set
    /// if `brk` holds, as it does for PHP and BRK.
    pub open spec fn pushed(self, brk: bool) -> u8 {
        (self.bits() + if brk { 16int } else { 0 }) as u8
    }

    /// The flags that a byte holds. Its bits B and U hold none.
    pub open spec fn from_bits(bits: u8) -> Flags {
        Flags {
            c: bits & 0x01 != 0,
            z: bits & 0x02 != 0,
            i: bits & 0x04 != 0,
            d: bits & 0x08 != 0,
            v: bits & 0x40 != 0,
            n: bits & 0x80 != 0,
        }
    }

    /// The byte of the flags that a byte holds is that byte with U set and B clear.
    pub proof fn lemma_bits_of_from_bits(bits: u8)
        ensures
            Flags::from_bits(bits).bits() == (bits & 0xcf) | 0x20,
    {
        reveal(Flags::bits);
        assert(((bits & 0xcf) | 0x20) == (if bits & 0x01 != 0 { 1int } else { 0 })
            + (if bits & 0x02 != 0 { 2int } else { 0 })
            + (if bits & 0x04 != 0 { 4int } else { 0 })
            + (if bits & 0x08 != 0 { 8int } else { 0 })
            + 32
            + (if bits & 0x40 != 0 { 64int } else { 0 })
            + (if bits & 0x80 != 0 { 128int } else { 0 })) by (bit_vector);
    }

    /// The register's byte always has U set and B clear, the pushed byte has B as asked,
    /// and the flags survive the trip through either byte.
    pub proof fn lemma_from_bits_of_bits(self)
        ensures
            self.bits() & 0x20 != 0,
            self.bits() & 0x10 == 0,
            self.pushed(true) & 0x20 != 0,
            self.pushed(true) & 0x10 != 0,
            self.pushed(false) == self.bits(),
            self.pushed(true) == self.bits() | 0x10,
            Flags::from_bits(self.bits()) == self,
            Flags::from_bits(self.pushed(true)) == self,
    {
        reveal(Flags::bits);
        let (c, z, i, d, v, n) = (self.c, self.z, self.i, self.d, self.v, self.n);
        let byte: u8 = self.bits();
        let more: u8 = self.pushed(true);
        assert(byte == (if c { 1int } else { 0 }) + (if z { 2int } else { 0 }) + (if i { 4int } else { 0 })
            + (if d { 8int } else { 0 }) + 32 + (if v { 64int } else { 0 }) + (if n { 128int } else { 0 }));
        assert(more == byte + 16);
        assert((byte & 0x01 != 0) == c && (byte & 0x02 != 0) == z && (byte & 0x04 != 0) == i
            && (byte & 0x08 != 0) == d && (byte & 0x40 != 0) == v && (byte & 0x80 != 0) == n
            && byte & 0x20 != 0 && byte & 0x10 == 0 && more == byte | 0x10 && more & 0x20 != 0
            && more & 0x10 != 0 && (more & 0x01 != 0) == c && (more & 0x02 != 0) == z && (more & 0x04
            != 0) == i && (more & 0x08 != 0) == d && (more & 0x40 != 0) == v && (more & 0x80 != 0) == n)
            by (bit_vector)
            requires
                byte == (if c { 1int } else { 0 }) + (if z { 2int } else { 0 }) + (if i { 4int } else { 0 })
                    + (if d { 8int } else { 0 }) + 32 + (if v { 64int } else { 0 }) + (if n { 128int } else { 0 }),
                more == byte + 16,
        ;
    }
}

/// The bit that stands for `flag` among the flags that the register holds; none for B and
/// U, which it does not hold.
pub open spec fn mask_of(flag: Flag) -> u8 {
    match flag {
        Flag::C => 0x01,
        Flag::Z => 0x02,
        Flag::I => 0x04,
        Flag::D => 0x08,
        Flag::B => 0x00,
        Flag::U => 0x00,
        Flag::V => 0x40,
        Flag::N => 0x80,
    }
}

/// The processor status register P. It holds the flags C, Z, I, D, V and N. No register
/// holds B, and U is set in every register: a byte read from one has bit 5 set and bit 4
/// clear, and a register made from a byte drops what the byte holds there.
#[derive(Clone, Copy, Debug, PartialEq, Eq, Structural)]
pub struct Status {
    bits: u8,
}

impl Status {
    pub const C: Flag = Flag::C;

    pub const Z: Flag = Flag::Z;

    pub const I: Flag = Flag::I;

    pub const D: Flag = Flag::D;

    pub const B: Flag = Flag::B;

    pub const U: Flag = Flag::U;

    pub const V: Flag = Flag::V;

    pub const N: Flag = Flag::N;

    /// The flags that the register holds.
    pub closed spec fn view(&self) -> Flags {
        Flags::from_bits(self.bits)
    }

    /// A register with no flag set.
    pub fn empty() -> (status: Status)
        ensures
            status@ == Flags::empty(),
    {
        assert(0x20u8 & 0x01 == 0 && 0x20u8 & 0x02 == 0 && 0x20u8 & 0x04 == 0 && 0x20u8 & 0x08 == 0 && 0x20u8
            & 0x40 == 0 && 0x20u8 & 0x80 == 0) by (bit_vector);
        Status { bits: 0x20 }
    }

    /// The register's byte, in which U is set and B is clear.
    pub fn bits(&self) -> (bits: u8)
        ensures
            bits == self@.bits(),
            bits & 0x20 != 0,
            bits & 0x10 == 0,
            Flags::from_bits(bits) == self@,
    {
        proof {
            Flags::lemma_bits_of_from_bits(self.bits);
            self@.lemma_from_bits_of_bits();
        }
        (self.bits & 0xcf) | 0x20
    }

    /// The byte that is pushed on the stack for the register: its byte, with B set if
    /// `brk` holds.
    pub fn pushed(&self, brk: bool) -> (bits: u8)
        ensures
            bits == self@.pushed(brk),
            bits & 0x20 != 0,
            (bits & 0x10 != 0) == brk,
    {
        proof {
            self@.lemma_from_bits_of_bits();
        }
        if brk {
            self.bits() | 0x10
        } else {
            self.bits()
        }
    }

    /// The register that holds the flags of `bits`. Every byte is accepted; what it holds
    /// for B and U is dropped.
    pub fn from_bits(bits: u8) -> (status: Option<Status>)
        ensures
            status matches Some(s) && s@ == Flags::from_bits(bits),
    {
        Some(Status::from_bits_truncate(bits))
    }

    /// The register that holds the flags of `bits`; what the byte holds for B and U is
    /// dropped.
    pub fn from_bits_truncate(bits: u8) -> (status: Status)
        ensures
            status@ == Flags::from_bits(bits),
    {
        let kept = (bits & 0xcf) | 0x20;
        assert((kept & 0x01 != 0) == (bits & 0x01 != 0) && (kept & 0x02 != 0) == (bits & 0x02 != 0) && (kept
            & 0x04 != 0) == (bits & 0x04 != 0) && (kept & 0x08 != 0) == (bits & 0x08 != 0) && (kept & 0x40
            != 0) == (bits & 0x40 != 0) && (kept & 0x80 != 0) == (bits & 0x80 != 0)) by (bit_vector)
            requires
                kept == (bits & 0xcf) | 0x20,
        ;
        Status { bits: kept }
    }

    /// The bit that stands for `flag`, if the register holds it.
    fn mask(flag: Flag) -> (mask: u8)
        ensures
            mask == mask_of(flag),
    {
        match flag {
            Flag::C => 0x01,
            Flag::Z => 0x02,
            Flag::I => 0x04,
            Flag::D => 0x08,
            Flag::B => 0x00,
            Flag::U => 0x00,
            Flag::V => 0x40,
            Flag::N => 0x80,
        }
    }

    /// Whether `flag` reads as set: U always does, and B never.
    pub fn contains(&self, flag: Flag) -> (on: bool)
        ensures
            on == self@.get(flag),
    {
        match flag {
            Flag::B => false,
            Flag::U => true,
            _ => self.bits & Status::mask(flag) != 0,
        }
    }

    /// Sets `flag`, if the register holds it.
    pub fn insert(&mut self, flag: Flag)
        ensures
            final(self)@ == old(self)@.with(flag, true),
    {
        let mask = Status::mask(flag);
        proof {
            lemma_insert(self.bits, mask);
        }
        self.bits = self.bits | mask;
    }

    /// Clears `flag`, if the register holds it.
    pub fn remove(&mut self, flag: Flag)
        ensures
            final(self)@ == old(self)@.with(flag, false),
    {
        let mask = Status::mask(flag);
        proof {
            lemma_remove(self.bits, mask);
        }
        self.bits = self.bits & !mask;
    }

    /// The register with `flag` set to `on`.
    pub fn with(self, flag: Flag, on: bool) -> (status: Status)
        ensures
            status@ == self@.with(flag, on),
    {
        let mut status = self;
        status.set(flag, on);
        status
    }

    /// The register as read from the stack in the byte `bits`: the six flags are taken
    /// from it, and its bits B and U are dropped.
    pub fn pulled(self, bits: u8) -> (status: Status)
        ensures
            status@ == self@.pulled(bits),
    {
        Status::from_bits_truncate(bits)
    }

    /// Sets `flag` if `on` holds, and clears it otherwise.
    pub fn set(&mut self, flag: Flag, on: bool)
        ensures
            final(self)@ == old(self)@.with(flag, on),
    {
        if on {
            self.insert(flag);
        } else {
            self.remove(flag);
        }
    }
}

impl Default for Status {
    /// The register at power-up.
    fn default() -> (status: Status)
        ensures
            status@ == Flags::power_up(),
    {
        assert(0x24u8 & 0x01 == 0 && 0x24u8 & 0x02 == 0 && 0x24u8 & 0x04 != 0 && 0x24u8 & 0x08 == 0 && 0x24u8
            & 0x40 == 0 && 0x24u8 & 0x80 == 0) by (bit_vector);
        Status { bits: 0x24 }
    }
}

/// What ORing the bit of one flag, or none, into a byte does to the six bits of the flags.
proof fn lemma_insert(bits: u8, mask: u8)
    by (bit_vector)
    requires
        mask == 0x00 || mask == 0x01 || mask == 0x02 || mask == 0x04 || mask == 0x08 || mask == 0x40 || mask
            == 0x80,
    ensures
        ((bits | mask) & 0x01 != 0) == (mask == 0x01 || bits & 0x01 != 0),
        ((bits | mask) & 0x02 != 0) == (mask == 0x02 || bits & 0x02 != 0),
        ((bits | mask) & 0x04 != 0) == (mask == 0x04 || bits & 0x04 != 0),
        ((bits | mask) & 0x08 != 0) == (mask == 0x08 || bits & 0x08 != 0),
        ((bits | mask) & 0x40 != 0) == (mask == 0x40 || bits & 0x40 != 0),
        ((bits | mask) & 0x80 != 0) == (mask == 0x80 || bits & 0x80 != 0),
{
}

/// What clearing the bit of one flag, or none, in a byte does to the six bits of the
/// flags.
proof fn lemma_remove(bits: u8, mask: u8)
    by (bit_vector)
    requires
        mask == 0x00 || mask == 0x01 || mask == 0x02 || mask == 0x04 || mask == 0x08 || mask == 0x40 || mask
            == 0x80,
    ensures
        ((bits & !mask) & 0x01 != 0) == (mask != 0x01 && bits & 0x01 != 0),
        ((bits & !mask) & 0x02 != 0) == (mask != 0x02 && bits & 0x02 != 0),
        ((bits & !mask) & 0x04 != 0) == (mask != 0x04 && bits & 0x04 != 0),
        ((bits & !mask) & 0x08 != 0) == (mask != 0x08 && bits & 0x08 != 0),
        ((bits & !mask) & 0x40 != 0) == (mask != 0x40 && bits & 0x40 != 0),
        ((bits & !mask) & 0x80 != 0) == (mask != 0x80 && bits & 0x80 != 0),
{
}

} // verus!

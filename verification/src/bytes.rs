use vstd::prelude::*;

verus! {

/// The first address of the stack page.
pub const STACK_BASE: u16 = 0x0100;

/// `value` reduced modulo 65536.
pub open spec fn wrap16(value: int) -> u16 {
    (value % 0x1_0000) as u16
}

/// An offset byte read as a two's complement number, between -128 and 127.
pub open spec fn signed(offset: u8) -> int {
    if offset < 0x80 {
        offset as int
    } else {
        offset - 0x100
    }
}

/// Whether bit 7 of `value` is set.
pub open spec fn negative(value: u8) -> bool {
    value & 0x80 != 0
}

/// The 16-bit word with low byte `low` and high byte `high`.
#[verifier::allow_in_spec]
pub fn word(low: u8, high: u8) -> u16
    returns
        (high * 0x100 + low) as u16,
{
    assert((high as u16) << 8 | low as u16 == high * 0x100 + low) by (bit_vector);
    (high as u16) << 8 | low as u16
}

/// The low byte of `value`.
#[verifier::allow_in_spec]
pub fn low(value: u16) -> u8
    returns
        (value % 0x100) as u8,
{
    assert(value as u8 == value % 0x100) by (bit_vector);
    value as u8
}

/// The high byte of `value`.
#[verifier::allow_in_spec]
pub fn high(value: u16) -> u8
    returns
        (value / 0x100) as u8,
{
    assert((value >> 8) as u8 == value / 0x100) by (bit_vector);
    (value >> 8) as u8
}

/// The address in the stack page that the stack pointer `s` stands for.
#[verifier::allow_in_spec]
pub fn stack(s: u8) -> u16
    returns
        (0x100 + s) as u16,
{
    STACK_BASE + s as u16
}

/// `pc` moved by the signed offset of a branch, modulo 65536.
#[verifier::allow_in_spec]
pub fn displace(pc: u16, offset: u8) -> u16
    returns
        wrap16(pc + signed(offset)),
{
    assert(offset as i8 as u16 == (if offset < 0x80 { offset as int } else { 0xff00 + offset })) by (bit_vector);
    pc.wrapping_add(offset as i8 as u16)
}

} // verus!

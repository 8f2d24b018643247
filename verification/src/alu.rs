//! Arithmetic/logic formulas shared by the model and the interpreter:
//! 8-bit add/subtract with optional carry-in and 16-bit add, each yielding
//! the wrapped result together with its half-carry and carry bits.
//! Half-carry is the carry (or borrow) across the low-nibble boundary;
//! for the 16-bit add it is the carry across the low-twelve-bit boundary
//! and carry is the carry out of the top bit — the hardware-accurate
//! boundaries, chosen over testing the low byte's carry.

use vstd::prelude::*;

verus! {

/// 8-bit addition `a + b + carry_in`: (wrapped result, half-carry, carry).
pub open spec fn spec_add8(a: u8, b: u8, carry_in: u8) -> (u8, bool, bool) {
    (((a + b + carry_in) % 256) as u8, a % 16 + b % 16 + carry_in > 15, a + b + carry_in > 255)
}

/// 8-bit subtraction `a - b - carry_in`: (wrapped result, half-borrow, borrow).
pub open spec fn spec_sub8(a: u8, b: u8, carry_in: u8) -> (u8, bool, bool) {
    (((a - b - carry_in) % 256) as u8, a % 16 < b % 16 + carry_in, a < b + carry_in)
}

/// 16-bit addition `a + b`: (wrapped result, carry out of the low twelve
/// bits, carry out of the top bit).
pub open spec fn spec_add16(a: u16, b: u16) -> (u16, bool, bool) {
    (((a + b) % 65536) as u16, a % 4096 + b % 4096 > 4095, a + b > 65535)
}

pub fn add8(a: u8, b: u8, carry_in: u8) -> (r: (u8, bool, bool))
    requires
        carry_in <= 1,
    ensures
        r == spec_add8(a, b, carry_in),
{
    let sum: u16 = a as u16 + b as u16 + carry_in as u16;
    ((sum % 256) as u8, a % 16 + b % 16 + carry_in > 15, sum > 255)
}

pub fn sub8(a: u8, b: u8, carry_in: u8) -> (r: (u8, bool, bool))
    requires
        carry_in <= 1,
    ensures
        r == spec_sub8(a, b, carry_in),
{
    let rhs: u16 = b as u16 + carry_in as u16;
    let diff: u16 = (256 + a as u16 - rhs) % 256;
    (diff as u8, a % 16 < b % 16 + carry_in, (a as u16) < rhs)
}

pub fn add16(a: u16, b: u16) -> (r: (u16, bool, bool))
    ensures
        r == spec_add16(a, b),
{
    let sum: u32 = a as u32 + b as u32;
    ((sum % 65536) as u16, a % 4096 + b % 4096 > 4095, sum > 65535)
}

} // verus!

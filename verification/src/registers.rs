//! The register file: eight 8-bit registers viewable as four 16-bit pairs,
//! the stack pointer and program counter, the four condition flags (stored
//! as named booleans — the low nibble of the flag register is always zero,
//! an invariant this representation makes structural), and the interrupt
//! master enable gate with its one-instruction-delayed enable latch.

use vstd::prelude::*;

verus! {

pub struct Cpu {
    pub a: u8,
    pub b: u8,
    pub c: u8,
    pub d: u8,
    pub e: u8,
    pub h: u8,
    pub l: u8,
    /// Condition flag: last result was zero (bit 7 of the flag register).
    pub zero: bool,
    /// Condition flag: last operation was a subtraction (bit 6).
    pub subtract: bool,
    /// Condition flag: carry/borrow across the nibble boundary (bit 5).
    pub half_carry: bool,
    /// Condition flag: carry/borrow out of the top bit (bit 4).
    pub carry: bool,
    pub stack_pointer: u16,
    pub program_counter: u16,
    /// Interrupt master enable: when false no interrupt is dispatched,
    /// whatever is pending and enabled.
    pub ime: bool,
    /// Set by the enable-interrupts instruction; consumed at the start of
    /// the following step, which is when `ime` actually turns on.
    pub enable_interrupts_pending: bool,
    /// When true, a stack byte access below working RAM is a diagnosable
    /// error instead of wrapping silently.
    pub strict_stack: bool,
}

/// The 16-bit value of a register pair: high byte first-named, low byte
/// second-named.
pub open spec fn make16(hi: u8, lo: u8) -> u16 {
    (hi * 256 + lo) as u16
}

/// High byte of a 16-bit value.
pub open spec fn hi8(v: u16) -> u8 {
    (v / 256) as u8
}

/// Low byte of a 16-bit value.
pub open spec fn lo8(v: u16) -> u8 {
    (v % 256) as u8
}

/// The packed flag register: the four condition bits in the high nibble,
/// low nibble always zero.
pub open spec fn spec_flags_byte(cpu: Cpu) -> u8 {
    (bit_if(cpu.zero, 0x80) + bit_if(cpu.subtract, 0x40) + bit_if(cpu.half_carry, 0x20) + bit_if(
        cpu.carry,
        0x10,
    )) as u8
}

pub open spec fn bit_if(b: bool, mask: u8) -> u8 {
    if b {
        mask
    } else {
        0
    }
}

pub open spec fn spec_af(cpu: Cpu) -> u16 {
    make16(cpu.a, spec_flags_byte(cpu))
}

pub open spec fn spec_bc(cpu: Cpu) -> u16 {
    make16(cpu.b, cpu.c)
}

pub open spec fn spec_de(cpu: Cpu) -> u16 {
    make16(cpu.d, cpu.e)
}

pub open spec fn spec_hl(cpu: Cpu) -> u16 {
    make16(cpu.h, cpu.l)
}

impl Cpu {
    /// Power-on state: the fixed post-boot register values, interrupts
    /// enabled, no delayed enable pending, strict stack checking off.
    /// The flag register starts at `0xB0` (zero, half-carry and carry set).
    pub fn new() -> (cpu: Cpu)
        ensures
            cpu.a == 0x01,
            cpu.b == 0x00,
            cpu.c == 0x13,
            cpu.d == 0x00,
            cpu.e == 0xD8,
            cpu.h == 0x01,
            cpu.l == 0x4D,
            cpu.zero,
            !cpu.subtract,
            cpu.half_carry,
            cpu.carry,
            spec_flags_byte(cpu) == 0xB0,
            cpu.stack_pointer == 0xFFFE,
            cpu.program_counter == 0x0100,
            cpu.ime,
            !cpu.enable_interrupts_pending,
            !cpu.strict_stack,
    {
        Cpu {
            a: 0x01,
            b: 0x00,
            c: 0x13,
            d: 0x00,
            e: 0xD8,
            h: 0x01,
            l: 0x4D,
            zero: true,
            subtract: false,
            half_carry: true,
            carry: true,
            stack_pointer: 0xFFFE,
            program_counter: 0x0100,
            ime: true,
            enable_interrupts_pending: false,
            strict_stack: false,
        }
    }

    pub fn flags_byte(&self) -> (r: u8)
        ensures
            r == spec_flags_byte(*self),
    {
        let z: u8 = if self.zero {
            0x80
        } else {
            0
        };
        let n: u8 = if self.subtract {
            0x40
        } else {
            0
        };
        let hc: u8 = if self.half_carry {
            0x20
        } else {
            0
        };
        let cy: u8 = if self.carry {
            0x10
        } else {
            0
        };
        z + n + hc + cy
    }

    pub fn af(&self) -> (r: u16)
        ensures
            r == spec_af(*self),
    {
        self.a as u16 * 256 + self.flags_byte() as u16
    }

    pub fn bc(&self) -> (r: u16)
        ensures
            r == spec_bc(*self),
    {
        self.b as u16 * 256 + self.c as u16
    }

    pub fn de(&self) -> (r: u16)
        ensures
            r == spec_de(*self),
    {
        self.d as u16 * 256 + self.e as u16
    }

    pub fn hl(&self) -> (r: u16)
        ensures
            r == spec_hl(*self),
    {
        self.h as u16 * 256 + self.l as u16
    }

    pub fn set_bc(&mut self, v: u16)
        ensures
            *final(self) == (Cpu { b: hi8(v), c: lo8(v), ..*old(self) }),
    {
        self.b = (v / 256) as u8;
        self.c = (v % 256) as u8;
    }

    pub fn set_de(&mut self, v: u16)
        ensures
            *final(self) == (Cpu { d: hi8(v), e: lo8(v), ..*old(self) }),
    {
        self.d = (v / 256) as u8;
        self.e = (v % 256) as u8;
    }

    pub fn set_hl(&mut self, v: u16)
        ensures
            *final(self) == (Cpu { h: hi8(v), l: lo8(v), ..*old(self) }),
    {
        self.h = (v / 256) as u8;
        self.l = (v % 256) as u8;
    }

    /// Sets the AF pair: the accumulator from the high byte and the four
    /// condition flags from the low byte's high nibble — its low nibble is
    /// discarded, keeping the flag register's low nibble always zero.
    pub fn set_af(&mut self, v: u16)
        ensures
            *final(self) == (Cpu {
                a: hi8(v),
                zero: lo8(v) & 0x80 == 0x80,
                subtract: lo8(v) & 0x40 == 0x40,
                half_carry: lo8(v) & 0x20 == 0x20,
                carry: lo8(v) & 0x10 == 0x10,
                ..*old(self)
            }),
    {
        self.a = (v / 256) as u8;
        let fl = (v % 256) as u8;
        self.zero = fl & 0x80 == 0x80;
        self.subtract = fl & 0x40 == 0x40;
        self.half_carry = fl & 0x20 == 0x20;
        self.carry = fl & 0x10 == 0x10;
    }
}

/// A pair splits into its bytes and reassembles to itself.
pub proof fn lemma_make16_split(v: u16)
    ensures
        make16(hi8(v), lo8(v)) == v,
        hi8(v) < 256,
        lo8(v) < 256,
{
}

} // verus!

//! The interpreter's error taxonomy. A `step` either completes and returns a
//! cycle count, or surfaces one of these; it never panics and never guesses.

use vstd::prelude::*;

verus! {

#[derive(Clone, Copy, PartialEq, Eq, Structural, Debug)]
pub enum CpuError {
    /// The fetched byte (primary or extended table) names no instruction.
    /// Carries the offending byte and the program counter it was fetched
    /// from; the program counter itself has already advanced past the byte,
    /// a partial effect kept for diagnostics.
    UnsupportedOpcode { opcode: u8, program_counter: u16 },
    /// Strict stack checking is enabled and a stack byte access landed below
    /// working RAM (address under `0xC000`). Carries the offending stack
    /// address. With strict checking off, the stack simply wraps within the
    /// 16-bit space and this error never arises.
    OutOfRangeStackAccess { stack_pointer: u16 },
}

} // verus!

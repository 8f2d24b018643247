//! Stack convention and operand fetch. A push decrements the stack pointer
//! and writes the high byte, then decrements again and writes the low byte,
//! so the low byte ends at the lower address; a pop mirrors this exactly.
//! With strict stack checking enabled, a stack byte access below `0xC000`
//! (under working RAM) is refused with a diagnosable error; otherwise the
//! stack pointer simply wraps within the 16-bit space.

use vstd::prelude::*;
use crate::fault::CpuError;
use crate::memory::{mem_read, mem_write, Memory};
use crate::registers::{hi8, lo8, make16, Cpu};

verus! {

/// State after pushing one byte: on a strict-mode fault nothing changes and
/// the offending stack address is reported.
pub open spec fn spec_push8(cpu: Cpu, mem: Seq<u8>, value: u8) -> (Cpu, Seq<u8>, Result<
    (),
    CpuError,
>) {
    let sp = cpu.stack_pointer.wrapping_sub(1);
    if cpu.strict_stack && sp < 0xC000 {
        (cpu, mem, Err(CpuError::OutOfRangeStackAccess { stack_pointer: sp }))
    } else {
        (Cpu { stack_pointer: sp, ..cpu }, mem_write(mem, sp, value), Ok(()))
    }
}

/// State after pushing a 16-bit value, high byte first. A fault on the
/// second byte preserves the first byte's effects for diagnostics.
pub open spec fn spec_push16(cpu: Cpu, mem: Seq<u8>, value: u16) -> (Cpu, Seq<u8>, Result<
    (),
    CpuError,
>) {
    let t = spec_push8(cpu, mem, hi8(value));
    match t.2 {
        Ok(_) => spec_push8(t.0, t.1, lo8(value)),
        Err(_) => t,
    }
}

/// State and byte after popping one byte.
pub open spec fn spec_pop8(cpu: Cpu, mem: Seq<u8>) -> (Cpu, u8, Result<(), CpuError>) {
    let sp = cpu.stack_pointer;
    if cpu.strict_stack && sp < 0xC000 {
        (cpu, 0, Err(CpuError::OutOfRangeStackAccess { stack_pointer: sp }))
    } else {
        (Cpu { stack_pointer: sp.wrapping_add(1), ..cpu }, mem_read(mem, sp), Ok(()))
    }
}

/// State and value after popping a 16-bit value: low byte first, then high.
pub open spec fn spec_pop16(cpu: Cpu, mem: Seq<u8>) -> (Cpu, u16, Result<(), CpuError>) {
    let t = spec_pop8(cpu, mem);
    match t.2 {
        Ok(_) => {
            let u = spec_pop8(t.0, mem);
            match u.2 {
                Ok(_) => (u.0, make16(u.1, t.1), Ok(())),
                Err(e) => (u.0, 0, Err(e)),
            }
        },
        Err(e) => (t.0, 0, Err(e)),
    }
}

/// The same machine state with the program counter moved `n` ahead,
/// wrapping.
pub open spec fn bump_pc(cpu: Cpu, n: u16) -> Cpu {
    Cpu { program_counter: cpu.program_counter.wrapping_add(n), ..cpu }
}

impl Cpu {
    pub fn push_byte(&mut self, mem: &mut Memory, value: u8) -> (r: Result<(), CpuError>)
        requires
            old(mem).wf(),
        ensures
            final(mem).wf(),
            ({
                let t = spec_push8(*old(self), old(mem)@, value);
                *final(self) == t.0 && final(mem)@ == t.1 && r == t.2
            }),
    {
        let sp = self.stack_pointer.wrapping_sub(1);
        if self.strict_stack && sp < 0xC000 {
            Err(CpuError::OutOfRangeStackAccess { stack_pointer: sp })
        } else {
            self.stack_pointer = sp;
            mem.write_byte(sp, value);
            Ok(())
        }
    }

    pub fn push_short(&mut self, mem: &mut Memory, value: u16) -> (r: Result<(), CpuError>)
        requires
            old(mem).wf(),
        ensures
            final(mem).wf(),
            ({
                let t = spec_push16(*old(self), old(mem)@, value);
                *final(self) == t.0 && final(mem)@ == t.1 && r == t.2
            }),
    {
        match self.push_byte(mem, (value / 256) as u8) {
            Ok(_) => self.push_byte(mem, (value % 256) as u8),
            Err(e) => Err(e),
        }
    }

    pub fn pop_byte(&mut self, mem: &Memory) -> (r: Result<u8, CpuError>)
        requires
            mem.wf(),
        ensures
            ({
                let t = spec_pop8(*old(self), mem@);
                *final(self) == t.0 && (match t.2 {
                    Ok(_) => r == Ok::<u8, CpuError>(t.1),
                    Err(e) => r == Err::<u8, CpuError>(e),
                })
            }),
    {
        let sp = self.stack_pointer;
        if self.strict_stack && sp < 0xC000 {
            Err(CpuError::OutOfRangeStackAccess { stack_pointer: sp })
        } else {
            self.stack_pointer = sp.wrapping_add(1);
            Ok(mem.read_byte(sp))
        }
    }

    pub fn pop_short(&mut self, mem: &Memory) -> (r: Result<u16, CpuError>)
        requires
            mem.wf(),
        ensures
            ({
                let t = spec_pop16(*old(self), mem@);
                *final(self) == t.0 && (match t.2 {
                    Ok(_) => r == Ok::<u16, CpuError>(t.1),
                    Err(e) => r == Err::<u16, CpuError>(e),
                })
            }),
    {
        match self.pop_byte(mem) {
            Ok(lo) => match self.pop_byte(mem) {
                Ok(hi) => Ok(hi as u16 * 256 + lo as u16),
                Err(e) => Err(e),
            },
            Err(e) => Err(e),
        }
    }

    /// Fetches the one-byte operand at the program counter and advances
    /// past it.
    pub fn read_byte_immediate(&mut self, mem: &Memory) -> (r: u8)
        requires
            mem.wf(),
        ensures
            *final(self) == bump_pc(*old(self), 1),
            r == mem_read(mem@, old(self).program_counter),
    {
        let v = mem.read_byte(self.program_counter);
        self.program_counter = self.program_counter.wrapping_add(1);
        v
    }

    /// Fetches the two-byte little-endian operand at the program counter
    /// and advances past it.
    pub fn read_short_immediate(&mut self, mem: &Memory) -> (r: u16)
        requires
            mem.wf(),
        ensures
            *final(self) == bump_pc(*old(self), 2),
            r == crate::memory::mem_read16(mem@, old(self).program_counter),
    {
        let v = mem.read_short(self.program_counter);
        self.program_counter = self.program_counter.wrapping_add(2);
        v
    }
}

} // verus!

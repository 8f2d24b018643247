//! The interpreter. `step` performs one machine step — interrupt dispatch
//! or fetch/decode/execute — and is proved to produce exactly the state,
//! memory contents and result that the model in `semantics` assigns.

use vstd::prelude::*;
use crate::alu::{add16, add8, sub8};
use crate::fault::CpuError;
use crate::interrupts::{
    interrupt_mask, interrupt_vector, pending_interrupt, IE_ADDR, IF_ADDR,
    INTERRUPT_DISPATCH_CYCLES,
};
use crate::memory::Memory;
use crate::registers::Cpu;
use crate::semantics::{
    jr_target, reg8_operand, spec_alu_imm, spec_alu_op, spec_call_cond, spec_execute_alu,
    spec_execute_control, spec_execute_load, spec_execute_low0, spec_execute_low1, spec_jp_cond,
    spec_ret_cond, spec_rst, spec_step, with_reg8,
};

verus! {

/// Relative-jump target: `pc` plus the byte's two's-complement value,
/// wrapping.
fn jump_rel(pc: u16, off: u8) -> (r: u16)
    ensures
        r == jr_target(pc, off),
{
    let s: i16 = if off < 128 {
        off as i16
    } else {
        off as i16 - 256
    };
    pc.wrapping_add_signed(s)
}

impl Cpu {
    /// One machine step against `mem`: services at most one interrupt, or
    /// consumes the delayed interrupt-enable latch, fetches one opcode and
    /// executes it. Returns the elapsed cycle count, or the fault that
    /// stopped the step. The whole effect equals the model's `spec_step`.
    pub fn step(&mut self, mem: &mut Memory) -> (r: Result<u32, CpuError>)
        requires
            old(mem).wf(),
        ensures
            final(mem).wf(),
            ({
                let t = spec_step(*old(self), old(mem)@);
                *final(self) == t.0 && final(mem)@ == t.1 && r == t.2
            }),
    {
        let iflag = mem.read_byte(IF_ADDR);
        let ie = mem.read_byte(IE_ADDR);
        if self.ime {
            match pending_interrupt(iflag, ie) {
                Some(k) => {
                    mem.write_byte(IF_ADDR, iflag & !interrupt_mask(k));
                    self.ime = false;
                    let pc = self.program_counter;
                    return match self.push_short(mem, pc) {
                        Ok(_) => {
                            self.program_counter = interrupt_vector(k);
                            Ok(INTERRUPT_DISPATCH_CYCLES)
                        },
                        Err(e) => Err(e),
                    };
                },
                None => {},
            }
        }
        if self.enable_interrupts_pending {
            self.enable_interrupts_pending = false;
            self.ime = true;
        }
        let fetch_pc = self.program_counter;
        let opcode = mem.read_byte(fetch_pc);
        self.program_counter = fetch_pc.wrapping_add(1);
        if opcode < 0x40 {
            self.execute_low(mem, opcode, fetch_pc)
        } else if opcode < 0x80 {
            self.execute_load(mem, opcode, fetch_pc)
        } else if opcode < 0xC0 {
            self.execute_alu(mem, opcode, fetch_pc)
        } else {
            self.execute_control(mem, opcode, fetch_pc)
        }
    }

    /// The operand a three-bit selector names: a plain register or the
    /// byte behind the HL pair.
    fn read_reg8(&self, mem: &Memory, k: u8) -> (v: u8)
        requires
            mem.wf(),
            k < 8,
        ensures
            v == reg8_operand(*self, mem@, k),
    {
        if k == 0 {
            self.b
        } else if k == 1 {
            self.c
        } else if k == 2 {
            self.d
        } else if k == 3 {
            self.e
        } else if k == 4 {
            self.h
        } else if k == 5 {
            self.l
        } else if k == 6 {
            mem.read_byte(self.hl())
        } else {
            self.a
        }
    }

    /// Writes the selected plain register (the memory-operand selector is
    /// handled by the caller).
    fn write_reg8(&mut self, k: u8, v: u8)
        requires
            k < 8,
            k != 6,
        ensures
            *final(self) == with_reg8(*old(self), k, v),
    {
        if k == 0 {
            self.b = v;
        } else if k == 1 {
            self.c = v;
        } else if k == 2 {
            self.d = v;
        } else if k == 3 {
            self.e = v;
        } else if k == 4 {
            self.h = v;
        } else if k == 5 {
            self.l = v;
        } else {
            self.a = v;
        }
    }

    /// One accumulator operation of the arithmetic quarter, selected by
    /// its group.
    fn apply_alu(&mut self, group: u8, v: u8)
        requires
            group < 8,
        ensures
            *final(self) == spec_alu_op(*old(self), group, v),
    {
        if group == 0 {
            let t = add8(self.a, v, 0);
            self.a = t.0;
            self.zero = t.0 == 0;
            self.subtract = false;
            self.half_carry = t.1;
            self.carry = t.2;
        } else if group == 1 {
            let cin: u8 = if self.carry {
                1
            } else {
                0
            };
            let t = add8(self.a, v, cin);
            self.a = t.0;
            self.zero = t.0 == 0;
            self.subtract = false;
            self.half_carry = t.1;
            self.carry = t.2;
        } else if group == 2 {
            let t = sub8(self.a, v, 0);
            self.a = t.0;
            self.zero = t.0 == 0;
            self.subtract = true;
            self.half_carry = t.1;
            self.carry = t.2;
        } else if group == 3 {
            let cin: u8 = if self.carry {
                1
            } else {
                0
            };
            let t = sub8(self.a, v, cin);
            self.a = t.0;
            self.zero = t.0 == 0;
            self.subtract = true;
            self.half_carry = t.1;
            self.carry = t.2;
        } else if group == 4 {
            let r = self.a & v;
            self.a = r;
            self.zero = r == 0;
            self.subtract = false;
            self.half_carry = true;
            self.carry = false;
        } else if group == 5 {
            let r = self.a ^ v;
            self.a = r;
            self.zero = r == 0;
            self.subtract = false;
            self.half_carry = false;
            self.carry = false;
        } else if group == 6 {
            let r = self.a | v;
            self.a = r;
            self.zero = r == 0;
            self.subtract = false;
            self.half_carry = false;
            self.carry = false;
        } else {
            let t = sub8(self.a, v, 0);
            self.zero = t.0 == 0;
            self.subtract = true;
            self.half_carry = t.1;
            self.carry = t.2;
        }
    }

    /// An arithmetic-quarter operation on the one-byte immediate operand.
    fn alu_imm(&mut self, mem: &Memory, group: u8) -> (r: Result<u32, CpuError>)
        requires
            mem.wf(),
            group < 8,
        ensures
            ({
                let t = spec_alu_imm(*old(self), mem@, group);
                *final(self) == t.0 && mem@ == t.1 && r == t.2
            }),
    {
        let v = self.read_byte_immediate(mem);
        self.apply_alu(group, v);
        Ok(8)
    }

    /// A conditional (or unconditional) return.
    fn ret_cond(&mut self, mem: &Memory, cond: bool) -> (r: Result<u32, CpuError>)
        requires
            mem.wf(),
        ensures
            ({
                let t = spec_ret_cond(*old(self), mem@, cond);
                *final(self) == t.0 && mem@ == t.1 && r == t.2
            }),
    {
        if cond {
            match self.pop_short(mem) {
                Ok(v) => {
                    self.program_counter = v;
                    Ok(20)
                },
                Err(e) => Err(e),
            }
        } else {
            Ok(8)
        }
    }

    /// A conditional absolute jump; the target bytes are consumed either
    /// way.
    fn jp_cond(&mut self, mem: &Memory, cond: bool) -> (r: Result<u32, CpuError>)
        requires
            mem.wf(),
        ensures
            ({
                let t = spec_jp_cond(*old(self), mem@, cond);
                *final(self) == t.0 && mem@ == t.1 && r == t.2
            }),
    {
        let target = self.read_short_immediate(mem);
        if cond {
            self.program_counter = target;
            Ok(16)
        } else {
            Ok(12)
        }
    }

    /// A call, conditional or unconditional; the target bytes are consumed
    /// either way.
    fn call_cond(&mut self, mem: &mut Memory, cond: bool) -> (r: Result<u32, CpuError>)
        requires
            old(mem).wf(),
        ensures
            final(mem).wf(),
            ({
                let t = spec_call_cond(*old(self), old(mem)@, cond);
                *final(self) == t.0 && final(mem)@ == t.1 && r == t.2
            }),
    {
        let target = self.read_short_immediate(mem);
        if cond {
            let pc = self.program_counter;
            match self.push_short(mem, pc) {
                Ok(_) => {
                    self.program_counter = target;
                    Ok(24)
                },
                Err(e) => Err(e),
            }
        } else {
            Ok(12)
        }
    }

    /// A restart: push the program counter and jump to the fixed target.
    fn rst(&mut self, mem: &mut Memory, vector: u16) -> (r: Result<u32, CpuError>)
        requires
            old(mem).wf(),
        ensures
            final(mem).wf(),
            ({
                let t = spec_rst(*old(self), old(mem)@, vector);
                *final(self) == t.0 && final(mem)@ == t.1 && r == t.2
            }),
    {
        let pc = self.program_counter;
        match self.push_short(mem, pc) {
            Ok(_) => {
                self.program_counter = vector;
                Ok(16)
            },
            Err(e) => Err(e),
        }
    }

    fn execute_low(&mut self, mem: &mut Memory, opcode: u8, fetch_pc: u16) -> (r: Result<
        u32,
        CpuError,
    >)
        requires
            old(mem).wf(),
        ensures
            final(mem).wf(),
            ({
                let t = crate::semantics::spec_execute_low(*old(self), old(mem)@, opcode, fetch_pc);
                *final(self) == t.0 && final(mem)@ == t.1 && r == t.2
            }),
    {
        if opcode < 0x20 {
            self.execute_low0(mem, opcode, fetch_pc)
        } else {
            self.execute_low1(mem, opcode, fetch_pc)
        }
    }

    #[verifier::rlimit(100)]
    #[verifier::spinoff_prover]
    fn execute_low0(&mut self, mem: &mut Memory, opcode: u8, fetch_pc: u16) -> (r: Result<
        u32,
        CpuError,
    >)
        requires
            old(mem).wf(),
        ensures
            final(mem).wf(),
            ({
                let t = spec_execute_low0(*old(self), old(mem)@, opcode, fetch_pc);
                *final(self) == t.0 && final(mem)@ == t.1 && r == t.2
            }),
    {
        match opcode {
            0x00 => Ok(4),
            0x01 => {
                let v = self.read_short_immediate(mem);
                self.set_bc(v);
                Ok(12)
            },
            0x02 => {
                mem.write_byte(self.bc(), self.a);
                Ok(8)
            },
            0x03 => {
                let v = self.bc().wrapping_add(1);
                self.set_bc(v);
                Ok(8)
            },
            0x04 => {
                let t = add8(self.b, 1, 0);
                self.b = t.0;
                self.zero = t.0 == 0;
                self.subtract = false;
                self.half_carry = t.1;
                Ok(4)
            },
            0x05 => {
                let t = sub8(self.b, 1, 0);
                self.b = t.0;
                self.zero = t.0 == 0;
                self.subtract = true;
                self.half_carry = t.1;
                Ok(4)
            },
            0x06 => {
                self.b = self.read_byte_immediate(mem);
                Ok(8)
            },
            0x07 => {
                let cbit: u8 = if self.carry {
                    1
                } else {
                    0
                };
                let old_a = self.a;
                self.a = (old_a << 1) | cbit;
                self.zero = false;
                self.subtract = false;
                self.half_carry = false;
                self.carry = old_a & 0x80 == 0x80;
                Ok(4)
            },
            0x09 => {
                let t = add16(self.hl(), self.bc());
                self.set_hl(t.0);
                self.subtract = false;
                self.half_carry = t.1;
                self.carry = t.2;
                Ok(8)
            },
            0x0A => {
                self.a = mem.read_byte(self.bc());
                Ok(8)
            },
            0x0B => {
                let v = self.bc().wrapping_sub(1);
                self.set_bc(v);
                Ok(8)
            },
            0x0C => {
                let t = add8(self.c, 1, 0);
                self.c = t.0;
                self.zero = t.0 == 0;
                self.subtract = false;
                self.half_carry = t.1;
                Ok(4)
            },
            0x0D => {
                let t = sub8(self.c, 1, 0);
                self.c = t.0;
                self.zero = t.0 == 0;
                self.subtract = true;
                self.half_carry = t.1;
                Ok(4)
            },
            0x0E => {
                self.c = self.read_byte_immediate(mem);
                Ok(8)
            },
            0x11 => {
                let v = self.read_short_immediate(mem);
                self.set_de(v);
                Ok(12)
            },
            0x12 => {
                mem.write_byte(self.de(), self.a);
                Ok(8)
            },
            0x13 => {
                let v = self.de().wrapping_add(1);
                self.set_de(v);
                Ok(8)
            },
            0x14 => {
                let t = add8(self.d, 1, 0);
                self.d = t.0;
                self.zero = t.0 == 0;
                self.subtract = false;
                self.half_carry = t.1;
                Ok(4)
            },
            0x15 => {
                let t = sub8(self.d, 1, 0);
                self.d = t.0;
                self.zero = t.0 == 0;
                self.subtract = true;
                self.half_carry = t.1;
                Ok(4)
            },
            0x16 => {
                self.d = self.read_byte_immediate(mem);
                Ok(8)
            },
            0x18 => {
                let off = self.read_byte_immediate(mem);
                self.program_counter = jump_rel(self.program_counter, off);
                Ok(12)
            },
            0x19 => {
                let t = add16(self.hl(), self.de());
                self.set_hl(t.0);
                self.subtract = false;
                self.half_carry = t.1;
                self.carry = t.2;
                Ok(8)
            },
            0x1A => {
                self.a = mem.read_byte(self.de());
                Ok(8)
            },
            0x1B => {
                let v = self.de().wrapping_sub(1);
                self.set_de(v);
                Ok(8)
            },
            0x1C => {
                let t = add8(self.e, 1, 0);
                self.e = t.0;
                self.zero = t.0 == 0;
                self.subtract = false;
                self.half_carry = t.1;
                Ok(4)
            },
            0x1D => {
                let t = sub8(self.e, 1, 0);
                self.e = t.0;
                self.zero = t.0 == 0;
                self.subtract = true;
                self.half_carry = t.1;
                Ok(4)
            },
            0x1E => {
                self.e = self.read_byte_immediate(mem);
                Ok(8)
            },
            _ => Err(CpuError::UnsupportedOpcode { opcode, program_counter: fetch_pc }),
        }
    }

    #[verifier::rlimit(100)]
    #[verifier::spinoff_prover]
    fn execute_low1(&mut self, mem: &mut Memory, opcode: u8, fetch_pc: u16) -> (r: Result<
        u32,
        CpuError,
    >)
        requires
            old(mem).wf(),
        ensures
            final(mem).wf(),
            ({
                let t = spec_execute_low1(*old(self), old(mem)@, opcode, fetch_pc);
                *final(self) == t.0 && final(mem)@ == t.1 && r == t.2
            }),
    {
        match opcode {
            0x20 => {
                let off = self.read_byte_immediate(mem);
                if !self.zero {
                    self.program_counter = jump_rel(self.program_counter, off);
                    Ok(12)
                } else {
                    Ok(8)
                }
            },
            0x21 => {
                let v = self.read_short_immediate(mem);
                self.set_hl(v);
                Ok(12)
            },
            0x22 => {
                mem.write_byte(self.hl(), self.a);
                let v = self.hl().wrapping_add(1);
                self.set_hl(v);
                Ok(8)
            },
            0x23 => {
                let v = self.hl().wrapping_add(1);
                self.set_hl(v);
                Ok(8)
            },
            0x24 => {
                let t = add8(self.h, 1, 0);
                self.h = t.0;
                self.zero = t.0 == 0;
                self.subtract = false;
                self.half_carry = t.1;
                Ok(4)
            },
            0x25 => {
                let t = sub8(self.h, 1, 0);
                self.h = t.0;
                self.zero = t.0 == 0;
                self.subtract = true;
                self.half_carry = t.1;
                Ok(4)
            },
            0x26 => {
                self.h = self.read_byte_immediate(mem);
                Ok(8)
            },
            0x28 => {
                let off = self.read_byte_immediate(mem);
                if self.zero {
                    self.program_counter = jump_rel(self.program_counter, off);
                    Ok(12)
                } else {
                    Ok(8)
                }
            },
            0x29 => {
                let t = add16(self.hl(), self.hl());
                self.set_hl(t.0);
                self.subtract = false;
                self.half_carry = t.1;
                self.carry = t.2;
                Ok(8)
            },
            0x2A => {
                self.a = mem.read_byte(self.hl());
                let v = self.hl().wrapping_add(1);
                self.set_hl(v);
                Ok(8)
            },
            0x2B => {
                let v = self.hl().wrapping_sub(1);
                self.set_hl(v);
                Ok(8)
            },
            0x2C => {
                let t = add8(self.l, 1, 0);
                self.l = t.0;
                self.zero = t.0 == 0;
                self.subtract = false;
                self.half_carry = t.1;
                Ok(4)
            },
            0x2D => {
                let t = sub8(self.l, 1, 0);
                self.l = t.0;
                self.zero = t.0 == 0;
                self.subtract = true;
                self.half_carry = t.1;
                Ok(4)
            },
            0x2E => {
                self.l = self.read_byte_immediate(mem);
                Ok(8)
            },
            0x2F => {
                self.a = !self.a;
                self.subtract = true;
                self.half_carry = true;
                Ok(4)
            },
            0x30 => {
                let off = self.read_byte_immediate(mem);
                if !self.carry {
                    self.program_counter = jump_rel(self.program_counter, off);
                    Ok(12)
                } else {
                    Ok(8)
                }
            },
            0x31 => {
                let v = self.read_short_immediate(mem);
                self.stack_pointer = v;
                Ok(12)
            },
            0x32 => {
                mem.write_byte(self.hl(), self.a);
                let v = self.hl().wrapping_sub(1);
                self.set_hl(v);
                Ok(8)
            },
            0x33 => {
                self.stack_pointer = self.stack_pointer.wrapping_add(1);
                Ok(8)
            },
            0x34 => {
                let addr = self.hl();
                let t = add8(mem.read_byte(addr), 1, 0);
                mem.write_byte(addr, t.0);
                self.zero = t.0 == 0;
                self.subtract = false;
                self.half_carry = t.1;
                Ok(12)
            },
            0x35 => {
                let addr = self.hl();
                let t = sub8(mem.read_byte(addr), 1, 0);
                mem.write_byte(addr, t.0);
                self.zero = t.0 == 0;
                self.subtract = true;
                self.half_carry = t.1;
                Ok(12)
            },
            0x36 => {
                let v = self.read_byte_immediate(mem);
                mem.write_byte(self.hl(), v);
                Ok(12)
            },
            0x38 => {
                let off = self.read_byte_immediate(mem);
                if self.carry {
                    self.program_counter = jump_rel(self.program_counter, off);
                    Ok(12)
                } else {
                    Ok(8)
                }
            },
            0x39 => {
                let t = add16(self.hl(), self.stack_pointer);
                self.set_hl(t.0);
                self.subtract = false;
                self.half_carry = t.1;
                self.carry = t.2;
                Ok(8)
            },
            0x3A => {
                self.a = mem.read_byte(self.hl());
                let v = self.hl().wrapping_sub(1);
                self.set_hl(v);
                Ok(8)
            },
            0x3B => {
                self.stack_pointer = self.stack_pointer.wrapping_sub(1);
                Ok(8)
            },
            0x3C => {
                let t = add8(self.a, 1, 0);
                self.a = t.0;
                self.zero = t.0 == 0;
                self.subtract = false;
                self.half_carry = t.1;
                Ok(4)
            },
            0x3D => {
                let t = sub8(self.a, 1, 0);
                self.a = t.0;
                self.zero = t.0 == 0;
                self.subtract = true;
                self.half_carry = t.1;
                Ok(4)
            },
            0x3E => {
                self.a = self.read_byte_immediate(mem);
                Ok(8)
            },
            _ => Err(CpuError::UnsupportedOpcode { opcode, program_counter: fetch_pc }),
        }
    }

    /// The load quarter: destination and source named by the opcode's two
    /// selector fields; the halt slot is not implemented.
    fn execute_load(&mut self, mem: &mut Memory, opcode: u8, fetch_pc: u16) -> (r: Result<
        u32,
        CpuError,
    >)
        requires
            old(mem).wf(),
        ensures
            final(mem).wf(),
            ({
                let t = spec_execute_load(*old(self), old(mem)@, opcode, fetch_pc);
                *final(self) == t.0 && final(mem)@ == t.1 && r == t.2
            }),
    {
        if opcode == 0x76 {
            Err(CpuError::UnsupportedOpcode { opcode, program_counter: fetch_pc })
        } else {
            let src = opcode % 8;
            let dst = (opcode / 8) % 8;
            let v = self.read_reg8(mem, src);
            if dst == 6 {
                mem.write_byte(self.hl(), v);
                Ok(8)
            } else {
                self.write_reg8(dst, v);
                if src == 6 {
                    Ok(8)
                } else {
                    Ok(4)
                }
            }
        }
    }

    /// The arithmetic quarter: operation group and operand named by the
    /// opcode's selector fields.
    fn execute_alu(&mut self, mem: &mut Memory, opcode: u8, fetch_pc: u16) -> (r: Result<
        u32,
        CpuError,
    >)
        requires
            old(mem).wf(),
        ensures
            final(mem).wf(),
            ({
                let t = spec_execute_alu(*old(self), old(mem)@, opcode, fetch_pc);
                *final(self) == t.0 && final(mem)@ == t.1 && r == t.2
            }),
    {
        let k = opcode % 8;
        let group = (opcode / 8) % 8;
        let v = self.read_reg8(mem, k);
        self.apply_alu(group, v);
        if k == 6 {
            Ok(8)
        } else {
            Ok(4)
        }
    }

    #[verifier::rlimit(100)]
    #[verifier::spinoff_prover]
    fn execute_control(&mut self, mem: &mut Memory, opcode: u8, fetch_pc: u16) -> (r: Result<
        u32,
        CpuError,
    >)
        requires
            old(mem).wf(),
        ensures
            final(mem).wf(),
            ({
                let t = spec_execute_control(*old(self), old(mem)@, opcode, fetch_pc);
                *final(self) == t.0 && final(mem)@ == t.1 && r == t.2
            }),
    {
        match opcode {
            0xC0 => {
                let z = self.zero;
                self.ret_cond(mem, !z)
            },
            0xC1 => {
                match self.pop_short(mem) {
                    Ok(v) => {
                        self.set_bc(v);
                        Ok(12)
                    },
                    Err(e) => Err(e),
                }
            },
            0xC2 => {
                let z = self.zero;
                self.jp_cond(mem, !z)
            },
            0xC3 => {
                self.program_counter = mem.read_short(self.program_counter);
                Ok(16)
            },
            0xC4 => {
                let z = self.zero;
                self.call_cond(mem, !z)
            },
            0xC5 => {
                let v = self.bc();
                match self.push_short(mem, v) {
                    Ok(_) => Ok(16),
                    Err(e) => Err(e),
                }
            },
            0xC6 => self.alu_imm(mem, 0),
            0xC7 => self.rst(mem, 0x0000),
            0xC8 => {
                let z = self.zero;
                self.ret_cond(mem, z)
            },
            0xC9 => {
                match self.pop_short(mem) {
                    Ok(v) => {
                        self.program_counter = v;
                        Ok(16)
                    },
                    Err(e) => Err(e),
                }
            },
            0xCA => {
                let z = self.zero;
                self.jp_cond(mem, z)
            },
            0xCB => {
                let sub = self.read_byte_immediate(mem);
                if 0x30 <= sub && sub <= 0x37 {
                    let k = sub % 8;
                    let v = self.read_reg8(mem, k);
                    let r = (v << 4) | (v >> 4);
                    self.zero = r == 0;
                    self.subtract = false;
                    self.half_carry = false;
                    self.carry = false;
                    if k == 6 {
                        mem.write_byte(self.hl(), r);
                        Ok(16)
                    } else {
                        self.write_reg8(k, r);
                        Ok(8)
                    }
                } else {
                    Err(CpuError::UnsupportedOpcode { opcode: sub, program_counter: fetch_pc })
                }
            },
            0xCC => {
                let z = self.zero;
                self.call_cond(mem, z)
            },
            0xCD => self.call_cond(mem, true),
            0xCE => self.alu_imm(mem, 1),
            0xCF => self.rst(mem, 0x0008),
            0xD0 => {
                let c = self.carry;
                self.ret_cond(mem, !c)
            },
            0xD1 => {
                match self.pop_short(mem) {
                    Ok(v) => {
                        self.set_de(v);
                        Ok(12)
                    },
                    Err(e) => Err(e),
                }
            },
            0xD2 => {
                let c = self.carry;
                self.jp_cond(mem, !c)
            },
            0xD4 => {
                let c = self.carry;
                self.call_cond(mem, !c)
            },
            0xD5 => {
                let v = self.de();
                match self.push_short(mem, v) {
                    Ok(_) => Ok(16),
                    Err(e) => Err(e),
                }
            },
            0xD6 => self.alu_imm(mem, 2),
            0xD7 => self.rst(mem, 0x0010),
            0xD8 => {
                let c = self.carry;
                self.ret_cond(mem, c)
            },
            0xDA => {
                let c = self.carry;
                self.jp_cond(mem, c)
            },
            0xDC => {
                let c = self.carry;
                self.call_cond(mem, c)
            },
            0xDE => self.alu_imm(mem, 3),
            0xDF => self.rst(mem, 0x0018),
            0xE0 => {
                let off = self.read_byte_immediate(mem);
                mem.write_byte(0xFF00 + off as u16, self.a);
                Ok(12)
            },
            0xE1 => {
                match self.pop_short(mem) {
                    Ok(v) => {
                        self.set_hl(v);
                        Ok(12)
                    },
                    Err(e) => Err(e),
                }
            },
            0xE2 => {
                mem.write_byte(0xFF00 + self.c as u16, self.a);
                Ok(8)
            },
            0xE5 => {
                let v = self.hl();
                match self.push_short(mem, v) {
                    Ok(_) => Ok(16),
                    Err(e) => Err(e),
                }
            },
            0xE6 => self.alu_imm(mem, 4),
            0xE7 => self.rst(mem, 0x0020),
            0xE9 => {
                self.program_counter = self.hl();
                Ok(4)
            },
            0xEA => {
                let addr = self.read_short_immediate(mem);
                mem.write_byte(addr, self.a);
                Ok(16)
            },
            0xEE => self.alu_imm(mem, 5),
            0xEF => self.rst(mem, 0x0028),
            0xF0 => {
                let off = self.read_byte_immediate(mem);
                self.a = mem.read_byte(0xFF00 + off as u16);
                Ok(12)
            },
            0xF1 => {
                match self.pop_short(mem) {
                    Ok(v) => {
                        self.set_af(v);
                        Ok(12)
                    },
                    Err(e) => Err(e),
                }
            },
            0xF2 => {
                self.a = mem.read_byte(0xFF00 + self.c as u16);
                Ok(8)
            },
            0xF3 => {
                self.ime = false;
                Ok(4)
            },
            0xF5 => {
                let v = self.af();
                match self.push_short(mem, v) {
                    Ok(_) => Ok(16),
                    Err(e) => Err(e),
                }
            },
            0xF6 => self.alu_imm(mem, 6),
            0xF7 => self.rst(mem, 0x0030),
            0xF9 => {
                self.stack_pointer = self.hl();
                Ok(8)
            },
            0xFA => {
                let addr = self.read_short_immediate(mem);
                self.a = mem.read_byte(addr);
                Ok(16)
            },
            0xFB => {
                self.enable_interrupts_pending = true;
                Ok(4)
            },
            0xFE => self.alu_imm(mem, 7),
            0xFF => self.rst(mem, 0x0038),
            _ => Err(CpuError::UnsupportedOpcode { opcode, program_counter: fetch_pc }),
        }
    }
}

} // verus!

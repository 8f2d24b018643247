//! The mathematical model of one machine step. `spec_step` maps a machine
//! state (registers plus bus contents) to the exact state after one step:
//! either an interrupt dispatch, or the fetch, decode and execution of one
//! instruction. The interpreter in `executor` is proved to agree with this
//! model on every input.
//!
//! Table coverage: the primary opcodes this core implements, plus the
//! one extended (escape-prefixed) opcode; any other byte is an
//! `UnsupportedOpcode` fault carrying the byte and the fetch address.

use vstd::prelude::*;
use crate::alu::{spec_add16, spec_add8, spec_sub8};
use crate::fault::CpuError;
use crate::interrupts::{
    int_mask, int_vector, spec_pending, IE_ADDR, IF_ADDR, INTERRUPT_DISPATCH_CYCLES,
};
use crate::memory::{mem_read, mem_read16, mem_write};
use crate::registers::{bit_if, hi8, lo8, spec_bc, spec_de, spec_hl, spec_flags_byte, Cpu};
use crate::stack::{bump_pc, spec_pop16, spec_push16};

verus! {

/// Signed relative-jump target: `pc` plus the two's-complement offset,
/// wrapping within the 16-bit space.
pub open spec fn jr_target(pc: u16, off: u8) -> u16 {
    pc.wrapping_add_signed(off_i16(off))
}

/// A byte reinterpreted as a two's-complement 16-bit offset.
pub open spec fn off_i16(b: u8) -> i16 {
    if b < 128 {
        b as i16
    } else {
        (b - 256) as i16
    }
}

/// Folds a stack fault into an instruction's result: the documented cycle
/// cost on success, the fault otherwise.
pub open spec fn cycles_or_err(r: Result<(), CpuError>, cycles: u32) -> Result<u32, CpuError> {
    match r {
        Ok(_) => Ok(cycles),
        Err(e) => Err(e),
    }
}

/// The interrupt the step dispatches, if any: the master enable must be on
/// and a source both pending and enabled; the highest-priority such source
/// wins.
pub open spec fn spec_interrupt_take(cpu: Cpu, mem: Seq<u8>) -> Option<u8> {
    if cpu.ime {
        spec_pending(mem_read(mem, IF_ADDR), mem_read(mem, IE_ADDR))
    } else {
        None
    }
}

/// Interrupt dispatch: clear the source's pending bit, drop the master
/// enable, push the program counter and jump to the source's vector, at the
/// fixed dispatch cost. A strict-mode stack fault surfaces with the push's
/// partial effects preserved.
pub open spec fn spec_dispatch_interrupt(cpu: Cpu, mem: Seq<u8>, k: u8) -> (Cpu, Seq<u8>, Result<
    u32,
    CpuError,
>) {
    let iflag = mem_read(mem, IF_ADDR);
    let mem1 = mem_write(mem, IF_ADDR, iflag & !int_mask(k));
    let cpu1 = Cpu { ime: false, ..cpu };
    let t = spec_push16(cpu1, mem1, cpu.program_counter);
    match t.2 {
        Ok(_) => (Cpu { program_counter: int_vector(k), ..t.0 }, t.1, Ok(
            INTERRUPT_DISPATCH_CYCLES,
        )),
        Err(e) => (t.0, t.1, Err(e)),
    }
}

/// One whole step: interrupt dispatch if one is taken; otherwise the
/// delayed interrupt-enable latch is consumed (this is what realizes the
/// enable instruction's one-instruction delay), then one opcode is fetched,
/// the program counter advances past it, and the opcode executes.
pub open spec fn spec_step(cpu: Cpu, mem: Seq<u8>) -> (Cpu, Seq<u8>, Result<u32, CpuError>) {
    match spec_interrupt_take(cpu, mem) {
        Some(k) => spec_dispatch_interrupt(cpu, mem, k),
        None => {
            let cpu1 = if cpu.enable_interrupts_pending {
                Cpu { ime: true, enable_interrupts_pending: false, ..cpu }
            } else {
                cpu
            };
            let fetch_pc = cpu1.program_counter;
            let opcode = mem_read(mem, fetch_pc);
            spec_execute(bump_pc(cpu1, 1), mem, opcode, fetch_pc)
        },
    }
}

/// Executes one fetched opcode; the program counter in `cpu` is already
/// past the opcode byte and `fetch_pc` is where it was fetched.
pub open spec fn spec_execute(cpu: Cpu, mem: Seq<u8>, opcode: u8, fetch_pc: u16) -> (
    Cpu,
    Seq<u8>,
    Result<u32, CpuError>,
) {
    if opcode < 0x40 {
        spec_execute_low(cpu, mem, opcode, fetch_pc)
    } else if opcode < 0x80 {
        spec_execute_load(cpu, mem, opcode, fetch_pc)
    } else if opcode < 0xC0 {
        spec_execute_alu(cpu, mem, opcode, fetch_pc)
    } else {
        spec_execute_control(cpu, mem, opcode, fetch_pc)
    }
}

/// Loads, increments/decrements, rotates, relative jumps and the other
/// instructions of the first quarter of the primary table.
pub open spec fn spec_execute_low(cpu: Cpu, mem: Seq<u8>, opcode: u8, fetch_pc: u16) -> (
    Cpu,
    Seq<u8>,
    Result<u32, CpuError>,
) {
    if opcode < 0x20 {
        spec_execute_low0(cpu, mem, opcode, fetch_pc)
    } else {
        spec_execute_low1(cpu, mem, opcode, fetch_pc)
    }
}

/// The first eighth of the primary table.
pub open spec fn spec_execute_low0(cpu: Cpu, mem: Seq<u8>, opcode: u8, fetch_pc: u16) -> (
    Cpu,
    Seq<u8>,
    Result<u32, CpuError>,
) {
    match opcode {
        0x00 => (cpu, mem, Ok(4)),
        0x01 => {
            let v = mem_read16(mem, cpu.program_counter);
            (Cpu { b: hi8(v), c: lo8(v), ..bump_pc(cpu, 2) }, mem, Ok(12))
        },
        0x02 => (cpu, mem_write(mem, spec_bc(cpu), cpu.a), Ok(8)),
        0x03 => {
            let v = spec_bc(cpu).wrapping_add(1);
            (Cpu { b: hi8(v), c: lo8(v), ..cpu }, mem, Ok(8))
        },
        0x04 => {
            let t = spec_add8(cpu.b, 1, 0);
            (Cpu { b: t.0, zero: t.0 == 0, subtract: false, half_carry: t.1, ..cpu }, mem, Ok(4))
        },
        0x05 => {
            let t = spec_sub8(cpu.b, 1, 0);
            (Cpu { b: t.0, zero: t.0 == 0, subtract: true, half_carry: t.1, ..cpu }, mem, Ok(4))
        },
        0x06 => (Cpu { b: mem_read(mem, cpu.program_counter), ..bump_pc(cpu, 1) }, mem, Ok(8)),
        0x07 => (
            Cpu {
                a: (cpu.a << 1) | bit_if(cpu.carry, 1),
                zero: false,
                subtract: false,
                half_carry: false,
                carry: cpu.a & 0x80 == 0x80,
                ..cpu
            },
            mem,
            Ok(4),
        ),
        0x09 => {
            let t = spec_add16(spec_hl(cpu), spec_bc(cpu));
            (
                Cpu {
                    h: hi8(t.0),
                    l: lo8(t.0),
                    subtract: false,
                    half_carry: t.1,
                    carry: t.2,
                    ..cpu
                },
                mem,
                Ok(8),
            )
        },
        0x0A => (Cpu { a: mem_read(mem, spec_bc(cpu)), ..cpu }, mem, Ok(8)),
        0x0B => {
            let v = spec_bc(cpu).wrapping_sub(1);
            (Cpu { b: hi8(v), c: lo8(v), ..cpu }, mem, Ok(8))
        },
        0x0C => {
            let t = spec_add8(cpu.c, 1, 0);
            (Cpu { c: t.0, zero: t.0 == 0, subtract: false, half_carry: t.1, ..cpu }, mem, Ok(4))
        },
        0x0D => {
            let t = spec_sub8(cpu.c, 1, 0);
            (Cpu { c: t.0, zero: t.0 == 0, subtract: true, half_carry: t.1, ..cpu }, mem, Ok(4))
        },
        0x0E => (Cpu { c: mem_read(mem, cpu.program_counter), ..bump_pc(cpu, 1) }, mem, Ok(8)),
        0x11 => {
            let v = mem_read16(mem, cpu.program_counter);
            (Cpu { d: hi8(v), e: lo8(v), ..bump_pc(cpu, 2) }, mem, Ok(12))
        },
        0x12 => (cpu, mem_write(mem, spec_de(cpu), cpu.a), Ok(8)),
        0x13 => {
            let v = spec_de(cpu).wrapping_add(1);
            (Cpu { d: hi8(v), e: lo8(v), ..cpu }, mem, Ok(8))
        },
        0x14 => {
            let t = spec_add8(cpu.d, 1, 0);
            (Cpu { d: t.0, zero: t.0 == 0, subtract: false, half_carry: t.1, ..cpu }, mem, Ok(4))
        },
        0x15 => {
            let t = spec_sub8(cpu.d, 1, 0);
            (Cpu { d: t.0, zero: t.0 == 0, subtract: true, half_carry: t.1, ..cpu }, mem, Ok(4))
        },
        0x16 => (Cpu { d: mem_read(mem, cpu.program_counter), ..bump_pc(cpu, 1) }, mem, Ok(8)),
        0x18 => {
            let off = mem_read(mem, cpu.program_counter);
            let cpu1 = bump_pc(cpu, 1);
            (Cpu { program_counter: jr_target(cpu1.program_counter, off), ..cpu1 }, mem, Ok(12))
        },
        0x19 => {
            let t = spec_add16(spec_hl(cpu), spec_de(cpu));
            (
                Cpu {
                    h: hi8(t.0),
                    l: lo8(t.0),
                    subtract: false,
                    half_carry: t.1,
                    carry: t.2,
                    ..cpu
                },
                mem,
                Ok(8),
            )
        },
        0x1A => (Cpu { a: mem_read(mem, spec_de(cpu)), ..cpu }, mem, Ok(8)),
        0x1B => {
            let v = spec_de(cpu).wrapping_sub(1);
            (Cpu { d: hi8(v), e: lo8(v), ..cpu }, mem, Ok(8))
        },
        0x1C => {
            let t = spec_add8(cpu.e, 1, 0);
            (Cpu { e: t.0, zero: t.0 == 0, subtract: false, half_carry: t.1, ..cpu }, mem, Ok(4))
        },
        0x1D => {
            let t = spec_sub8(cpu.e, 1, 0);
            (Cpu { e: t.0, zero: t.0 == 0, subtract: true, half_carry: t.1, ..cpu }, mem, Ok(4))
        },
        0x1E => (Cpu { e: mem_read(mem, cpu.program_counter), ..bump_pc(cpu, 1) }, mem, Ok(8)),
        _ => (cpu, mem, Err(CpuError::UnsupportedOpcode { opcode, program_counter: fetch_pc })),
    }
}

/// The second eighth of the primary table.
pub open spec fn spec_execute_low1(cpu: Cpu, mem: Seq<u8>, opcode: u8, fetch_pc: u16) -> (
    Cpu,
    Seq<u8>,
    Result<u32, CpuError>,
) {
    match opcode {
        0x20 => {
            let off = mem_read(mem, cpu.program_counter);
            let cpu1 = bump_pc(cpu, 1);
            if !cpu.zero {
                (Cpu { program_counter: jr_target(cpu1.program_counter, off), ..cpu1 }, mem, Ok(12))
            } else {
                (cpu1, mem, Ok(8))
            }
        },
        0x21 => {
            let v = mem_read16(mem, cpu.program_counter);
            (Cpu { h: hi8(v), l: lo8(v), ..bump_pc(cpu, 2) }, mem, Ok(12))
        },
        0x22 => {
            let v = spec_hl(cpu).wrapping_add(1);
            (Cpu { h: hi8(v), l: lo8(v), ..cpu }, mem_write(mem, spec_hl(cpu), cpu.a), Ok(8))
        },
        0x23 => {
            let v = spec_hl(cpu).wrapping_add(1);
            (Cpu { h: hi8(v), l: lo8(v), ..cpu }, mem, Ok(8))
        },
        0x24 => {
            let t = spec_add8(cpu.h, 1, 0);
            (Cpu { h: t.0, zero: t.0 == 0, subtract: false, half_carry: t.1, ..cpu }, mem, Ok(4))
        },
        0x25 => {
            let t = spec_sub8(cpu.h, 1, 0);
            (Cpu { h: t.0, zero: t.0 == 0, subtract: true, half_carry: t.1, ..cpu }, mem, Ok(4))
        },
        0x26 => (Cpu { h: mem_read(mem, cpu.program_counter), ..bump_pc(cpu, 1) }, mem, Ok(8)),
        0x28 => {
            let off = mem_read(mem, cpu.program_counter);
            let cpu1 = bump_pc(cpu, 1);
            if cpu.zero {
                (Cpu { program_counter: jr_target(cpu1.program_counter, off), ..cpu1 }, mem, Ok(12))
            } else {
                (cpu1, mem, Ok(8))
            }
        },
        0x2A => {
            let v = spec_hl(cpu).wrapping_add(1);
            (Cpu { a: mem_read(mem, spec_hl(cpu)), h: hi8(v), l: lo8(v), ..cpu }, mem, Ok(8))
        },
        0x29 => {
            let t = spec_add16(spec_hl(cpu), spec_hl(cpu));
            (
                Cpu {
                    h: hi8(t.0),
                    l: lo8(t.0),
                    subtract: false,
                    half_carry: t.1,
                    carry: t.2,
                    ..cpu
                },
                mem,
                Ok(8),
            )
        },
        0x2B => {
            let v = spec_hl(cpu).wrapping_sub(1);
            (Cpu { h: hi8(v), l: lo8(v), ..cpu }, mem, Ok(8))
        },
        0x2C => {
            let t = spec_add8(cpu.l, 1, 0);
            (Cpu { l: t.0, zero: t.0 == 0, subtract: false, half_carry: t.1, ..cpu }, mem, Ok(4))
        },
        0x2D => {
            let t = spec_sub8(cpu.l, 1, 0);
            (Cpu { l: t.0, zero: t.0 == 0, subtract: true, half_carry: t.1, ..cpu }, mem, Ok(4))
        },
        0x2F => (Cpu { a: !cpu.a, subtract: true, half_carry: true, ..cpu }, mem, Ok(4)),
        0x2E => (Cpu { l: mem_read(mem, cpu.program_counter), ..bump_pc(cpu, 1) }, mem, Ok(8)),
        0x30 => {
            let off = mem_read(mem, cpu.program_counter);
            let cpu1 = bump_pc(cpu, 1);
            if !cpu.carry {
                (Cpu { program_counter: jr_target(cpu1.program_counter, off), ..cpu1 }, mem, Ok(12))
            } else {
                (cpu1, mem, Ok(8))
            }
        },
        0x31 => {
            let v = mem_read16(mem, cpu.program_counter);
            (Cpu { stack_pointer: v, ..bump_pc(cpu, 2) }, mem, Ok(12))
        },
        0x32 => {
            let v = spec_hl(cpu).wrapping_sub(1);
            (Cpu { h: hi8(v), l: lo8(v), ..cpu }, mem_write(mem, spec_hl(cpu), cpu.a), Ok(8))
        },
        0x33 => (Cpu { stack_pointer: cpu.stack_pointer.wrapping_add(1), ..cpu }, mem, Ok(8)),
        0x34 => {
            let t = spec_add8(mem_read(mem, spec_hl(cpu)), 1, 0);
            (
                Cpu { zero: t.0 == 0, subtract: false, half_carry: t.1, ..cpu },
                mem_write(mem, spec_hl(cpu), t.0),
                Ok(12),
            )
        },
        0x35 => {
            let t = spec_sub8(mem_read(mem, spec_hl(cpu)), 1, 0);
            (
                Cpu { zero: t.0 == 0, subtract: true, half_carry: t.1, ..cpu },
                mem_write(mem, spec_hl(cpu), t.0),
                Ok(12),
            )
        },
        0x36 => {
            let v = mem_read(mem, cpu.program_counter);
            (bump_pc(cpu, 1), mem_write(mem, spec_hl(cpu), v), Ok(12))
        },
        0x38 => {
            let off = mem_read(mem, cpu.program_counter);
            let cpu1 = bump_pc(cpu, 1);
            if cpu.carry {
                (Cpu { program_counter: jr_target(cpu1.program_counter, off), ..cpu1 }, mem, Ok(12))
            } else {
                (cpu1, mem, Ok(8))
            }
        },
        0x39 => {
            let t = spec_add16(spec_hl(cpu), cpu.stack_pointer);
            (
                Cpu {
                    h: hi8(t.0),
                    l: lo8(t.0),
                    subtract: false,
                    half_carry: t.1,
                    carry: t.2,
                    ..cpu
                },
                mem,
                Ok(8),
            )
        },
        0x3A => {
            let v = spec_hl(cpu).wrapping_sub(1);
            (Cpu { a: mem_read(mem, spec_hl(cpu)), h: hi8(v), l: lo8(v), ..cpu }, mem, Ok(8))
        },
        0x3B => (Cpu { stack_pointer: cpu.stack_pointer.wrapping_sub(1), ..cpu }, mem, Ok(8)),
        0x3C => {
            let t = spec_add8(cpu.a, 1, 0);
            (Cpu { a: t.0, zero: t.0 == 0, subtract: false, half_carry: t.1, ..cpu }, mem, Ok(4))
        },
        0x3D => {
            let t = spec_sub8(cpu.a, 1, 0);
            (Cpu { a: t.0, zero: t.0 == 0, subtract: true, half_carry: t.1, ..cpu }, mem, Ok(4))
        },
        0x3E => (Cpu { a: mem_read(mem, cpu.program_counter), ..bump_pc(cpu, 1) }, mem, Ok(8)),
        _ => (cpu, mem, Err(CpuError::UnsupportedOpcode { opcode, program_counter: fetch_pc })),
    }
}

/// The 8-bit operand a three-bit selector names: the six plain registers,
/// the byte behind the HL pair, or the accumulator — the layout both the
/// load and arithmetic quarters of the table share.
pub open spec fn reg8_operand(cpu: Cpu, mem: Seq<u8>, k: u8) -> u8 {
    if k == 0 {
        cpu.b
    } else if k == 1 {
        cpu.c
    } else if k == 2 {
        cpu.d
    } else if k == 3 {
        cpu.e
    } else if k == 4 {
        cpu.h
    } else if k == 5 {
        cpu.l
    } else if k == 6 {
        mem_read(mem, spec_hl(cpu))
    } else {
        cpu.a
    }
}

/// The machine state with the selected plain register replaced (the
/// memory-operand selector is handled by the caller, which writes the bus).
pub open spec fn with_reg8(cpu: Cpu, k: u8, v: u8) -> Cpu {
    if k == 0 {
        Cpu { b: v, ..cpu }
    } else if k == 1 {
        Cpu { c: v, ..cpu }
    } else if k == 2 {
        Cpu { d: v, ..cpu }
    } else if k == 3 {
        Cpu { e: v, ..cpu }
    } else if k == 4 {
        Cpu { h: v, ..cpu }
    } else if k == 5 {
        Cpu { l: v, ..cpu }
    } else {
        Cpu { a: v, ..cpu }
    }
}

/// One accumulator operation of the arithmetic quarter, selected by its
/// three-bit group: add, add-with-carry, subtract, subtract-with-borrow,
/// and, exclusive-or, or, compare. Each writes the accumulator (compare
/// excepted) and sets all four flags by its documented rule.
pub open spec fn spec_alu_op(cpu: Cpu, group: u8, v: u8) -> Cpu {
    if group == 0 {
        let t = spec_add8(cpu.a, v, 0);
        Cpu { a: t.0, zero: t.0 == 0, subtract: false, half_carry: t.1, carry: t.2, ..cpu }
    } else if group == 1 {
        let t = spec_add8(cpu.a, v, bit_if(cpu.carry, 1));
        Cpu { a: t.0, zero: t.0 == 0, subtract: false, half_carry: t.1, carry: t.2, ..cpu }
    } else if group == 2 {
        let t = spec_sub8(cpu.a, v, 0);
        Cpu { a: t.0, zero: t.0 == 0, subtract: true, half_carry: t.1, carry: t.2, ..cpu }
    } else if group == 3 {
        let t = spec_sub8(cpu.a, v, bit_if(cpu.carry, 1));
        Cpu { a: t.0, zero: t.0 == 0, subtract: true, half_carry: t.1, carry: t.2, ..cpu }
    } else if group == 4 {
        let r = cpu.a & v;
        Cpu { a: r, zero: r == 0, subtract: false, half_carry: true, carry: false, ..cpu }
    } else if group == 5 {
        let r = cpu.a ^ v;
        Cpu { a: r, zero: r == 0, subtract: false, half_carry: false, carry: false, ..cpu }
    } else if group == 6 {
        let r = cpu.a | v;
        Cpu { a: r, zero: r == 0, subtract: false, half_carry: false, carry: false, ..cpu }
    } else {
        let t = spec_sub8(cpu.a, v, 0);
        Cpu { zero: t.0 == 0, subtract: true, half_carry: t.1, carry: t.2, ..cpu }
    }
}

/// The load quarter of the primary table: destination and source are named
/// by the opcode's two selector fields. The one hole is the halt
/// instruction's slot, which this core does not implement.
pub open spec fn spec_execute_load(cpu: Cpu, mem: Seq<u8>, opcode: u8, fetch_pc: u16) -> (
    Cpu,
    Seq<u8>,
    Result<u32, CpuError>,
) {
    if opcode == 0x76 {
        (cpu, mem, Err(CpuError::UnsupportedOpcode { opcode, program_counter: fetch_pc }))
    } else {
        let src = opcode % 8;
        let dst = (opcode / 8) % 8;
        let v = reg8_operand(cpu, mem, src);
        if dst == 6 {
            (cpu, mem_write(mem, spec_hl(cpu), v), Ok(8))
        } else {
            (
                with_reg8(cpu, dst, v),
                mem,
                Ok(
                    if src == 6 {
                        8
                    } else {
                        4
                    },
                ),
            )
        }
    }
}

/// The arithmetic quarter of the primary table: the opcode's selector
/// fields name the operation group and the operand; the memory operand
/// costs twice a register operand.
pub open spec fn spec_execute_alu(cpu: Cpu, mem: Seq<u8>, opcode: u8, fetch_pc: u16) -> (
    Cpu,
    Seq<u8>,
    Result<u32, CpuError>,
) {
    let k = opcode % 8;
    let group = (opcode / 8) % 8;
    let v = reg8_operand(cpu, mem, k);
    (
        spec_alu_op(cpu, group, v),
        mem,
        Ok(
            if k == 6 {
                8
            } else {
                4
            },
        ),
    )
}

/// A conditional (or unconditional) return: pop the program counter only
/// when the tested flag matches.
pub open spec fn spec_ret_cond(cpu: Cpu, mem: Seq<u8>, cond: bool) -> (Cpu, Seq<u8>, Result<
    u32,
    CpuError,
>) {
    if cond {
        let t = spec_pop16(cpu, mem);
        match t.2 {
            Ok(_) => (Cpu { program_counter: t.1, ..t.0 }, mem, Ok(20)),
            Err(e) => (t.0, mem, Err(e)),
        }
    } else {
        (cpu, mem, Ok(8))
    }
}

/// A conditional absolute jump: the two target bytes are consumed either
/// way; the jump lands only when the tested flag matches.
pub open spec fn spec_jp_cond(cpu: Cpu, mem: Seq<u8>, cond: bool) -> (Cpu, Seq<u8>, Result<
    u32,
    CpuError,
>) {
    let target = mem_read16(mem, cpu.program_counter);
    let cpu1 = bump_pc(cpu, 2);
    if cond {
        (Cpu { program_counter: target, ..cpu1 }, mem, Ok(16))
    } else {
        (cpu1, mem, Ok(12))
    }
}

/// A call: the two target bytes are consumed either way; when the tested
/// flag matches the return address (past the operand) is pushed and the
/// jump lands.
pub open spec fn spec_call_cond(cpu: Cpu, mem: Seq<u8>, cond: bool) -> (Cpu, Seq<u8>, Result<
    u32,
    CpuError,
>) {
    let target = mem_read16(mem, cpu.program_counter);
    let cpu1 = bump_pc(cpu, 2);
    if cond {
        let t = spec_push16(cpu1, mem, cpu1.program_counter);
        match t.2 {
            Ok(_) => (Cpu { program_counter: target, ..t.0 }, t.1, Ok(24)),
            Err(e) => (t.0, t.1, Err(e)),
        }
    } else {
        (cpu1, mem, Ok(12))
    }
}

/// A restart: push the program counter and jump to the fixed page-zero
/// target.
pub open spec fn spec_rst(cpu: Cpu, mem: Seq<u8>, vector: u16) -> (Cpu, Seq<u8>, Result<
    u32,
    CpuError,
>) {
    let t = spec_push16(cpu, mem, cpu.program_counter);
    match t.2 {
        Ok(_) => (Cpu { program_counter: vector, ..t.0 }, t.1, Ok(16)),
        Err(e) => (t.0, t.1, Err(e)),
    }
}

/// An arithmetic-quarter operation applied to a one-byte immediate
/// operand.
pub open spec fn spec_alu_imm(cpu: Cpu, mem: Seq<u8>, group: u8) -> (Cpu, Seq<u8>, Result<
    u32,
    CpuError,
>) {
    let v = mem_read(mem, cpu.program_counter);
    (spec_alu_op(bump_pc(cpu, 1), group, v), mem, Ok(8))
}

/// Jumps, calls, returns, stack pushes and pops, high-page loads,
/// immediate arithmetic forms, interrupt enable/disable, restarts, and the
/// escape into the extended table: the last quarter of the primary table.
pub open spec fn spec_execute_control(cpu: Cpu, mem: Seq<u8>, opcode: u8, fetch_pc: u16) -> (
    Cpu,
    Seq<u8>,
    Result<u32, CpuError>,
) {
    match opcode {
        0xC0 => spec_ret_cond(cpu, mem, !cpu.zero),
        0xC1 => {
            let t = spec_pop16(cpu, mem);
            match t.2 {
                Ok(_) => (Cpu { b: hi8(t.1), c: lo8(t.1), ..t.0 }, mem, Ok(12)),
                Err(e) => (t.0, mem, Err(e)),
            }
        },
        0xC2 => spec_jp_cond(cpu, mem, !cpu.zero),
        0xC3 => (
            Cpu { program_counter: mem_read16(mem, cpu.program_counter), ..cpu },
            mem,
            Ok(16),
        ),
        0xC4 => spec_call_cond(cpu, mem, !cpu.zero),
        0xC5 => {
            let t = spec_push16(cpu, mem, spec_bc(cpu));
            (t.0, t.1, cycles_or_err(t.2, 16))
        },
        0xC6 => spec_alu_imm(cpu, mem, 0),
        0xC7 => spec_rst(cpu, mem, 0x0000),
        0xC8 => spec_ret_cond(cpu, mem, cpu.zero),
        0xC9 => {
            let t = spec_pop16(cpu, mem);
            match t.2 {
                Ok(_) => (Cpu { program_counter: t.1, ..t.0 }, mem, Ok(16)),
                Err(e) => (t.0, mem, Err(e)),
            }
        },
        0xCA => spec_jp_cond(cpu, mem, cpu.zero),
        0xCB => {
            let sub = mem_read(mem, cpu.program_counter);
            let cpu1 = bump_pc(cpu, 1);
            spec_execute_extended(cpu1, mem, sub, fetch_pc)
        },
        0xCC => spec_call_cond(cpu, mem, cpu.zero),
        0xCD => spec_call_cond(cpu, mem, true),
        0xCE => spec_alu_imm(cpu, mem, 1),
        0xCF => spec_rst(cpu, mem, 0x0008),
        0xD0 => spec_ret_cond(cpu, mem, !cpu.carry),
        0xD1 => {
            let t = spec_pop16(cpu, mem);
            match t.2 {
                Ok(_) => (Cpu { d: hi8(t.1), e: lo8(t.1), ..t.0 }, mem, Ok(12)),
                Err(e) => (t.0, mem, Err(e)),
            }
        },
        0xD2 => spec_jp_cond(cpu, mem, !cpu.carry),
        0xD4 => spec_call_cond(cpu, mem, !cpu.carry),
        0xD5 => {
            let t = spec_push16(cpu, mem, spec_de(cpu));
            (t.0, t.1, cycles_or_err(t.2, 16))
        },
        0xD6 => spec_alu_imm(cpu, mem, 2),
        0xD7 => spec_rst(cpu, mem, 0x0010),
        0xD8 => spec_ret_cond(cpu, mem, cpu.carry),
        0xDA => spec_jp_cond(cpu, mem, cpu.carry),
        0xDC => spec_call_cond(cpu, mem, cpu.carry),
        0xDE => spec_alu_imm(cpu, mem, 3),
        0xDF => spec_rst(cpu, mem, 0x0018),
        0xE0 => {
            let off = mem_read(mem, cpu.program_counter);
            (bump_pc(cpu, 1), mem_write(mem, (0xFF00 + off) as u16, cpu.a), Ok(12))
        },
        0xE1 => {
            let t = spec_pop16(cpu, mem);
            match t.2 {
                Ok(_) => (Cpu { h: hi8(t.1), l: lo8(t.1), ..t.0 }, mem, Ok(12)),
                Err(e) => (t.0, mem, Err(e)),
            }
        },
        0xE2 => (cpu, mem_write(mem, (0xFF00 + cpu.c) as u16, cpu.a), Ok(8)),
        0xE5 => {
            let t = spec_push16(cpu, mem, spec_hl(cpu));
            (t.0, t.1, cycles_or_err(t.2, 16))
        },
        0xE6 => spec_alu_imm(cpu, mem, 4),
        0xE7 => spec_rst(cpu, mem, 0x0020),
        0xE9 => (Cpu { program_counter: spec_hl(cpu), ..cpu }, mem, Ok(4)),
        0xEA => {
            let addr = mem_read16(mem, cpu.program_counter);
            (bump_pc(cpu, 2), mem_write(mem, addr, cpu.a), Ok(16))
        },
        0xEE => spec_alu_imm(cpu, mem, 5),
        0xEF => spec_rst(cpu, mem, 0x0028),
        0xF0 => {
            let off = mem_read(mem, cpu.program_counter);
            (
                Cpu { a: mem_read(mem, (0xFF00 + off) as u16), ..bump_pc(cpu, 1) },
                mem,
                Ok(12),
            )
        },
        0xF1 => {
            let t = spec_pop16(cpu, mem);
            match t.2 {
                Ok(_) => {
                    let fl = lo8(t.1);
                    (
                        Cpu {
                            a: hi8(t.1),
                            zero: fl & 0x80 == 0x80,
                            subtract: fl & 0x40 == 0x40,
                            half_carry: fl & 0x20 == 0x20,
                            carry: fl & 0x10 == 0x10,
                            ..t.0
                        },
                        mem,
                        Ok(12),
                    )
                },
                Err(e) => (t.0, mem, Err(e)),
            }
        },
        0xF2 => (Cpu { a: mem_read(mem, (0xFF00 + cpu.c) as u16), ..cpu }, mem, Ok(8)),
        0xF3 => (Cpu { ime: false, ..cpu }, mem, Ok(4)),
        0xF5 => {
            let t = spec_push16(cpu, mem, make16_af(cpu));
            (t.0, t.1, cycles_or_err(t.2, 16))
        },
        0xF6 => spec_alu_imm(cpu, mem, 6),
        0xF7 => spec_rst(cpu, mem, 0x0030),
        0xF9 => (Cpu { stack_pointer: spec_hl(cpu), ..cpu }, mem, Ok(8)),
        0xFA => {
            let addr = mem_read16(mem, cpu.program_counter);
            (Cpu { a: mem_read(mem, addr), ..bump_pc(cpu, 2) }, mem, Ok(16))
        },
        0xFB => (Cpu { enable_interrupts_pending: true, ..cpu }, mem, Ok(4)),
        0xFE => spec_alu_imm(cpu, mem, 7),
        0xFF => spec_rst(cpu, mem, 0x0038),
        _ => (cpu, mem, Err(CpuError::UnsupportedOpcode { opcode, program_counter: fetch_pc })),
    }
}

/// The accumulator paired with the packed flag byte, as pushed by the
/// stack instructions.
pub open spec fn make16_af(cpu: Cpu) -> u16 {
    crate::registers::make16(cpu.a, spec_flags_byte(cpu))
}

/// The extended table, reached through the escape byte: its cost is the
/// escape's fixed prefix cost plus the sub-opcode's own. This core
/// implements the nibble-swap row: each selected operand has its two
/// nibbles exchanged, the zero flag set from the result and the other
/// three flags cleared; the memory operand costs twice a register operand.
/// The program counter in `cpu` is already past the sub-opcode byte.
pub open spec fn spec_execute_extended(cpu: Cpu, mem: Seq<u8>, sub: u8, fetch_pc: u16) -> (
    Cpu,
    Seq<u8>,
    Result<u32, CpuError>,
) {
    if 0x30 <= sub && sub <= 0x37 {
        let k = sub % 8;
        let v = reg8_operand(cpu, mem, k);
        let r = (v << 4) | (v >> 4);
        let cpu1 = Cpu { zero: r == 0, subtract: false, half_carry: false, carry: false, ..cpu };
        if k == 6 {
            (cpu1, mem_write(mem, spec_hl(cpu), r), Ok(16))
        } else {
            (with_reg8(cpu1, k, r), mem, Ok(8))
        }
    } else {
        (cpu, mem, Err(CpuError::UnsupportedOpcode { opcode: sub, program_counter: fetch_pc }))
    }
}

} // verus!

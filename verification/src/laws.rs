//! The library's laws: properties of the machine model that hold for every
//! state, proved once and for all. Each is stated over `spec_step` (or the
//! spec-level operation it concerns), which `Cpu::step` is proved to equal.

use vstd::prelude::*;
use crate::alu::{spec_add16, spec_add8, spec_sub8};
use crate::fault::CpuError;
use crate::interrupts::{int_mask, int_vector, spec_pending, IE_ADDR, IF_ADDR};
use crate::memory::mem_read;
use crate::registers::{lemma_make16_split, Cpu};
use crate::semantics::{spec_execute, spec_interrupt_take, spec_step};
use crate::stack::{spec_pop16, spec_push16};

verus! {

/// Documented cycle cost of a primary-table opcode, as a (taken, not-taken)
/// pair; the two are equal for everything but the conditional branches.
/// `None` for a byte outside the table. The escape byte is costed through
/// `extended_cycles` instead.
pub open spec fn instr_cycles(op: u8) -> Option<(u32, u32)> {
    if 0x40 <= op && op < 0xC0 {
        if op == 0x76 {
            None
        } else if op % 8 == 6 || (op < 0x80 && (op / 8) % 8 == 6) {
            Some((8, 8))
        } else {
            Some((4, 4))
        }
    } else {
        match op {
            0x00 => Some((4, 4)),
            0x01 => Some((12, 12)),
            0x02 => Some((8, 8)),
            0x03 => Some((8, 8)),
            0x04 => Some((4, 4)),
            0x05 => Some((4, 4)),
            0x06 => Some((8, 8)),
            0x07 => Some((4, 4)),
            0x09 => Some((8, 8)),
            0x0A => Some((8, 8)),
            0x0B => Some((8, 8)),
            0x0C => Some((4, 4)),
            0x0D => Some((4, 4)),
            0x0E => Some((8, 8)),
            0x11 => Some((12, 12)),
            0x12 => Some((8, 8)),
            0x13 => Some((8, 8)),
            0x14 => Some((4, 4)),
            0x15 => Some((4, 4)),
            0x16 => Some((8, 8)),
            0x18 => Some((12, 12)),
            0x19 => Some((8, 8)),
            0x1A => Some((8, 8)),
            0x1B => Some((8, 8)),
            0x1C => Some((4, 4)),
            0x1D => Some((4, 4)),
            0x1E => Some((8, 8)),
            0x20 => Some((12, 8)),
            0x21 => Some((12, 12)),
            0x22 => Some((8, 8)),
            0x23 => Some((8, 8)),
            0x24 => Some((4, 4)),
            0x25 => Some((4, 4)),
            0x26 => Some((8, 8)),
            0x28 => Some((12, 8)),
            0x29 => Some((8, 8)),
            0x2A => Some((8, 8)),
            0x2B => Some((8, 8)),
            0x2C => Some((4, 4)),
            0x2D => Some((4, 4)),
            0x2E => Some((8, 8)),
            0x2F => Some((4, 4)),
            0x30 => Some((12, 8)),
            0x31 => Some((12, 12)),
            0x32 => Some((8, 8)),
            0x33 => Some((8, 8)),
            0x34 => Some((12, 12)),
            0x35 => Some((12, 12)),
            0x36 => Some((12, 12)),
            0x38 => Some((12, 8)),
            0x39 => Some((8, 8)),
            0x3A => Some((8, 8)),
            0x3B => Some((8, 8)),
            0x3C => Some((4, 4)),
            0x3D => Some((4, 4)),
            0x3E => Some((8, 8)),
            0xC0 => Some((20, 8)),
            0xC1 => Some((12, 12)),
            0xC2 => Some((16, 12)),
            0xC3 => Some((16, 16)),
            0xC4 => Some((24, 12)),
            0xC5 => Some((16, 16)),
            0xC6 => Some((8, 8)),
            0xC7 => Some((16, 16)),
            0xC8 => Some((20, 8)),
            0xC9 => Some((16, 16)),
            0xCA => Some((16, 12)),
            0xCC => Some((24, 12)),
            0xCD => Some((24, 24)),
            0xCE => Some((8, 8)),
            0xCF => Some((16, 16)),
            0xD0 => Some((20, 8)),
            0xD1 => Some((12, 12)),
            0xD2 => Some((16, 12)),
            0xD4 => Some((24, 12)),
            0xD5 => Some((16, 16)),
            0xD6 => Some((8, 8)),
            0xD7 => Some((16, 16)),
            0xD8 => Some((20, 8)),
            0xDA => Some((16, 12)),
            0xDC => Some((24, 12)),
            0xDE => Some((8, 8)),
            0xDF => Some((16, 16)),
            0xE0 => Some((12, 12)),
            0xE1 => Some((12, 12)),
            0xE2 => Some((8, 8)),
            0xE5 => Some((16, 16)),
            0xE6 => Some((8, 8)),
            0xE7 => Some((16, 16)),
            0xE9 => Some((4, 4)),
            0xEA => Some((16, 16)),
            0xEE => Some((8, 8)),
            0xEF => Some((16, 16)),
            0xF0 => Some((12, 12)),
            0xF1 => Some((12, 12)),
            0xF2 => Some((8, 8)),
            0xF3 => Some((4, 4)),
            0xF5 => Some((16, 16)),
            0xF6 => Some((8, 8)),
            0xF7 => Some((16, 16)),
            0xF9 => Some((8, 8)),
            0xFA => Some((16, 16)),
            0xFB => Some((4, 4)),
            0xFE => Some((8, 8)),
            0xFF => Some((16, 16)),
            _ => None,
        }
    }
}

/// Documented total cost of an extended-table opcode: the escape's fixed
/// prefix cost plus the sub-opcode's own cost.
pub open spec fn extended_cycles(sub: u8) -> Option<u32> {
    if 0x30 <= sub && sub <= 0x37 {
        Some(
            if sub == 0x36 {
                16
            } else {
                8
            },
        )
    } else {
        None
    }
}

/// Whether a conditional opcode's tested flag matches in `cpu`; vacuously
/// true for unconditional opcodes.
pub open spec fn branch_taken(cpu: Cpu, op: u8) -> bool {
    match op {
        0x20 => !cpu.zero,
        0x28 => cpu.zero,
        0x30 => !cpu.carry,
        0x38 => cpu.carry,
        0xC0 => !cpu.zero,
        0xC2 => !cpu.zero,
        0xC4 => !cpu.zero,
        0xC8 => cpu.zero,
        0xCA => cpu.zero,
        0xCC => cpu.zero,
        0xD0 => !cpu.carry,
        0xD2 => !cpu.carry,
        0xD4 => !cpu.carry,
        0xD8 => cpu.carry,
        0xDA => cpu.carry,
        0xDC => cpu.carry,
        _ => true,
    }
}

/// Cycle-cost law: in a step that dispatches no interrupt, a successful
/// step returns exactly the documented cost of the fetched opcode — the
/// "taken" cost when the tested flag matches, the "not-taken" cost
/// otherwise — and a byte outside both tables never succeeds.
#[verifier::rlimit(100)]
#[verifier::spinoff_prover]
pub proof fn lemma_documented_cycle_costs(cpu: Cpu, mem: Seq<u8>)
    requires
        spec_interrupt_take(cpu, mem) is None,
    ensures
        ({
            let op = mem_read(mem, cpu.program_counter);
            let sub = mem_read(mem, cpu.program_counter.wrapping_add(1));
            let t = spec_step(cpu, mem);
            &&& (op != 0xCB && t.2 is Ok) ==> (match instr_cycles(op) {
                Some(cc) => t.2 == Ok::<u32, CpuError>(
                    if branch_taken(cpu, op) {
                        cc.0
                    } else {
                        cc.1
                    },
                ),
                None => false,
            })
            &&& (op == 0xCB && t.2 is Ok) ==> (match extended_cycles(sub) {
                Some(c) => t.2 == Ok::<u32, CpuError>(c),
                None => false,
            })
        }),
{
}

/// The packed flag register's low nibble is zero in every machine state:
/// the four condition bits live in the high nibble and nothing else is
/// ever set. Together with `spec_step` exactness this is the invariant
/// that every instruction — the flag-restoring pop included — preserves.
pub proof fn lemma_flag_register_low_nibble_zero(cpu: Cpu)
    ensures
        crate::registers::spec_flags_byte(cpu) & 0x0F == 0,
        crate::registers::spec_flags_byte(cpu) % 16 == 0,
{
    let v = crate::registers::spec_flags_byte(cpu);
    assert(v % 16 == 0 ==> v & 0x0F == 0) by (bit_vector);
}

/// The flag-formula law over every operation of the arithmetic quarter
/// (and its immediate forms, which apply the same groups): for any operand
/// and any starting state, the updated flags equal the documented bit-mask
/// formulas. The carry-in of the with-carry groups is the old carry flag.
pub proof fn lemma_alu_flag_formulas(cpu: Cpu, group: u8, v: u8)
    requires
        group < 8,
    ensures
        ({
            let c = crate::semantics::spec_alu_op(cpu, group, v);
            let cin: u8 = if cpu.carry { 1 } else { 0 };
            &&& group == 0 ==> c.a as int == (cpu.a + v) % 0x100 && c.half_carry == ((cpu.a & 0xF)
                + (v & 0xF) > 0xF) && c.carry == (cpu.a + v > 0xFF) && !c.subtract
            &&& group == 1 ==> c.a as int == (cpu.a + v + cin) % 0x100 && c.half_carry == ((cpu.a
                & 0xF) + (v & 0xF) + cin > 0xF) && c.carry == (cpu.a + v + cin > 0xFF)
                && !c.subtract
            &&& group == 2 ==> c.a as int == (cpu.a - v) % 0x100 && c.half_carry == ((cpu.a & 0xF)
                < (v & 0xF)) && c.carry == ((cpu.a as int) < v) && c.subtract
            &&& group == 3 ==> c.a as int == (cpu.a - v - cin) % 0x100 && c.half_carry == ((cpu.a
                & 0xF) < (v & 0xF) + cin) && c.carry == ((cpu.a as int) < v + cin) && c.subtract
            &&& group == 4 ==> c.a == (cpu.a & v) && !c.subtract && c.half_carry && !c.carry
            &&& group == 5 ==> c.a == (cpu.a ^ v) && !c.subtract && !c.half_carry && !c.carry
            &&& group == 6 ==> c.a == (cpu.a | v) && !c.subtract && !c.half_carry && !c.carry
            &&& group == 7 ==> c.a == cpu.a && c.zero == (spec_sub8(cpu.a, v, 0).0 == 0)
                && c.half_carry == ((cpu.a & 0xF) < (v & 0xF)) && c.carry == ((cpu.a as int) < v)
                && c.subtract
            &&& group != 7 ==> c.zero == (c.a == 0)
        }),
{
    lemma_add8_flag_formulas(cpu.a, v, 0);
    lemma_sub8_flag_formulas(cpu.a, v, 0);
    if cpu.carry {
        lemma_add8_flag_formulas(cpu.a, v, 1);
        lemma_sub8_flag_formulas(cpu.a, v, 1);
    }
}

/// Half-carry and carry law for 8-bit addition, in the bit-mask form: the
/// half-carry is the carry out of the low nibble and the carry the carry
/// out of the byte, over the full input domain and either carry-in.
pub proof fn lemma_add8_flag_formulas(a: u8, b: u8, carry_in: u8)
    requires
        carry_in <= 1,
    ensures
        spec_add8(a, b, carry_in).0 as int == (a + b + carry_in) % 0x100,
        spec_add8(a, b, carry_in).1 == ((a & 0xF) + (b & 0xF) + carry_in > 0xF),
        spec_add8(a, b, carry_in).2 == (a + b + carry_in > 0xFF),
{
    assert(a & 0xF == a % 16) by (bit_vector);
    assert(b & 0xF == b % 16) by (bit_vector);
}

/// Borrow law for 8-bit subtraction (shared by subtract-with-borrow,
/// decrement and compare): half-carry is the borrow into the low nibble,
/// carry the borrow into the byte.
pub proof fn lemma_sub8_flag_formulas(a: u8, b: u8, carry_in: u8)
    requires
        carry_in <= 1,
    ensures
        spec_sub8(a, b, carry_in).0 as int == (a - b - carry_in) % 0x100,
        spec_sub8(a, b, carry_in).1 == ((a & 0xF) < (b & 0xF) + carry_in),
        spec_sub8(a, b, carry_in).2 == ((a as int) < b + carry_in),
{
    assert(a & 0xF == a % 16) by (bit_vector);
    assert(b & 0xF == b % 16) by (bit_vector);
}

/// Hardware-boundary law for the 16-bit addition: half-carry is the carry
/// out of the low twelve bits, carry the carry out of the top bit.
pub proof fn lemma_add16_flag_formulas(a: u16, b: u16)
    ensures
        spec_add16(a, b).0 as int == (a + b) % 0x10000,
        spec_add16(a, b).1 == ((a & 0xFFF) + (b & 0xFFF) > 0xFFF),
        spec_add16(a, b).2 == (a + b > 0xFFFF),
{
    assert(a & 0xFFF == a % 4096) by (bit_vector);
    assert(b & 0xFFF == b % 4096) by (bit_vector);
}

/// The 8-bit increments and decrements (register and through-HL forms)
/// never touch the carry flag.
#[verifier::rlimit(100)]
#[verifier::spinoff_prover]
pub proof fn lemma_inc_dec_preserve_carry(cpu: Cpu, mem: Seq<u8>, op: u8, fetch_pc: u16)
    requires
        op == 0x04 || op == 0x05 || op == 0x0C || op == 0x0D || op == 0x14 || op == 0x15 || op
            == 0x1C || op == 0x1D || op == 0x24 || op == 0x25 || op == 0x2C || op == 0x2D || op
            == 0x34 || op == 0x35 || op == 0x3C || op == 0x3D,
    ensures
        spec_execute(cpu, mem, op, fetch_pc).0.carry == cpu.carry,
{
}

/// The 16-bit increments and decrements touch no flag at all.
#[verifier::rlimit(100)]
#[verifier::spinoff_prover]
pub proof fn lemma_pair_inc_dec_preserve_flags(cpu: Cpu, mem: Seq<u8>, op: u8, fetch_pc: u16)
    requires
        op == 0x03 || op == 0x0B || op == 0x13 || op == 0x1B || op == 0x23 || op == 0x2B || op
            == 0x33 || op == 0x3B,
    ensures
        ({
            let c = spec_execute(cpu, mem, op, fetch_pc).0;
            c.zero == cpu.zero && c.subtract == cpu.subtract && c.half_carry == cpu.half_carry
                && c.carry == cpu.carry
        }),
{
}

/// Stack round-trip law: pushing a 16-bit value and popping it back
/// restores both the value and the whole machine state — in particular the
/// stack pointer — for every value and every starting stack pointer whose
/// two stack slots are admissible.
pub proof fn lemma_push_pop_round_trip(cpu: Cpu, mem: Seq<u8>, v: u16)
    requires
        mem.len() == 65536,
        spec_push16(cpu, mem, v).2 is Ok,
    ensures
        ({
            let p = spec_push16(cpu, mem, v);
            let q = spec_pop16(p.0, p.1);
            &&& q.2 is Ok && q.1 == v && q.0 == cpu
            &&& p.0.stack_pointer == cpu.stack_pointer.wrapping_sub(2)
            &&& mem_read(p.1, cpu.stack_pointer.wrapping_sub(1)) == crate::registers::hi8(v)
            &&& mem_read(p.1, cpu.stack_pointer.wrapping_sub(2)) == crate::registers::lo8(v)
        }),
{
    lemma_make16_split(v);
}

/// Clearing one mask leaves a disjoint mask's bits untouched.
proof fn lemma_clear_bit_preserves_others(x: u8, m1: u8, m2: u8)
    by (bit_vector)
    requires
        m1 & m2 == 0,
    ensures
        (x & !m1) & m2 == x & m2,
{
}

/// Clearing a mask clears it.
proof fn lemma_clear_bit_clears(x: u8, m: u8)
    by (bit_vector)
    ensures
        (x & !m) & m == 0,
{
}

/// Distinct interrupt sources have disjoint mask bits.
proof fn lemma_masks_disjoint(j: u8, k: u8)
    by (bit_vector)
    requires
        j <= 4,
        k <= 4,
        j != k,
    ensures
        int_mask(j) & int_mask(k) == 0,
{
}

/// Interrupt priority law: when the master enable is on and at least one
/// source is both pending and enabled, exactly the highest-priority such
/// source is serviced — its flag bit is cleared while every other source's
/// bit is untouched, the master enable drops, the program counter moves to
/// the source's vector, and the step costs the fixed dispatch cost.
/// Strict stack checking is assumed off (a stack fault would abort the
/// dispatch instead), and the two stack slots the dispatch pushes to must
/// not be the flag register itself, which the push would then overwrite.
pub proof fn lemma_interrupt_priority(cpu: Cpu, mem: Seq<u8>)
    requires
        mem.len() == 65536,
        cpu.ime,
        !cpu.strict_stack,
        cpu.stack_pointer.wrapping_sub(1) != IF_ADDR,
        cpu.stack_pointer.wrapping_sub(2) != IF_ADDR,
        spec_pending(mem_read(mem, IF_ADDR), mem_read(mem, IE_ADDR)) is Some,
    ensures
        ({
            let iflag = mem_read(mem, IF_ADDR);
            let ie = mem_read(mem, IE_ADDR);
            let t = spec_step(cpu, mem);
            match spec_pending(iflag, ie) {
                Some(k) => {
                    &&& k <= 4
                    &&& iflag & int_mask(k) != 0 && ie & int_mask(k) != 0
                    &&& forall|j: u8|
                        j < k ==> !(iflag & int_mask(j) != 0 && ie & int_mask(j) != 0)
                    &&& t.0.program_counter == int_vector(k)
                    &&& !t.0.ime
                    &&& mem_read(t.1, IF_ADDR) == iflag & !int_mask(k)
                    &&& mem_read(t.1, IF_ADDR) & int_mask(k) == 0
                    &&& forall|j: u8|
                        j <= 4 && j != k ==> mem_read(t.1, IF_ADDR) & int_mask(j) == iflag
                            & int_mask(j)
                    &&& t.0.stack_pointer == cpu.stack_pointer.wrapping_sub(2)
                    &&& mem_read(t.1, cpu.stack_pointer.wrapping_sub(1)) == crate::registers::hi8(
                        cpu.program_counter,
                    )
                    &&& mem_read(t.1, cpu.stack_pointer.wrapping_sub(2)) == crate::registers::lo8(
                        cpu.program_counter,
                    )
                    &&& t.2 == Ok::<u32, CpuError>(20)
                },
                None => false,
            }
        }),
{
    let iflag = mem_read(mem, IF_ADDR);
    let ie = mem_read(mem, IE_ADDR);
    let k = match spec_pending(iflag, ie) {
        Some(k) => k,
        None => 0,
    };
    let cleared = iflag & !int_mask(k);
    assert forall|j: u8| j <= 4 && j != k implies cleared & int_mask(j) == iflag & int_mask(
        j,
    ) by {
        lemma_masks_disjoint(k, j);
        lemma_clear_bit_preserves_others(iflag, int_mask(k), int_mask(j));
    }
    lemma_clear_bit_clears(iflag, int_mask(k));
}

/// Enable-interrupts delay, first half: executing the enable-interrupts
/// instruction only sets the delayed latch — the master enable is still
/// off when the instruction's own step completes.
pub proof fn lemma_enable_delay_first_step(cpu: Cpu, mem: Seq<u8>)
    requires
        !cpu.ime,
        !cpu.enable_interrupts_pending,
        mem_read(mem, cpu.program_counter) == 0xFB,
    ensures
        ({
            let t = spec_step(cpu, mem);
            &&& !t.0.ime
            &&& t.0.enable_interrupts_pending
            &&& t.0.program_counter == cpu.program_counter.wrapping_add(1)
            &&& t.1 == mem
            &&& t.2 == Ok::<u32, CpuError>(4)
        }),
{
}

/// Enable-interrupts delay, second half: with the latch set, the master
/// enable turns on as the following step begins, before that step's own
/// instruction runs — whatever it is, and whether or not it succeeds. The
/// one exclusion is the disable-interrupts instruction, which turns the
/// gate straight back off within the same step.
#[verifier::rlimit(100)]
#[verifier::spinoff_prover]
pub proof fn lemma_enable_delay_second_step(cpu: Cpu, mem: Seq<u8>)
    requires
        !cpu.ime,
        cpu.enable_interrupts_pending,
        mem_read(mem, cpu.program_counter) != 0xF3,
    ensures
        spec_step(cpu, mem).0.ime,
{
    let cpu1 = Cpu { ime: true, enable_interrupts_pending: false, ..cpu };
    let op = mem_read(mem, cpu1.program_counter);
    lemma_execute_preserves_ime(
        crate::stack::bump_pc(cpu1, 1),
        mem,
        op,
        cpu1.program_counter,
    );
}

/// Every instruction but disable-interrupts leaves the master enable as it
/// found it.
pub proof fn lemma_execute_preserves_ime(cpu: Cpu, mem: Seq<u8>, op: u8, fetch_pc: u16)
    requires
        op != 0xF3,
    ensures
        spec_execute(cpu, mem, op, fetch_pc).0.ime == cpu.ime,
{
    if op < 0x40 {
        lemma_low_preserves_ime(cpu, mem, op, fetch_pc);
    } else if op < 0xC0 {
        lemma_mid_preserves_ime(cpu, mem, op, fetch_pc);
    } else {
        lemma_control_preserves_ime(cpu, mem, op, fetch_pc);
    }
}

#[verifier::rlimit(100)]
#[verifier::spinoff_prover]
proof fn lemma_low_preserves_ime(cpu: Cpu, mem: Seq<u8>, op: u8, fetch_pc: u16)
    requires
        op < 0x40,
    ensures
        spec_execute(cpu, mem, op, fetch_pc).0.ime == cpu.ime,
{
}

#[verifier::rlimit(100)]
#[verifier::spinoff_prover]
proof fn lemma_mid_preserves_ime(cpu: Cpu, mem: Seq<u8>, op: u8, fetch_pc: u16)
    requires
        0x40 <= op < 0xC0,
    ensures
        spec_execute(cpu, mem, op, fetch_pc).0.ime == cpu.ime,
{
}

proof fn lemma_pop16_keeps_ime(cpu: Cpu, mem: Seq<u8>)
    ensures
        spec_pop16(cpu, mem).0.ime == cpu.ime,
{
}

proof fn lemma_push16_keeps_ime(cpu: Cpu, mem: Seq<u8>, v: u16)
    ensures
        spec_push16(cpu, mem, v).0.ime == cpu.ime,
{
}

proof fn lemma_ret_cond_keeps_ime(cpu: Cpu, mem: Seq<u8>, cond: bool)
    ensures
        crate::semantics::spec_ret_cond(cpu, mem, cond).0.ime == cpu.ime,
{
}

proof fn lemma_jp_cond_keeps_ime(cpu: Cpu, mem: Seq<u8>, cond: bool)
    ensures
        crate::semantics::spec_jp_cond(cpu, mem, cond).0.ime == cpu.ime,
{
}

proof fn lemma_call_cond_keeps_ime(cpu: Cpu, mem: Seq<u8>, cond: bool)
    ensures
        crate::semantics::spec_call_cond(cpu, mem, cond).0.ime == cpu.ime,
{
    lemma_push16_keeps_ime(crate::stack::bump_pc(cpu, 2), mem, cpu.program_counter.wrapping_add(2));
}

proof fn lemma_rst_keeps_ime(cpu: Cpu, mem: Seq<u8>, vector: u16)
    ensures
        crate::semantics::spec_rst(cpu, mem, vector).0.ime == cpu.ime,
{
}

proof fn lemma_alu_imm_keeps_ime(cpu: Cpu, mem: Seq<u8>, group: u8)
    ensures
        crate::semantics::spec_alu_imm(cpu, mem, group).0.ime == cpu.ime,
{
}

proof fn lemma_extended_keeps_ime(cpu: Cpu, mem: Seq<u8>, sub: u8, fetch_pc: u16)
    ensures
        crate::semantics::spec_execute_extended(cpu, mem, sub, fetch_pc).0.ime == cpu.ime,
{
}

#[verifier::rlimit(100)]
#[verifier::spinoff_prover]
proof fn lemma_control_preserves_ime(cpu: Cpu, mem: Seq<u8>, op: u8, fetch_pc: u16)
    requires
        0xC0 <= op,
        op != 0xF3,
    ensures
        spec_execute(cpu, mem, op, fetch_pc).0.ime == cpu.ime,
{
    lemma_pop16_keeps_ime(cpu, mem);
    lemma_push16_keeps_ime(cpu, mem, crate::registers::spec_bc(cpu));
    lemma_push16_keeps_ime(cpu, mem, crate::registers::spec_de(cpu));
    lemma_push16_keeps_ime(cpu, mem, crate::registers::spec_hl(cpu));
    lemma_push16_keeps_ime(cpu, mem, crate::semantics::make16_af(cpu));
    lemma_ret_cond_keeps_ime(cpu, mem, !cpu.zero);
    lemma_ret_cond_keeps_ime(cpu, mem, cpu.zero);
    lemma_ret_cond_keeps_ime(cpu, mem, !cpu.carry);
    lemma_ret_cond_keeps_ime(cpu, mem, cpu.carry);
    lemma_jp_cond_keeps_ime(cpu, mem, !cpu.zero);
    lemma_jp_cond_keeps_ime(cpu, mem, cpu.zero);
    lemma_jp_cond_keeps_ime(cpu, mem, !cpu.carry);
    lemma_jp_cond_keeps_ime(cpu, mem, cpu.carry);
    lemma_call_cond_keeps_ime(cpu, mem, !cpu.zero);
    lemma_call_cond_keeps_ime(cpu, mem, cpu.zero);
    lemma_call_cond_keeps_ime(cpu, mem, !cpu.carry);
    lemma_call_cond_keeps_ime(cpu, mem, cpu.carry);
    lemma_call_cond_keeps_ime(cpu, mem, true);
    lemma_rst_keeps_ime(cpu, mem, 0x0000);
    lemma_rst_keeps_ime(cpu, mem, 0x0008);
    lemma_rst_keeps_ime(cpu, mem, 0x0010);
    lemma_rst_keeps_ime(cpu, mem, 0x0018);
    lemma_rst_keeps_ime(cpu, mem, 0x0020);
    lemma_rst_keeps_ime(cpu, mem, 0x0028);
    lemma_rst_keeps_ime(cpu, mem, 0x0030);
    lemma_rst_keeps_ime(cpu, mem, 0x0038);
    lemma_alu_imm_keeps_ime(cpu, mem, 0);
    lemma_alu_imm_keeps_ime(cpu, mem, 1);
    lemma_alu_imm_keeps_ime(cpu, mem, 2);
    lemma_alu_imm_keeps_ime(cpu, mem, 3);
    lemma_alu_imm_keeps_ime(cpu, mem, 4);
    lemma_alu_imm_keeps_ime(cpu, mem, 5);
    lemma_alu_imm_keeps_ime(cpu, mem, 6);
    lemma_alu_imm_keeps_ime(cpu, mem, 7);
    lemma_extended_keeps_ime(
        crate::stack::bump_pc(cpu, 1),
        mem,
        mem_read(mem, cpu.program_counter),
        fetch_pc,
    );
}

/// The whole enable-interrupts delay: after the enable instruction the
/// master enable is still off; it is on only once the next instruction's
/// step completes (that instruction not being disable-interrupts).
pub proof fn lemma_enable_interrupts_delay(cpu: Cpu, mem: Seq<u8>)
    requires
        !cpu.ime,
        !cpu.enable_interrupts_pending,
        mem_read(mem, cpu.program_counter) == 0xFB,
        mem_read(mem, cpu.program_counter.wrapping_add(1)) != 0xF3,
    ensures
        ({
            let t = spec_step(cpu, mem);
            let u = spec_step(t.0, t.1);
            !t.0.ime && u.0.ime
        }),
{
    lemma_enable_delay_first_step(cpu, mem);
    let t = spec_step(cpu, mem);
    lemma_enable_delay_second_step(t.0, t.1);
}

} // verus!

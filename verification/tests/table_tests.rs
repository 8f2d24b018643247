use lr35902_core::fault::CpuError;
use lr35902_core::memory::Memory;
use lr35902_core::registers::Cpu;

fn fresh() -> (Cpu, Memory) {
    (Cpu::new(), Memory::new())
}

#[test]
fn load_register_from_hl_operand() {
    let (mut cpu, mut mem) = fresh();
    cpu.h = 0xC1;
    cpu.l = 0x23;
    mem.write_byte(0xC123, 0x42);
    mem.write_byte(0x0100, 0x46);  // load B through HL
    assert_eq!(cpu.step(&mut mem), Ok(8));
    assert_eq!(cpu.b, 0x42);
}

#[test]
fn store_register_through_hl() {
    let (mut cpu, mut mem) = fresh();
    cpu.b = 0x9C;
    cpu.h = 0xC1;
    cpu.l = 0x23;
    mem.write_byte(0x0100, 0x70);  // store B through HL
    assert_eq!(cpu.step(&mut mem), Ok(8));
    assert_eq!(mem.read_byte(0xC123), 0x9C);
}

#[test]
fn halt_slot_is_not_implemented() {
    let (mut cpu, mut mem) = fresh();
    mem.write_byte(0x0100, 0x76);
    let r = cpu.step(&mut mem);
    assert_eq!(r, Err(CpuError::UnsupportedOpcode { opcode: 0x76, program_counter: 0x0100 }));
}

#[test]
fn subtract_register() {
    let (mut cpu, mut mem) = fresh();
    cpu.a = 0x3E;
    cpu.b = 0x3E;
    mem.write_byte(0x0100, 0x90);  // subtract B
    assert_eq!(cpu.step(&mut mem), Ok(4));
    assert_eq!(cpu.a, 0x00);
    assert!(cpu.zero && cpu.subtract && !cpu.half_carry && !cpu.carry);
}

#[test]
fn and_register_sets_half_carry() {
    let (mut cpu, mut mem) = fresh();
    cpu.a = 0xF0;
    cpu.b = 0x0F;
    mem.write_byte(0x0100, 0xA0);  // and B
    assert_eq!(cpu.step(&mut mem), Ok(4));
    assert_eq!(cpu.a, 0x00);
    assert!(cpu.zero && !cpu.subtract && cpu.half_carry && !cpu.carry);
}

#[test]
fn xor_through_hl_operand() {
    let (mut cpu, mut mem) = fresh();
    cpu.a = 0xFF;
    cpu.h = 0xC0;
    cpu.l = 0x00;
    mem.write_byte(0xC000, 0x0F);
    mem.write_byte(0x0100, 0xAE);  // exclusive-or with the HL operand
    assert_eq!(cpu.step(&mut mem), Ok(8));
    assert_eq!(cpu.a, 0xF0);
    assert!(!cpu.zero && !cpu.subtract && !cpu.half_carry && !cpu.carry);
}

#[test]
fn compare_through_hl_operand() {
    let (mut cpu, mut mem) = fresh();
    cpu.a = 0x10;
    cpu.h = 0xC0;
    cpu.l = 0x00;
    mem.write_byte(0xC000, 0x20);
    mem.write_byte(0x0100, 0xBE);  // compare with the HL operand
    assert_eq!(cpu.step(&mut mem), Ok(8));
    assert_eq!(cpu.a, 0x10);
    assert!(!cpu.zero && cpu.subtract && cpu.carry);
}

#[test]
fn add_immediate() {
    let (mut cpu, mut mem) = fresh();
    cpu.a = 0x0F;
    mem.write_byte(0x0100, 0xC6);
    mem.write_byte(0x0101, 0x01);
    assert_eq!(cpu.step(&mut mem), Ok(8));
    assert_eq!(cpu.a, 0x10);
    assert!(cpu.half_carry && !cpu.carry && !cpu.zero && !cpu.subtract);
    assert_eq!(cpu.program_counter, 0x0102);
}

#[test]
fn subtract_immediate() {
    let (mut cpu, mut mem) = fresh();
    cpu.a = 0x05;
    mem.write_byte(0x0100, 0xD6);
    mem.write_byte(0x0101, 0x06);
    assert_eq!(cpu.step(&mut mem), Ok(8));
    assert_eq!(cpu.a, 0xFF);
    assert!(cpu.carry && cpu.half_carry && cpu.subtract && !cpu.zero);
}

#[test]
fn or_immediate() {
    let (mut cpu, mut mem) = fresh();
    cpu.a = 0xF0;
    mem.write_byte(0x0100, 0xF6);
    mem.write_byte(0x0101, 0x0F);
    assert_eq!(cpu.step(&mut mem), Ok(8));
    assert_eq!(cpu.a, 0xFF);
    assert!(!cpu.zero && !cpu.subtract && !cpu.half_carry && !cpu.carry);
}

#[test]
fn conditional_absolute_jump_costs() {
    let (mut cpu, mut mem) = fresh();
    cpu.zero = false;
    mem.write_byte(0x0100, 0xC2);  // jump when not zero
    mem.write_byte(0x0101, 0x00);
    mem.write_byte(0x0102, 0x03);
    assert_eq!(cpu.step(&mut mem), Ok(16));
    assert_eq!(cpu.program_counter, 0x0300);

    let (mut cpu, mut mem) = fresh();
    cpu.zero = true;
    mem.write_byte(0x0100, 0xC2);
    mem.write_byte(0x0101, 0x00);
    mem.write_byte(0x0102, 0x03);
    assert_eq!(cpu.step(&mut mem), Ok(12));
    assert_eq!(cpu.program_counter, 0x0103);
}

#[test]
fn conditional_call_on_carry() {
    let (mut cpu, mut mem) = fresh();
    cpu.carry = true;
    mem.write_byte(0x0100, 0xDC);  // call when carry
    mem.write_byte(0x0101, 0x00);
    mem.write_byte(0x0102, 0x04);
    assert_eq!(cpu.step(&mut mem), Ok(24));
    assert_eq!(cpu.program_counter, 0x0400);
    assert_eq!(mem.read_short(0xFFFC), 0x0103);

    let (mut cpu, mut mem) = fresh();
    cpu.carry = false;
    mem.write_byte(0x0100, 0xDC);
    assert_eq!(cpu.step(&mut mem), Ok(12));
    assert_eq!(cpu.program_counter, 0x0103);
    assert_eq!(cpu.stack_pointer, 0xFFFE);
}

#[test]
fn return_when_zero() {
    let (mut cpu, mut mem) = fresh();
    cpu.zero = true;
    cpu.stack_pointer = 0xFFFC;
    mem.write_byte(0xFFFC, 0x34);
    mem.write_byte(0xFFFD, 0x12);
    mem.write_byte(0x0100, 0xC8);
    assert_eq!(cpu.step(&mut mem), Ok(20));
    assert_eq!(cpu.program_counter, 0x1234);
    assert_eq!(cpu.stack_pointer, 0xFFFE);
}

#[test]
fn restart_jumps_to_fixed_target() {
    let (mut cpu, mut mem) = fresh();
    mem.write_byte(0x0100, 0xEF);
    assert_eq!(cpu.step(&mut mem), Ok(16));
    assert_eq!(cpu.program_counter, 0x0028);
    assert_eq!(mem.read_short(0xFFFC), 0x0101);
}

#[test]
fn pop_into_de() {
    let (mut cpu, mut mem) = fresh();
    cpu.stack_pointer = 0xFFFC;
    mem.write_byte(0xFFFC, 0xCD);
    mem.write_byte(0xFFFD, 0xAB);
    mem.write_byte(0x0100, 0xD1);
    assert_eq!(cpu.step(&mut mem), Ok(12));
    assert_eq!((cpu.d, cpu.e), (0xAB, 0xCD));
    assert_eq!(cpu.stack_pointer, 0xFFFE);
}

#[test]
fn high_page_load_through_c() {
    let (mut cpu, mut mem) = fresh();
    cpu.c = 0x90;
    mem.write_byte(0xFF90, 0x66);
    mem.write_byte(0x0100, 0xF2);
    assert_eq!(cpu.step(&mut mem), Ok(8));
    assert_eq!(cpu.a, 0x66);
}

#[test]
fn load_stack_pointer_from_hl() {
    let (mut cpu, mut mem) = fresh();
    cpu.h = 0xD0;
    cpu.l = 0x42;
    mem.write_byte(0x0100, 0xF9);
    assert_eq!(cpu.step(&mut mem), Ok(8));
    assert_eq!(cpu.stack_pointer, 0xD042);
}

#[test]
fn load_accumulator_through_bc_and_store_through_de() {
    let (mut cpu, mut mem) = fresh();
    cpu.b = 0xC0;
    cpu.c = 0x05;
    mem.write_byte(0xC005, 0x3C);
    mem.write_byte(0x0100, 0x0A);  // load A through BC
    assert_eq!(cpu.step(&mut mem), Ok(8));
    assert_eq!(cpu.a, 0x3C);

    cpu.d = 0xC0;
    cpu.e = 0x09;
    mem.write_byte(0x0101, 0x12);  // store A through DE
    assert_eq!(cpu.step(&mut mem), Ok(8));
    assert_eq!(mem.read_byte(0xC009), 0x3C);
}

#[test]
fn relative_jump_when_no_carry() {
    let (mut cpu, mut mem) = fresh();
    cpu.carry = false;
    mem.write_byte(0x0100, 0x30);
    mem.write_byte(0x0101, 0x04);
    assert_eq!(cpu.step(&mut mem), Ok(12));
    assert_eq!(cpu.program_counter, 0x0106);

    let (mut cpu, mut mem) = fresh();
    cpu.carry = true;
    mem.write_byte(0x0100, 0x30);
    mem.write_byte(0x0101, 0x04);
    assert_eq!(cpu.step(&mut mem), Ok(8));
    assert_eq!(cpu.program_counter, 0x0102);
}

#[test]
fn add_stack_pointer_into_hl() {
    let (mut cpu, mut mem) = fresh();
    cpu.h = 0x00;
    cpu.l = 0x02;
    cpu.stack_pointer = 0xFFFE;
    mem.write_byte(0x0100, 0x39);
    assert_eq!(cpu.step(&mut mem), Ok(8));
    assert_eq!((cpu.h, cpu.l), (0x00, 0x00));
    assert!(cpu.carry && cpu.half_carry && !cpu.subtract);
}

#[test]
fn swap_register_b() {
    let (mut cpu, mut mem) = fresh();
    cpu.b = 0x5C;
    mem.write_byte(0x0100, 0xCB);
    mem.write_byte(0x0101, 0x30);
    assert_eq!(cpu.step(&mut mem), Ok(8));
    assert_eq!(cpu.b, 0xC5);
    assert!(!cpu.zero && !cpu.subtract && !cpu.half_carry && !cpu.carry);
}

#[test]
fn swap_through_hl_costs_more() {
    let (mut cpu, mut mem) = fresh();
    cpu.h = 0xC2;
    cpu.l = 0x00;
    mem.write_byte(0xC200, 0x1F);
    mem.write_byte(0x0100, 0xCB);
    mem.write_byte(0x0101, 0x36);
    assert_eq!(cpu.step(&mut mem), Ok(16));
    assert_eq!(mem.read_byte(0xC200), 0xF1);
    assert!(!cpu.zero);
}

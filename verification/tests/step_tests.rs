use lr35902_core::memory::Memory;
use lr35902_core::registers::Cpu;

fn fresh() -> (Cpu, Memory) {
    (Cpu::new(), Memory::new())
}

#[test]
fn power_on_nop() {
    let (mut cpu, mut mem) = fresh();
    // memory[0x100] is 0x00 (NOP) in a fresh bus
    let r = cpu.step(&mut mem);
    assert_eq!(r, Ok(4));
    assert_eq!(cpu.program_counter, 0x0101);
    assert_eq!(cpu.a, 0x01);
    assert_eq!(cpu.b, 0x00);
    assert_eq!(cpu.c, 0x13);
    assert_eq!(cpu.stack_pointer, 0xFFFE);
    assert!(cpu.zero && !cpu.subtract && cpu.half_carry && cpu.carry);
}

#[test]
fn xor_a_clears_accumulator() {
    let (mut cpu, mut mem) = fresh();
    cpu.a = 0x01;
    mem.write_byte(0x0100, 0xAF);
    let r = cpu.step(&mut mem);
    assert_eq!(r, Ok(4));
    assert_eq!(cpu.a, 0x00);
    assert!(cpu.zero);
    assert!(!cpu.subtract && !cpu.half_carry && !cpu.carry);
    assert_eq!(cpu.program_counter, 0x0101);
}

#[test]
fn absolute_jump() {
    let (mut cpu, mut mem) = fresh();
    mem.write_byte(0x0100, 0xC3);
    mem.write_byte(0x0101, 0x50);
    mem.write_byte(0x0102, 0x01);
    let r = cpu.step(&mut mem);
    assert_eq!(r, Ok(16));
    assert_eq!(cpu.program_counter, 0x0150);
}

#[test]
fn push_pop_round_trip() {
    let (mut cpu, mut mem) = fresh();
    cpu.b = 0x12;
    cpu.c = 0x34;
    cpu.stack_pointer = 0xFFFE;
    mem.write_byte(0x0100, 0xC5);  // push the BC pair
    mem.write_byte(0x0101, 0xC1);  // pop it back
    assert_eq!(cpu.step(&mut mem), Ok(16));
    assert_eq!(cpu.stack_pointer, 0xFFFC);
    assert_eq!(mem.read_byte(0xFFFD), 0x12);  // high byte at the higher address
    assert_eq!(mem.read_byte(0xFFFC), 0x34);  // low byte at the lower address
    cpu.b = 0;
    cpu.c = 0;
    assert_eq!(cpu.step(&mut mem), Ok(12));
    assert_eq!(cpu.b, 0x12);
    assert_eq!(cpu.c, 0x34);
    assert_eq!(cpu.stack_pointer, 0xFFFE);
}

#[test]
fn vblank_dispatch() {
    let (mut cpu, mut mem) = fresh();
    mem.write_byte(0xFF0F, 0x01);
    mem.write_byte(0xFFFF, 0x01);
    let r = cpu.step(&mut mem);
    assert_eq!(r, Ok(20));
    assert_eq!(mem.read_byte(0xFFFC), 0x00);  // old program counter, low byte
    assert_eq!(mem.read_byte(0xFFFD), 0x01);  // old program counter, high byte
    assert_eq!(cpu.program_counter, 0x0040);
    assert_eq!(mem.read_byte(0xFF0F), 0x00);
    assert!(!cpu.ime);
    assert_eq!(cpu.stack_pointer, 0xFFFC);
}

#[test]
fn interrupt_priority_highest_bit_wins() {
    let (mut cpu, mut mem) = fresh();
    mem.write_byte(0xFF0F, 0x05);  // VBlank and Timer both pending
    mem.write_byte(0xFFFF, 0x1F);  // everything enabled
    let r = cpu.step(&mut mem);
    assert_eq!(r, Ok(20));
    assert_eq!(cpu.program_counter, 0x0040);  // VBlank vector, not Timer's
    assert_eq!(mem.read_byte(0xFF0F), 0x04);  // only the VBlank bit cleared
}

#[test]
fn timer_dispatch_when_higher_bits_disabled() {
    let (mut cpu, mut mem) = fresh();
    mem.write_byte(0xFF0F, 0x05);
    mem.write_byte(0xFFFF, 0x04);  // only Timer enabled
    let r = cpu.step(&mut mem);
    assert_eq!(r, Ok(20));
    assert_eq!(cpu.program_counter, 0x0050);
    assert_eq!(mem.read_byte(0xFF0F), 0x01);
}

#[test]
fn no_dispatch_with_master_enable_off() {
    let (mut cpu, mut mem) = fresh();
    cpu.ime = false;
    mem.write_byte(0xFF0F, 0x01);
    mem.write_byte(0xFFFF, 0x01);
    let r = cpu.step(&mut mem);
    assert_eq!(r, Ok(4));  // the NOP at 0x0100 ran instead
    assert_eq!(cpu.program_counter, 0x0101);
    assert_eq!(mem.read_byte(0xFF0F), 0x01);  // nothing cleared
}

#[test]
fn enable_interrupts_is_delayed_one_instruction() {
    let (mut cpu, mut mem) = fresh();
    cpu.ime = false;
    mem.write_byte(0x0100, 0xFB);  // enable interrupts
    mem.write_byte(0x0101, 0x00);  // any other instruction
    assert_eq!(cpu.step(&mut mem), Ok(4));
    assert!(!cpu.ime);  // not yet
    assert!(cpu.enable_interrupts_pending);
    assert_eq!(cpu.step(&mut mem), Ok(4));
    assert!(cpu.ime);  // on only after the second instruction
}

#[test]
fn pending_interrupt_waits_out_the_enable_delay() {
    let (mut cpu, mut mem) = fresh();
    cpu.ime = false;
    mem.write_byte(0xFF0F, 0x01);
    mem.write_byte(0xFFFF, 0x01);
    mem.write_byte(0x0100, 0xFB);  // enable interrupts
    mem.write_byte(0x0101, 0x00);
    // The enable instruction itself: the master enable is still off.
    assert_eq!(cpu.step(&mut mem), Ok(4));
    assert!(!cpu.ime);
    // The following instruction still runs: the master enable turns on only
    // as this step begins, after the dispatch check has already seen it off.
    assert_eq!(cpu.step(&mut mem), Ok(4));
    assert!(cpu.ime);
    assert_eq!(cpu.program_counter, 0x0102);
    // Only now is the pending source serviced.
    assert_eq!(cpu.step(&mut mem), Ok(20));
    assert_eq!(cpu.program_counter, 0x0040);
    assert_eq!(mem.read_byte(0xFF0F), 0x00);
}

#[test]
fn disable_interrupts_is_immediate() {
    let (mut cpu, mut mem) = fresh();
    mem.write_byte(0x0100, 0xF3);
    assert_eq!(cpu.step(&mut mem), Ok(4));
    assert!(!cpu.ime);
}

#[test]
fn add_sets_half_carry_at_nibble_boundary() {
    let (mut cpu, mut mem) = fresh();
    cpu.a = 0x08;
    cpu.e = 0x08;
    mem.write_byte(0x0100, 0x83);
    assert_eq!(cpu.step(&mut mem), Ok(4));
    assert_eq!(cpu.a, 0x10);
    assert!(cpu.half_carry && !cpu.carry && !cpu.zero && !cpu.subtract);
}

#[test]
fn add_wraps_and_sets_carry() {
    let (mut cpu, mut mem) = fresh();
    cpu.a = 0xFF;
    cpu.e = 0x02;
    mem.write_byte(0x0100, 0x83);
    assert_eq!(cpu.step(&mut mem), Ok(4));
    assert_eq!(cpu.a, 0x01);
    assert!(cpu.carry && cpu.half_carry && !cpu.zero);
}

#[test]
fn adc_through_hl_includes_carry_in() {
    let (mut cpu, mut mem) = fresh();
    cpu.a = 0xFF;
    cpu.carry = true;
    cpu.h = 0xC0;
    cpu.l = 0x00;
    mem.write_byte(0xC000, 0x00);
    mem.write_byte(0x0100, 0x8E);
    assert_eq!(cpu.step(&mut mem), Ok(8));
    assert_eq!(cpu.a, 0x00);
    assert!(cpu.zero && cpu.carry && cpu.half_carry && !cpu.subtract);
}

#[test]
fn sbc_includes_borrow_in() {
    let (mut cpu, mut mem) = fresh();
    cpu.a = 0x10;
    cpu.c = 0x0F;
    cpu.carry = true;
    mem.write_byte(0x0100, 0x99);
    assert_eq!(cpu.step(&mut mem), Ok(4));
    assert_eq!(cpu.a, 0x00);
    assert!(cpu.zero && cpu.subtract && cpu.half_carry && !cpu.carry);
}

#[test]
fn increment_never_touches_carry() {
    let (mut cpu, mut mem) = fresh();
    cpu.a = 0x0F;
    cpu.carry = true;
    mem.write_byte(0x0100, 0x3C);
    assert_eq!(cpu.step(&mut mem), Ok(4));
    assert_eq!(cpu.a, 0x10);
    assert!(cpu.half_carry && cpu.carry && !cpu.zero && !cpu.subtract);
}

#[test]
fn decrement_sets_half_borrow() {
    let (mut cpu, mut mem) = fresh();
    cpu.b = 0x10;
    cpu.carry = false;
    mem.write_byte(0x0100, 0x05);
    assert_eq!(cpu.step(&mut mem), Ok(4));
    assert_eq!(cpu.b, 0x0F);
    assert!(cpu.half_carry && cpu.subtract && !cpu.zero && !cpu.carry);
}

#[test]
fn compare_sets_borrow_without_writing_accumulator() {
    let (mut cpu, mut mem) = fresh();
    cpu.a = 0x05;
    cpu.l = 0x06;
    mem.write_byte(0x0100, 0xBD);
    assert_eq!(cpu.step(&mut mem), Ok(4));
    assert_eq!(cpu.a, 0x05);
    assert!(cpu.carry && cpu.subtract && !cpu.zero);
}

#[test]
fn compare_immediate_equal_sets_zero() {
    let (mut cpu, mut mem) = fresh();
    cpu.a = 0x42;
    mem.write_byte(0x0100, 0xFE);
    mem.write_byte(0x0101, 0x42);
    assert_eq!(cpu.step(&mut mem), Ok(8));
    assert!(cpu.zero && cpu.subtract && !cpu.half_carry && !cpu.carry);
    assert_eq!(cpu.program_counter, 0x0102);
}

#[test]
fn add_hl_pair_uses_hardware_boundaries() {
    let (mut cpu, mut mem) = fresh();
    cpu.h = 0x0F;
    cpu.l = 0xFF;
    cpu.b = 0x00;
    cpu.c = 0x01;
    mem.write_byte(0x0100, 0x09);
    assert_eq!(cpu.step(&mut mem), Ok(8));
    assert_eq!((cpu.h, cpu.l), (0x10, 0x00));
    assert!(cpu.half_carry && !cpu.carry && !cpu.subtract);

    let (mut cpu, mut mem) = fresh();
    cpu.h = 0xFF;
    cpu.l = 0xFF;
    cpu.b = 0x00;
    cpu.c = 0x01;
    mem.write_byte(0x0100, 0x09);
    assert_eq!(cpu.step(&mut mem), Ok(8));
    assert_eq!((cpu.h, cpu.l), (0x00, 0x00));
    assert!(cpu.half_carry && cpu.carry);
}

#[test]
fn relative_jump_negative_offset() {
    let (mut cpu, mut mem) = fresh();
    mem.write_byte(0x0100, 0x18);
    mem.write_byte(0x0101, 0xFE);  // minus two
    assert_eq!(cpu.step(&mut mem), Ok(12));
    assert_eq!(cpu.program_counter, 0x0100);
}

#[test]
fn conditional_relative_jump_costs() {
    let (mut cpu, mut mem) = fresh();
    cpu.zero = true;
    mem.write_byte(0x0100, 0x20);
    mem.write_byte(0x0101, 0x05);
    assert_eq!(cpu.step(&mut mem), Ok(8));  // not taken
    assert_eq!(cpu.program_counter, 0x0102);

    let (mut cpu, mut mem) = fresh();
    cpu.zero = false;
    mem.write_byte(0x0100, 0x20);
    mem.write_byte(0x0101, 0x05);
    assert_eq!(cpu.step(&mut mem), Ok(12));  // taken
    assert_eq!(cpu.program_counter, 0x0107);
}

#[test]
fn call_then_return() {
    let (mut cpu, mut mem) = fresh();
    mem.write_byte(0x0100, 0xCD);
    mem.write_byte(0x0101, 0x00);
    mem.write_byte(0x0102, 0x02);
    mem.write_byte(0x0200, 0xC9);
    assert_eq!(cpu.step(&mut mem), Ok(24));
    assert_eq!(cpu.program_counter, 0x0200);
    assert_eq!(cpu.stack_pointer, 0xFFFC);
    assert_eq!(mem.read_short(0xFFFC), 0x0103);
    assert_eq!(cpu.step(&mut mem), Ok(16));
    assert_eq!(cpu.program_counter, 0x0103);
    assert_eq!(cpu.stack_pointer, 0xFFFE);
}

#[test]
fn conditional_return_costs() {
    let (mut cpu, mut mem) = fresh();
    cpu.zero = true;
    mem.write_byte(0x0100, 0xC0);
    assert_eq!(cpu.step(&mut mem), Ok(8));
    assert_eq!(cpu.program_counter, 0x0101);

    let (mut cpu, mut mem) = fresh();
    cpu.zero = false;
    cpu.stack_pointer = 0xFFFC;
    mem.write_byte(0xFFFC, 0x22);
    mem.write_byte(0xFFFD, 0x11);
    mem.write_byte(0x0100, 0xC0);
    assert_eq!(cpu.step(&mut mem), Ok(20));
    assert_eq!(cpu.program_counter, 0x1122);
    assert_eq!(cpu.stack_pointer, 0xFFFE);
}

#[test]
fn swap_exchanges_nibbles() {
    let (mut cpu, mut mem) = fresh();
    cpu.a = 0xAB;
    mem.write_byte(0x0100, 0xCB);
    mem.write_byte(0x0101, 0x37);
    assert_eq!(cpu.step(&mut mem), Ok(8));
    assert_eq!(cpu.a, 0xBA);
    assert!(!cpu.zero && !cpu.subtract && !cpu.half_carry && !cpu.carry);
    assert_eq!(cpu.program_counter, 0x0102);
}

#[test]
fn swap_of_zero_sets_zero() {
    let (mut cpu, mut mem) = fresh();
    cpu.a = 0x00;
    mem.write_byte(0x0100, 0xCB);
    mem.write_byte(0x0101, 0x37);
    assert_eq!(cpu.step(&mut mem), Ok(8));
    assert_eq!(cpu.a, 0x00);
    assert!(cpu.zero);
}

#[test]
fn rotate_left_folds_old_carry_into_bit_zero() {
    let (mut cpu, mut mem) = fresh();
    cpu.a = 0x80;
    cpu.carry = true;
    mem.write_byte(0x0100, 0x07);
    assert_eq!(cpu.step(&mut mem), Ok(4));
    assert_eq!(cpu.a, 0x01);  // old carry into bit zero, top bit out
    assert!(cpu.carry && !cpu.zero && !cpu.subtract && !cpu.half_carry);

    let (mut cpu, mut mem) = fresh();
    cpu.a = 0x40;
    cpu.carry = false;
    mem.write_byte(0x0100, 0x07);
    assert_eq!(cpu.step(&mut mem), Ok(4));
    assert_eq!(cpu.a, 0x80);
    assert!(!cpu.carry);
}

#[test]
fn complement_accumulator() {
    let (mut cpu, mut mem) = fresh();
    cpu.a = 0x0F;
    cpu.zero = false;
    cpu.carry = true;
    mem.write_byte(0x0100, 0x2F);
    assert_eq!(cpu.step(&mut mem), Ok(4));
    assert_eq!(cpu.a, 0xF0);
    assert!(cpu.subtract && cpu.half_carry);
    assert!(!cpu.zero && cpu.carry);  // untouched
}

#[test]
fn store_through_decremented_hl_writes_memory() {
    let (mut cpu, mut mem) = fresh();
    cpu.a = 0x77;
    cpu.h = 0xC0;
    cpu.l = 0x00;
    mem.write_byte(0x0100, 0x32);
    assert_eq!(cpu.step(&mut mem), Ok(8));
    assert_eq!(mem.read_byte(0xC000), 0x77);
    assert_eq!((cpu.h, cpu.l), (0xBF, 0xFF));
}

#[test]
fn increment_through_hl_writes_memory() {
    let (mut cpu, mut mem) = fresh();
    cpu.h = 0xC0;
    cpu.l = 0x10;
    mem.write_byte(0xC010, 0xFF);
    mem.write_byte(0x0100, 0x34);
    assert_eq!(cpu.step(&mut mem), Ok(12));
    assert_eq!(mem.read_byte(0xC010), 0x00);
    assert!(cpu.zero && cpu.half_carry && !cpu.subtract);
}

#[test]
fn high_page_store_and_load() {
    let (mut cpu, mut mem) = fresh();
    cpu.a = 0x5A;
    mem.write_byte(0x0100, 0xE0);
    mem.write_byte(0x0101, 0x80);
    assert_eq!(cpu.step(&mut mem), Ok(12));
    assert_eq!(mem.read_byte(0xFF80), 0x5A);
    cpu.a = 0x00;
    mem.write_byte(0x0102, 0xF0);
    mem.write_byte(0x0103, 0x80);
    assert_eq!(cpu.step(&mut mem), Ok(12));
    assert_eq!(cpu.a, 0x5A);
}

#[test]
fn pop_af_discards_low_nibble_of_flags() {
    let (mut cpu, mut mem) = fresh();
    cpu.b = 0x12;
    cpu.c = 0x3F;
    mem.write_byte(0x0100, 0xC5);  // push the BC pair
    mem.write_byte(0x0101, 0xF1);  // pop into accumulator and flags
    mem.write_byte(0x0102, 0xF5);  // push them back
    mem.write_byte(0x0103, 0xC1);  // and pop into BC
    assert_eq!(cpu.step(&mut mem), Ok(16));
    assert_eq!(cpu.step(&mut mem), Ok(12));
    assert_eq!(cpu.a, 0x12);
    assert!(!cpu.zero && !cpu.subtract && cpu.half_carry && cpu.carry);
    assert_eq!(cpu.step(&mut mem), Ok(16));
    assert_eq!(cpu.step(&mut mem), Ok(12));
    assert_eq!(cpu.b, 0x12);
    assert_eq!(cpu.c, 0x30);  // flag register's low nibble is always zero
}

#[test]
fn load_immediate_pair_and_indirect_load() {
    let (mut cpu, mut mem) = fresh();
    mem.write_byte(0x0100, 0x21);  // load HL with a 16-bit immediate
    mem.write_byte(0x0101, 0x34);
    mem.write_byte(0x0102, 0xC2);
    mem.write_byte(0xC234, 0x99);
    mem.write_byte(0x0103, 0x7E);  // load accumulator through HL
    assert_eq!(cpu.step(&mut mem), Ok(12));
    assert_eq!((cpu.h, cpu.l), (0xC2, 0x34));
    assert_eq!(cpu.step(&mut mem), Ok(8));
    assert_eq!(cpu.a, 0x99);
}

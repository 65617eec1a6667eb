use chip8::cpu::CPU;
use chip8::decode::Instruction;

const FLAG: u8 = 15;

fn fresh() -> CPU {
    CPU::new(Vec::new())
}

fn run(cpu: &mut CPU, b0: u8, b1: u8) {
    cpu.process_instruction(Instruction::new(b0, b1)).unwrap();
}

#[test]
fn set_register_literal() {
    let mut cpu = fresh();
    run(&mut cpu, 0x6A, 0x42);
    assert_eq!(cpu.register(0xA), 0x42);
    assert_eq!(cpu.pc(), 0x202);
}

#[test]
fn add_into_register_wraps_modulo_256() {
    let mut cpu = fresh();
    run(&mut cpu, 0x6F, 0x05); // park a value in the flag register
    run(&mut cpu, 0x60, 0xFF);
    run(&mut cpu, 0x70, 0x02);
    assert_eq!(cpu.register(0), 0x01);
    assert_eq!(cpu.register(FLAG), 0x05); // no flag change
    assert_eq!(cpu.pc(), 0x206);
}

#[test]
fn add_into_register_no_wrap() {
    let mut cpu = fresh();
    run(&mut cpu, 0x60, 0x10);
    run(&mut cpu, 0x70, 0x05);
    assert_eq!(cpu.register(0), 0x15);
    assert_eq!(cpu.register(FLAG), 0x00);
}

#[test]
fn add_register_with_carry_sets_flag() {
    let mut cpu = fresh();
    run(&mut cpu, 0x60, 0xFF);
    run(&mut cpu, 0x61, 0x01);
    run(&mut cpu, 0x80, 0x14);
    assert_eq!(cpu.register(0), 0x00);
    assert_eq!(cpu.register(FLAG), 1);
}

#[test]
fn add_register_without_carry_clears_flag() {
    let mut cpu = fresh();
    run(&mut cpu, 0x60, 0x01);
    run(&mut cpu, 0x61, 0x02);
    run(&mut cpu, 0x80, 0x14);
    assert_eq!(cpu.register(0), 0x03);
    assert_eq!(cpu.register(FLAG), 0);
}

#[test]
fn subtraction_borrows_and_wraps() {
    let mut cpu = fresh();
    run(&mut cpu, 0x60, 0x01);
    run(&mut cpu, 0x61, 0x02);
    run(&mut cpu, 0x80, 0x15);
    assert_eq!(cpu.register(0), 0xFF);
    assert_eq!(cpu.register(FLAG), 0);
}

#[test]
fn subtraction_without_borrow_sets_flag() {
    let mut cpu = fresh();
    run(&mut cpu, 0x60, 0x05);
    run(&mut cpu, 0x61, 0x03);
    run(&mut cpu, 0x80, 0x15);
    assert_eq!(cpu.register(0), 0x02);
    assert_eq!(cpu.register(FLAG), 1);
}

#[test]
fn reversed_subtraction_stores_into_second_register() {
    let mut cpu = fresh();
    run(&mut cpu, 0x60, 0x02);
    run(&mut cpu, 0x61, 0x05);
    run(&mut cpu, 0x80, 0x17);
    assert_eq!(cpu.register(1), 0x03);
    assert_eq!(cpu.register(0), 0x02);
    assert_eq!(cpu.register(FLAG), 1);
}

#[test]
fn copy_and_bitwise_register_ops() {
    let mut cpu = fresh();
    run(&mut cpu, 0x60, 0b1100);
    run(&mut cpu, 0x61, 0b1010);
    run(&mut cpu, 0x82, 0x00); // V2 = V0
    assert_eq!(cpu.register(2), 0b1100);
    run(&mut cpu, 0x80, 0x11); // V0 |= V1
    assert_eq!(cpu.register(0), 0b1110);
    run(&mut cpu, 0x60, 0b1100);
    run(&mut cpu, 0x80, 0x12); // V0 &= V1
    assert_eq!(cpu.register(0), 0b1000);
    run(&mut cpu, 0x60, 0b1100);
    run(&mut cpu, 0x80, 0x13); // V0 ^= V1
    assert_eq!(cpu.register(0), 0b0110);
}

#[test]
fn shifts_ignore_second_operand() {
    let mut cpu = fresh();
    run(&mut cpu, 0x60, 0x05);
    run(&mut cpu, 0x61, 0xFF);
    run(&mut cpu, 0x80, 0x16); // V0 >>= 1
    assert_eq!(cpu.register(0), 0x02);
    run(&mut cpu, 0x60, 0x81);
    run(&mut cpu, 0x80, 0x1E); // V0 <<= 1, high bit falls off
    assert_eq!(cpu.register(0), 0x02);
}

#[test]
fn skip_on_equal_literal() {
    let mut cpu = fresh();
    run(&mut cpu, 0x60, 0x07);
    let base = cpu.pc();
    run(&mut cpu, 0x30, 0x07); // equal: skip
    assert_eq!(cpu.pc(), base + 4);
    run(&mut cpu, 0x30, 0x08); // not equal: no skip
    assert_eq!(cpu.pc(), base + 6);
}

#[test]
fn skip_on_not_equal_literal() {
    let mut cpu = fresh();
    run(&mut cpu, 0x60, 0x07);
    let base = cpu.pc();
    run(&mut cpu, 0x40, 0x08); // not equal: skip
    assert_eq!(cpu.pc(), base + 4);
    run(&mut cpu, 0x40, 0x07); // equal: no skip
    assert_eq!(cpu.pc(), base + 6);
}

#[test]
fn skip_on_register_comparisons() {
    let mut cpu = fresh();
    run(&mut cpu, 0x60, 0x07);
    run(&mut cpu, 0x61, 0x07);
    run(&mut cpu, 0x62, 0x08);
    let base = cpu.pc();
    run(&mut cpu, 0x50, 0x10); // V0 == V1: skip
    assert_eq!(cpu.pc(), base + 4);
    run(&mut cpu, 0x50, 0x20); // V0 != V2: no skip
    assert_eq!(cpu.pc(), base + 6);
    run(&mut cpu, 0x90, 0x20); // V0 != V2: skip
    assert_eq!(cpu.pc(), base + 10);
    run(&mut cpu, 0x90, 0x10); // V0 == V1: no skip
    assert_eq!(cpu.pc(), base + 12);
}

#[test]
fn jump_sets_pc() {
    let mut cpu = fresh();
    run(&mut cpu, 0x1A, 0xBC);
    assert_eq!(cpu.pc(), 0xABC);
}

#[test]
fn jump_with_offset_is_relative_to_pc() {
    let mut cpu = fresh();
    run(&mut cpu, 0x60, 0x05);
    // pc is now 0x202; B010 adds 0x010 + V0 to it.
    run(&mut cpu, 0xB0, 0x10);
    assert_eq!(cpu.pc(), 0x202 + 0x010 + 0x005);
}

#[test]
fn random_byte_is_masked() {
    let mut cpu = fresh();
    run(&mut cpu, 0x60, 0xFF);
    run(&mut cpu, 0xC0, 0x00); // mask 0: result must be 0
    assert_eq!(cpu.register(0), 0);
    run(&mut cpu, 0xC1, 0x0F);
    let r = cpu.register(1);
    assert_eq!(r & 0xF0, 0, "masked random byte {r:#x} exceeds its mask");
}

#[test]
fn key_skips_are_stubbed_to_no_skip() {
    let mut cpu = fresh();
    let base = cpu.pc();
    run(&mut cpu, 0xE0, 0x9E);
    assert_eq!(cpu.pc(), base + 2);
    run(&mut cpu, 0xE0, 0xA1);
    assert_eq!(cpu.pc(), base + 4);
}

#[test]
fn wait_for_key_is_stubbed() {
    let mut cpu = fresh();
    let base = cpu.pc();
    run(&mut cpu, 0xF0, 0x0A);
    assert_eq!(cpu.pc(), base + 2);
}

#[test]
fn timers_are_set_and_read() {
    let mut cpu = fresh();
    run(&mut cpu, 0x60, 0x2A);
    run(&mut cpu, 0xF0, 0x15); // delay = V0
    assert_eq!(cpu.delay_timer(), 0x2A);
    run(&mut cpu, 0xF1, 0x07); // V1 = delay
    assert_eq!(cpu.register(1), 0x2A);
    run(&mut cpu, 0x60, 0x11);
    run(&mut cpu, 0xF0, 0x18); // sound = V0
    assert_eq!(cpu.sound_timer(), 0x11);
}

#[test]
fn index_register_loads_and_accumulates() {
    let mut cpu = fresh();
    run(&mut cpu, 0xA1, 0x23);
    assert_eq!(cpu.index_register(), 0x123);
    run(&mut cpu, 0x60, 0x10);
    run(&mut cpu, 0xF0, 0x1E); // I += V0
    assert_eq!(cpu.index_register(), 0x133);
}

#[test]
fn index_register_points_at_register_value() {
    let mut cpu = fresh();
    run(&mut cpu, 0x60, 0x07);
    run(&mut cpu, 0xF0, 0x29);
    assert_eq!(cpu.index_register(), 0x007);
}

#[test]
fn binary_coded_decimal() {
    let mut cpu = fresh();
    run(&mut cpu, 0x60, 234);
    run(&mut cpu, 0xA3, 0x00);
    run(&mut cpu, 0xF0, 0x33);
    assert_eq!(cpu.memory_byte(0x300), 2);
    assert_eq!(cpu.memory_byte(0x301), 3);
    assert_eq!(cpu.memory_byte(0x302), 4);
}

#[test]
fn binary_coded_decimal_wraps_addresses() {
    let mut cpu = fresh();
    run(&mut cpu, 0x60, 7);
    run(&mut cpu, 0xAF, 0xFF); // I = 0xFFF, the last address
    run(&mut cpu, 0xF0, 0x33);
    assert_eq!(cpu.memory_byte(0xFFF), 0);
    assert_eq!(cpu.memory_byte(0x000), 0); // was font data, overwritten
    assert_eq!(cpu.memory_byte(0x001), 7);
}

#[test]
fn store_memory_honours_bound() {
    let mut cpu = fresh();
    run(&mut cpu, 0x60, 0x0A);
    run(&mut cpu, 0x61, 0x0B);
    run(&mut cpu, 0x62, 0x0C);
    run(&mut cpu, 0x63, 0x0D);
    run(&mut cpu, 0x64, 0x0E);
    run(&mut cpu, 0xA4, 0x00);
    run(&mut cpu, 0xF3, 0x55); // store V0..=V3
    assert_eq!(cpu.memory_byte(0x400), 0x0A);
    assert_eq!(cpu.memory_byte(0x401), 0x0B);
    assert_eq!(cpu.memory_byte(0x402), 0x0C);
    assert_eq!(cpu.memory_byte(0x403), 0x0D);
    assert_eq!(cpu.memory_byte(0x404), 0x00); // V4 not stored
    assert_eq!(cpu.index_register(), 0x400); // I does not move
}

#[test]
fn load_memory_fills_all_sixteen_registers() {
    let mut cpu = fresh();
    // Font data at address 0: 16 known bytes.
    run(&mut cpu, 0xA0, 0x00);
    run(&mut cpu, 0xF0, 0x65); // bound 0, but every register is filled
    assert_eq!(cpu.register(0), 0xF0);
    assert_eq!(cpu.register(1), 0x90);
    assert_eq!(cpu.register(4), 0xF0);
    assert_eq!(cpu.register(5), 0x20);
    assert_eq!(cpu.register(15), 0xF0);
}

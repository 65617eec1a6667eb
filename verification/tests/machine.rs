use chip8::cpu::{CPU, VmFault};
use chip8::decode::Instruction;

const FLAG: u8 = 15;

fn run(cpu: &mut CPU, b0: u8, b1: u8) {
    cpu.process_instruction(Instruction::new(b0, b1)).unwrap();
}

#[test]
fn construction_loads_fonts_and_rom() {
    let cpu = CPU::new(vec![0x12, 0x34, 0x56]);
    assert_eq!(cpu.pc(), 0x200);
    assert_eq!(cpu.index_register(), 0);
    assert_eq!(cpu.delay_timer(), 0);
    assert_eq!(cpu.sound_timer(), 0);
    assert_eq!(cpu.stack_depth(), 0);
    for i in 0..16 {
        assert_eq!(cpu.register(i), 0);
    }
    // Glyph data at the bottom of memory.
    assert_eq!(cpu.memory_byte(0), 0xF0);
    assert_eq!(cpu.memory_byte(1), 0x90);
    assert_eq!(cpu.memory_byte(79), 0x80);
    // Zero between the glyphs and the program.
    assert_eq!(cpu.memory_byte(80), 0x00);
    assert_eq!(cpu.memory_byte(0x1FF), 0x00);
    // The program image.
    assert_eq!(cpu.memory_byte(0x200), 0x12);
    assert_eq!(cpu.memory_byte(0x201), 0x34);
    assert_eq!(cpu.memory_byte(0x202), 0x56);
    assert_eq!(cpu.memory_byte(0x203), 0x00);
    // A blank framebuffer.
    for y in 0..32 {
        for x in 0..64 {
            assert!(!cpu.pixel(x, y));
        }
    }
}

#[test]
fn construction_accepts_largest_rom() {
    let cpu = CPU::new(vec![0xAB; 4096 - 512]);
    assert_eq!(cpu.memory_byte(0x200), 0xAB);
    assert_eq!(cpu.memory_byte(0xFFF), 0xAB);
    assert_eq!(cpu.memory_byte(0x1FF), 0x00);
}

#[test]
fn step_fetches_at_pc() {
    let mut cpu = CPU::new(vec![0x6A, 0x55, 0x12, 0x00]);
    cpu.step().unwrap();
    assert_eq!(cpu.register(0xA), 0x55);
    assert_eq!(cpu.pc(), 0x202);
    cpu.step().unwrap(); // 1200: jump back to the start
    assert_eq!(cpu.pc(), 0x200);
}

#[test]
fn call_then_return_resumes_after_call_site() {
    // CALL 0x300 sits at 0x200.
    let mut cpu = CPU::new(vec![0x03, 0x00]);
    cpu.step().unwrap();
    assert_eq!(cpu.pc(), 0x300);
    assert_eq!(cpu.stack_depth(), 1);
    run(&mut cpu, 0x00, 0xEE);
    assert_eq!(cpu.pc(), 0x202);
    assert_eq!(cpu.stack_depth(), 0);
}

#[test]
fn nested_calls_unwind_in_order() {
    let mut cpu = CPU::new(Vec::new());
    run(&mut cpu, 0x03, 0x00); // call 0x300 from 0x200
    run(&mut cpu, 0x04, 0x00); // call 0x400 from 0x300
    assert_eq!(cpu.stack_depth(), 2);
    run(&mut cpu, 0x00, 0xEE);
    assert_eq!(cpu.pc(), 0x302);
    run(&mut cpu, 0x00, 0xEE);
    assert_eq!(cpu.pc(), 0x202);
}

#[test]
fn return_on_empty_stack_is_the_fatal_fault() {
    let mut cpu = CPU::new(Vec::new());
    let r = cpu.process_instruction(Instruction::new(0x00, 0xEE));
    assert_eq!(r, Err(VmFault::EmptyStackReturn));
    // Nothing changed.
    assert_eq!(cpu.pc(), 0x200);
    assert_eq!(cpu.stack_depth(), 0);
}

#[test]
fn draw_puts_sprite_rows_on_screen() {
    let mut cpu = CPU::new(Vec::new());
    // I = 0: glyph "0" (F0 90 90 90 F0), drawn at (0, 0), 5 rows.
    run(&mut cpu, 0xA0, 0x00);
    run(&mut cpu, 0xD0, 0x15);
    // Top row 0xF0: the four leftmost pixels on, the rest off.
    for x in 0..4 {
        assert!(cpu.pixel(x, 0));
    }
    for x in 4..8 {
        assert!(!cpu.pixel(x, 0));
    }
    // Second row 0x90: pixels 0 and 3.
    assert!(cpu.pixel(0, 1));
    assert!(!cpu.pixel(1, 1));
    assert!(!cpu.pixel(2, 1));
    assert!(cpu.pixel(3, 1));
    // Nothing below the last row.
    for x in 0..8 {
        assert!(!cpu.pixel(x, 5));
    }
}

#[test]
fn draw_wraps_coordinates() {
    let mut cpu = CPU::new(Vec::new());
    run(&mut cpu, 0xA0, 0x00); // glyph "0"
    run(&mut cpu, 0x60, 62); // x position: two pixels from the right edge
    run(&mut cpu, 0x61, 31); // y position: the last row
    run(&mut cpu, 0xD0, 0x12);
    // Row 0 (0xF0) lands on screen row 31, columns 62, 63, 0, 1.
    assert!(cpu.pixel(62, 31));
    assert!(cpu.pixel(63, 31));
    assert!(cpu.pixel(0, 31));
    assert!(cpu.pixel(1, 31));
    // Row 1 (0x90) wraps to screen row 0: columns 62 and 1.
    assert!(cpu.pixel(62, 0));
    assert!(!cpu.pixel(63, 0));
    assert!(!cpu.pixel(0, 0));
    assert!(cpu.pixel(1, 0));
}

#[test]
fn drawing_twice_restores_every_pixel() {
    let mut cpu = CPU::new(Vec::new());
    run(&mut cpu, 0xA0, 0x00);
    run(&mut cpu, 0x60, 10);
    run(&mut cpu, 0x61, 7);
    run(&mut cpu, 0xD0, 0x15);
    assert!(cpu.pixel(10, 7));
    run(&mut cpu, 0xD0, 0x15);
    for y in 0..32 {
        for x in 0..64 {
            assert!(!cpu.pixel(x, y), "pixel ({x}, {y}) still set after the second draw");
        }
    }
}

#[test]
fn draw_collision_flag_reflects_last_pixel() {
    let mut cpu = CPU::new(Vec::new());
    // Store 0xFF at 0x400 and use it as a one-row sprite.
    run(&mut cpu, 0x60, 0xFF);
    run(&mut cpu, 0xA4, 0x00);
    run(&mut cpu, 0xF0, 0x55);
    run(&mut cpu, 0x60, 0x00);
    run(&mut cpu, 0xD0, 0x11); // first draw on a blank row: no collision
    assert_eq!(cpu.register(FLAG), 0);
    assert!(cpu.pixel(7, 0));
    run(&mut cpu, 0xD0, 0x11); // second draw erases it: the last pixel collides
    assert_eq!(cpu.register(FLAG), 1);
    assert!(!cpu.pixel(7, 0));
}

#[test]
fn draw_of_zero_rows_changes_nothing() {
    let mut cpu = CPU::new(Vec::new());
    run(&mut cpu, 0x6F, 0x07); // park a value in the flag register's slot
    let before = cpu.register(FLAG);
    run(&mut cpu, 0xD0, 0x10);
    assert_eq!(cpu.register(FLAG), before);
    for y in 0..32 {
        for x in 0..64 {
            assert!(!cpu.pixel(x, y));
        }
    }
}

#[test]
fn clear_screen_turns_every_pixel_off() {
    let mut cpu = CPU::new(Vec::new());
    run(&mut cpu, 0xA0, 0x00);
    run(&mut cpu, 0xD0, 0x15);
    run(&mut cpu, 0x62, 40);
    run(&mut cpu, 0x63, 20);
    run(&mut cpu, 0xD2, 0x33);
    run(&mut cpu, 0x00, 0xE0);
    for y in 0..32 {
        for x in 0..64 {
            assert!(!cpu.pixel(x, y), "pixel ({x}, {y}) survived the clear");
        }
    }
}

#[test]
fn unrecognized_opcode_only_advances_pc() {
    let mut cpu = CPU::new(vec![0x77, 0x01]);
    run(&mut cpu, 0x60, 0x09);
    run(&mut cpu, 0xA1, 0x23);
    let pc = cpu.pc();
    for (b0, b1) in [(0x50u8, 0x01u8), (0x20, 0x00), (0x80, 0x08), (0xE0, 0x00), (0xF0, 0xFF)] {
        let before_regs: Vec<u8> = (0..16).map(|i| cpu.register(i)).collect();
        let before_mem = (cpu.memory_byte(0), cpu.memory_byte(0x200), cpu.memory_byte(0xFFF));
        let pc_before = cpu.pc();
        run(&mut cpu, b0, b1);
        assert_eq!(cpu.pc(), pc_before + 2, "pattern {b0:02X}{b1:02X}");
        let after_regs: Vec<u8> = (0..16).map(|i| cpu.register(i)).collect();
        assert_eq!(before_regs, after_regs);
        assert_eq!(
            before_mem,
            (cpu.memory_byte(0), cpu.memory_byte(0x200), cpu.memory_byte(0xFFF)),
        );
        assert_eq!(cpu.index_register(), 0x123);
        assert_eq!(cpu.stack_depth(), 0);
        for y in 0..32 {
            for x in 0..64 {
                assert!(!cpu.pixel(x, y));
            }
        }
    }
    assert_eq!(cpu.pc(), pc + 10);
}

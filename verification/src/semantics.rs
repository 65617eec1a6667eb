//! The machine model: an abstract state and, for every instruction of the
//! opcode table, a function from state to state.
//!
//! Every executable handler of the interpreter is verified against exactly
//! one of these functions, and the dispatch engine against [`spec_step`].
//!
//! Two hardening choices are made here, where the architecture leaves the
//! behaviour open, and both are deliberate:
//! - the program counter and the index register are 16-bit values with
//!   wraparound arithmetic, and every memory access derived from them is
//!   reduced modulo the memory size, so no instruction can address memory
//!   out of range;
//! - the flag register is slot 15, the architectural convention, and the
//!   register file has the full 16 slots.

use vstd::prelude::*;
use vstd::arithmetic::div_mod::{
    lemma_fundamental_div_mod, lemma_mod_multiples_vanish, lemma_small_mod,
};
use crate::decode::Instruction;

verus! {

/// Bytes of addressable memory.
pub const MEMORY_SIZE: usize = 4096;

/// Number of general-purpose registers.
pub const REGISTER_COUNT: usize = 16;

/// The register slot that carry, borrow and sprite collision are reported in.
pub const FLAG_REGISTER: usize = 15;

/// Pixels in one framebuffer row.
pub const SCREEN_WIDTH: usize = 64;

/// Rows of the framebuffer.
pub const SCREEN_HEIGHT: usize = 32;

/// Pixels of the whole framebuffer, row-major.
pub const PIXEL_COUNT: usize = 2048;

/// Address that execution starts at and that the program image is loaded at.
pub const PROGRAM_START: u16 = 512;

/// Bytes of one encoded instruction.
pub const INSTRUCTION_SIZE: u16 = 2;

/// The interpreter state as mathematics: the program counter, the register
/// file, the index register, the two countdown timers, the memory image, the
/// call-return stack, and the framebuffer (row-major, `y * 64 + x`).
#[verifier::ext_equal]
pub struct State {
    pub pc: u16,
    pub registers: Seq<u8>,
    pub index_register: u16,
    pub delay_timer: u8,
    pub sound_timer: u8,
    pub memory: Seq<u8>,
    pub stack: Seq<u16>,
    pub pixels: Seq<bool>,
}

impl State {
    /// The fixed sizes of the machine: 16 registers, 4096 bytes of memory,
    /// 64 x 32 pixels.
    pub open spec fn wf(self) -> bool {
        &&& self.registers.len() == REGISTER_COUNT
        &&& self.memory.len() == MEMORY_SIZE
        &&& self.pixels.len() == PIXEL_COUNT
    }
}

/// 16-bit wraparound.
pub open spec fn wrap16(a: int) -> u16 {
    (a % 0x10000) as u16
}

/// 8-bit wraparound.
pub open spec fn wrap8(a: int) -> u8 {
    (a % 256) as u8
}

/// The program counter advanced past one instruction.
pub open spec fn next_pc(pc: u16) -> u16 {
    wrap16(pc + INSTRUCTION_SIZE)
}

/// The memory address `off` bytes past `base`, reduced into range.
pub open spec fn mem_addr(base: u16, off: int) -> int {
    (base + off) % (MEMORY_SIZE as int)
}

/// The framebuffer with every pixel off.
pub open spec fn blank_pixels() -> Seq<bool> {
    Seq::new(PIXEL_COUNT as nat, |k: int| false)
}

/// `00E0` - clear all framebuffer pixels.
pub open spec fn spec_clear_screen(pre: State) -> State {
    State { pixels: blank_pixels(), pc: next_pc(pre.pc), ..pre }
}

/// `00EE` - pop the stack into the program counter; `None` (the one fatal
/// condition of the machine) if the stack is empty.
pub open spec fn spec_return(pre: State) -> Option<State> {
    if pre.stack.len() == 0 {
        None
    } else {
        Some(State { pc: pre.stack.last(), stack: pre.stack.drop_last(), ..pre })
    }
}

/// `0nnn` - call a subroutine: push the address of the next instruction,
/// jump to `nnn`.
pub open spec fn spec_call_subroutine(pre: State, location: u16) -> State {
    State { stack: pre.stack.push(next_pc(pre.pc)), pc: location, ..pre }
}

/// `1nnn` - unconditional jump.
pub open spec fn spec_jump(pre: State, location: u16) -> State {
    State { pc: location, ..pre }
}

/// `6xnn` - load an immediate into a register.
pub open spec fn spec_set_register_literal(pre: State, x: u8, nn: u8) -> State {
    State { registers: pre.registers.update(x as int, nn), pc: next_pc(pre.pc), ..pre }
}

/// `7xnn` - add an immediate into a register, 8-bit wraparound, no flag
/// effect.
pub open spec fn spec_add_into_register(pre: State, x: u8, nn: u8) -> State {
    State {
        registers: pre.registers.update(x as int, wrap8(pre.registers[x as int] + nn)),
        pc: next_pc(pre.pc),
        ..pre
    }
}

/// `3xnn` - skip the next instruction iff the register equals the immediate.
pub open spec fn spec_skip_on_equal(pre: State, x: u8, nn: u8) -> State {
    State {
        pc: if pre.registers[x as int] == nn {
            wrap16(pre.pc + 2 * INSTRUCTION_SIZE)
        } else {
            next_pc(pre.pc)
        },
        ..pre
    }
}

/// `4xnn` - skip iff the register differs from the immediate.
pub open spec fn spec_skip_on_not_equal(pre: State, x: u8, nn: u8) -> State {
    State {
        pc: if pre.registers[x as int] != nn {
            wrap16(pre.pc + 2 * INSTRUCTION_SIZE)
        } else {
            next_pc(pre.pc)
        },
        ..pre
    }
}

/// `5xy0` - skip iff the two registers are equal.
pub open spec fn spec_skip_on_equal_register(pre: State, x: u8, y: u8) -> State {
    State {
        pc: if pre.registers[x as int] == pre.registers[y as int] {
            wrap16(pre.pc + 2 * INSTRUCTION_SIZE)
        } else {
            next_pc(pre.pc)
        },
        ..pre
    }
}

/// `9xy0` - skip iff the two registers differ.
pub open spec fn spec_skip_on_not_equal_register(pre: State, x: u8, y: u8) -> State {
    State {
        pc: if pre.registers[x as int] != pre.registers[y as int] {
            wrap16(pre.pc + 2 * INSTRUCTION_SIZE)
        } else {
            next_pc(pre.pc)
        },
        ..pre
    }
}

/// `8xy0` - copy one register into another.
pub open spec fn spec_set_register(pre: State, x: u8, y: u8) -> State {
    State {
        registers: pre.registers.update(x as int, pre.registers[y as int]),
        pc: next_pc(pre.pc),
        ..pre
    }
}

/// `8xy1` - bitwise OR into the first register.
pub open spec fn spec_binary_or(pre: State, x: u8, y: u8) -> State {
    State {
        registers: pre.registers.update(
            x as int,
            pre.registers[x as int] | pre.registers[y as int],
        ),
        pc: next_pc(pre.pc),
        ..pre
    }
}

/// `8xy2` - bitwise AND into the first register.
pub open spec fn spec_binary_and(pre: State, x: u8, y: u8) -> State {
    State {
        registers: pre.registers.update(
            x as int,
            pre.registers[x as int] & pre.registers[y as int],
        ),
        pc: next_pc(pre.pc),
        ..pre
    }
}

/// `8xy3` - bitwise XOR into the first register.
pub open spec fn spec_binary_xor(pre: State, x: u8, y: u8) -> State {
    State {
        registers: pre.registers.update(
            x as int,
            pre.registers[x as int] ^ pre.registers[y as int],
        ),
        pc: next_pc(pre.pc),
        ..pre
    }
}

/// `8xy4` - add with carry: the low 8 bits of the 9-bit sum go into the
/// first register, then the flag register reports whether the sum overflowed
/// (so the flag wins when `x` is the flag slot itself).
pub open spec fn spec_add_register_with_carry(pre: State, x: u8, y: u8) -> State {
    let sum = pre.registers[x as int] + pre.registers[y as int];
    State {
        registers: pre.registers.update(x as int, wrap8(sum)).update(
            FLAG_REGISTER as int,
            if sum > 255 { 1u8 } else { 0u8 },
        ),
        pc: next_pc(pre.pc),
        ..pre
    }
}

/// `8xy5` / `8xy7` - subtract the second named register from the first: the
/// flag register first reports absence of borrow, then the wrapped
/// difference goes into `store` (`x` for `8xy5`, `y` for `8xy7`, which swaps
/// the operands).
pub open spec fn spec_subtraction(pre: State, x: u8, y: u8, store: u8) -> State {
    let a = pre.registers[x as int];
    let b = pre.registers[y as int];
    State {
        registers: pre.registers.update(
            FLAG_REGISTER as int,
            if a >= b { 1u8 } else { 0u8 },
        ).update(store as int, wrap8(a - b)),
        pc: next_pc(pre.pc),
        ..pre
    }
}

/// `8xy6` / `8xyE` - shift the register one bit right or left (the `y`
/// operand is ignored).
pub open spec fn spec_shift(pre: State, x: u8, direction_right: bool) -> State {
    State {
        registers: pre.registers.update(
            x as int,
            if direction_right {
                pre.registers[x as int] >> 1u8
            } else {
                pre.registers[x as int] << 1u8
            },
        ),
        pc: next_pc(pre.pc),
        ..pre
    }
}

/// `Annn` - load the index register.
pub open spec fn spec_set_index_register(pre: State, location: u16) -> State {
    State { index_register: location, pc: next_pc(pre.pc), ..pre }
}

/// `Bnnn` - jump with offset, relative to the current program counter:
/// `pc + nnn + registers[0]`, 16-bit wraparound.
pub open spec fn spec_jump_with_offset(pre: State, location: u16) -> State {
    State { pc: wrap16(pre.pc + location + pre.registers[0]), ..pre }
}

/// `Cxnn` - a random byte masked by the immediate, into the register.
/// `rnd` is whatever byte the generator produced.
pub open spec fn spec_generate_random_number(pre: State, x: u8, nn: u8, rnd: u8) -> State {
    State { registers: pre.registers.update(x as int, rnd & nn), pc: next_pc(pre.pc), ..pre }
}

/// `Ex9E` / `ExA1` / `Fx0A` - the keyboard is a stub: no key is ever
/// reported pressed and nothing ever blocks, so these only advance the
/// program counter.  Also the fate of an unrecognized pattern.
pub open spec fn spec_advance(pre: State) -> State {
    State { pc: next_pc(pre.pc), ..pre }
}

/// `Fx07` - read the delay timer into a register.
pub open spec fn spec_get_delay_timer(pre: State, x: u8) -> State {
    State {
        registers: pre.registers.update(x as int, pre.delay_timer),
        pc: next_pc(pre.pc),
        ..pre
    }
}

/// `Fx15` - load the delay timer from a register.
pub open spec fn spec_set_delay_timer(pre: State, x: u8) -> State {
    State { delay_timer: pre.registers[x as int], pc: next_pc(pre.pc), ..pre }
}

/// `Fx18` - load the sound timer from a register.
pub open spec fn spec_set_sound_timer(pre: State, x: u8) -> State {
    State { sound_timer: pre.registers[x as int], pc: next_pc(pre.pc), ..pre }
}

/// `Fx1E` - add a register into the index register, 16-bit wraparound.
pub open spec fn spec_add_into_index_register(pre: State, x: u8) -> State {
    State {
        index_register: wrap16(pre.index_register + pre.registers[x as int]),
        pc: next_pc(pre.pc),
        ..pre
    }
}

/// `Fx29` - point the index register at the glyph for the register's value.
/// The glyph address is the register value itself (no stride multiply).
pub open spec fn spec_set_index_register_to_addr(pre: State, x: u8) -> State {
    State { index_register: pre.registers[x as int] as u16, pc: next_pc(pre.pc), ..pre }
}

/// `Fx33` - binary-coded decimal: the hundreds, tens and ones digits of the
/// register value go to memory at the index register and the two following
/// addresses.
pub open spec fn spec_number_division(pre: State, x: u8) -> State {
    let v = pre.registers[x as int];
    State {
        memory: pre.memory
            .update(mem_addr(pre.index_register, 0), (v / 100) as u8)
            .update(mem_addr(pre.index_register, 1), ((v / 10) % 10) as u8)
            .update(mem_addr(pre.index_register, 2), (v % 10) as u8),
        pc: next_pc(pre.pc),
        ..pre
    }
}

/// The memory image after registers `0 ..= bound` are stored starting at
/// `base`: the byte at address `a` is the register whose offset from `base`
/// (mod the memory size) is at most `bound`, if there is one.  Each of the
/// at most 16 target addresses is distinct, so the pointwise description is
/// exact.
pub open spec fn stored_memory(mem: Seq<u8>, regs: Seq<u8>, base: u16, bound: int) -> Seq<u8> {
    Seq::new(MEMORY_SIZE as nat, |a: int| {
        let off = (a - base) % (MEMORY_SIZE as int);
        if off <= bound { regs[off] } else { mem[a] }
    })
}

/// `Fx55` - store registers `0 ..= x` into memory starting at the index
/// register; the index register itself does not move.
pub open spec fn spec_store_memory(pre: State, x: u8) -> State {
    State {
        memory: stored_memory(pre.memory, pre.registers, pre.index_register, x as int),
        pc: next_pc(pre.pc),
        ..pre
    }
}

/// `Fx65` - fill the whole register file from memory starting at the index
/// register.  All 16 registers are filled whatever `x` is: the `x` bound is
/// honoured only by the store direction, a deliberate asymmetry of this
/// machine.
pub open spec fn spec_load_memory(pre: State, x: u8) -> State {
    State {
        registers: Seq::new(
            REGISTER_COUNT as nat,
            |i: int| pre.memory[mem_addr(pre.index_register, i)],
        ),
        pc: next_pc(pre.pc),
        ..pre
    }
}

/// The framebuffer index of column `xc`, row `yc`.
pub open spec fn pixel_pos(xc: int, yc: int) -> int {
    yc * (SCREEN_WIDTH as int) + xc
}

/// The sprite byte of row `row`, read at `row` bytes past the index
/// register.
pub open spec fn sprite_byte(mem: Seq<u8>, base: u16, row: int) -> u8 {
    mem[mem_addr(base, row)]
}

/// Whether bit `col` (counted from the most significant) of a sprite byte
/// is set.
pub open spec fn sprite_pixel_on(b: u8, col: int) -> bool {
    b & (1u8 << ((7 - col) as u8)) != 0
}

/// The framebuffer index that sprite cell (`row`, `col`) lands on when the
/// sprite is drawn at (`xpos`, `ypos`): both coordinates wrap around the
/// screen.
pub open spec fn draw_target(xpos: u8, ypos: u8, row: int, col: int) -> int {
    pixel_pos((xpos + col) % (SCREEN_WIDTH as int), (ypos + row) % (SCREEN_HEIGHT as int))
}

/// The sprite row that covers framebuffer index `k`, for a sprite drawn at
/// row `ypos`.  Inverse of the row part of [`draw_target`].
pub open spec fn sprite_row_of(k: int, ypos: u8) -> int {
    (k / (SCREEN_WIDTH as int) - ypos) % (SCREEN_HEIGHT as int)
}

/// The sprite column that covers framebuffer index `k`, for a sprite drawn
/// at column `xpos`.  Inverse of the column part of [`draw_target`].
pub open spec fn sprite_col_of(k: int, xpos: u8) -> int {
    (k % (SCREEN_WIDTH as int) - xpos) % (SCREEN_WIDTH as int)
}

/// The framebuffer after the sprite cells strictly before (`row`, `col`) in
/// drawing order have been XORed in: a pixel changes iff the unique sprite
/// cell that lands on it has been processed, and it changes by XOR with that
/// cell's bit.  With `row == n, col == 0` this is the full draw.
pub open spec fn drawn_pixels_upto(pre: State, xpos: u8, ypos: u8, row: int, col: int) -> Seq<bool> {
    Seq::new(PIXEL_COUNT as nat, |k: int| {
        let r = sprite_row_of(k, ypos);
        let c = sprite_col_of(k, xpos);
        if c < 8 && (r < row || (r == row && c < col)) {
            pre.pixels[k] ^ sprite_pixel_on(sprite_byte(pre.memory, pre.index_register, r), c)
        } else {
            pre.pixels[k]
        }
    })
}

/// What the flag register reports of sprite cell (`row`, `col`): 1 iff the
/// draw turns that cell's pixel from set to unset, which, the pixel being
/// XORed exactly once, is iff the pixel was set and the sprite bit is set.
pub open spec fn draw_collision(pre: State, xpos: u8, ypos: u8, row: int, col: int) -> u8 {
    let k = draw_target(xpos, ypos, row, col);
    if pre.pixels[k] && sprite_pixel_on(sprite_byte(pre.memory, pre.index_register, row), col) {
        1u8
    } else {
        0u8
    }
}

/// The register file while a draw is in progress, the cells strictly before
/// (`row`, `col`) in drawing order having been processed: untouched before
/// the first cell, afterwards the flag register holds the collision state
/// of the most recently processed cell.
pub open spec fn draw_registers_upto(pre: State, xpos: u8, ypos: u8, row: int, col: int) -> Seq<u8> {
    if row == 0 && col == 0 {
        pre.registers
    } else if col == 0 {
        pre.registers.update(FLAG_REGISTER as int, draw_collision(pre, xpos, ypos, row - 1, 7))
    } else {
        pre.registers.update(FLAG_REGISTER as int, draw_collision(pre, xpos, ypos, row, col - 1))
    }
}

/// `Dxyn` - draw an `n`-row sprite read at the index register, at the
/// position given by registers `x` and `y`, by XOR.  The flag register is
/// rewritten per pixel, so after the draw it reports only the collision
/// state of the last cell processed (row `n - 1`, column 7); a zero-row
/// draw touches neither pixels nor flag.
pub open spec fn spec_display(pre: State, x: u8, y: u8, n: u8) -> State {
    let xpos = pre.registers[x as int];
    let ypos = pre.registers[y as int];
    State {
        pixels: drawn_pixels_upto(pre, xpos, ypos, n as int, 0),
        registers: if n == 0 {
            pre.registers
        } else {
            pre.registers.update(
                FLAG_REGISTER as int,
                draw_collision(pre, xpos, ypos, n - 1, 7),
            )
        },
        pc: next_pc(pre.pc),
        ..pre
    }
}

/// Whether the operand record matches any row of the opcode table.
pub open spec fn spec_recognized(ins: Instruction) -> bool {
    ||| ins.first == 0x0
    ||| ins.first == 0x1
    ||| ins.first == 0x3
    ||| ins.first == 0x4
    ||| ins.first == 0x6
    ||| ins.first == 0x7
    ||| (ins.first == 0x5 && ins.n == 0x0)
    ||| (ins.first == 0x9 && ins.n == 0x0)
    ||| (ins.first == 0x8 && (ins.n == 0x0 || ins.n == 0x1 || ins.n == 0x2 || ins.n == 0x3
            || ins.n == 0x4 || ins.n == 0x5 || ins.n == 0x6 || ins.n == 0x7 || ins.n == 0xE))
    ||| ins.first == 0xA
    ||| ins.first == 0xB
    ||| ins.first == 0xC
    ||| ins.first == 0xD
    ||| (ins.first == 0xE && ((ins.y == 0x9 && ins.n == 0xE) || (ins.y == 0xA && ins.n == 0x1)))
    ||| (ins.first == 0xF && ((ins.y == 0x0 && ins.n == 0x7) || (ins.y == 0x1 && ins.n == 0x5)
            || (ins.y == 0x1 && ins.n == 0x8) || (ins.y == 0x1 && ins.n == 0xE)
            || (ins.y == 0x0 && ins.n == 0xA) || (ins.y == 0x2 && ins.n == 0x9)
            || (ins.y == 0x3 && ins.n == 0x3) || (ins.y == 0x5 && ins.n == 0x5)
            || (ins.y == 0x6 && ins.n == 0x5)))
}

/// Whether executing the operand record in state `pre` is the machine's one
/// fatal condition: a subroutine return with an empty stack.
pub open spec fn spec_fatal(pre: State, ins: Instruction) -> bool {
    &&& ins.first == 0x0
    &&& ins.x == 0x0
    &&& ins.y == 0xE
    &&& ins.n == 0xE
    &&& pre.stack.len() == 0
}

/// The opcode table: one step of the machine on a decoded instruction,
/// first match wins.  `rnd` is the byte the random generator produced, used
/// only by `Cxnn`.  `None` exactly in the fatal case.
pub open spec fn spec_step(pre: State, ins: Instruction, rnd: u8) -> Option<State> {
    if ins.first == 0x0 && ins.x == 0x0 && ins.y == 0xE && ins.n == 0x0 {
        Some(spec_clear_screen(pre))
    } else if ins.first == 0x0 && ins.x == 0x0 && ins.y == 0xE && ins.n == 0xE {
        spec_return(pre)
    } else if ins.first == 0x0 {
        Some(spec_call_subroutine(pre, ins.nnn as u16))
    } else if ins.first == 0x1 {
        Some(spec_jump(pre, ins.nnn as u16))
    } else if ins.first == 0x6 {
        Some(spec_set_register_literal(pre, ins.x, ins.nn))
    } else if ins.first == 0x7 {
        Some(spec_add_into_register(pre, ins.x, ins.nn))
    } else if ins.first == 0x3 {
        Some(spec_skip_on_equal(pre, ins.x, ins.nn))
    } else if ins.first == 0x4 {
        Some(spec_skip_on_not_equal(pre, ins.x, ins.nn))
    } else if ins.first == 0x5 && ins.n == 0x0 {
        Some(spec_skip_on_equal_register(pre, ins.x, ins.y))
    } else if ins.first == 0x9 && ins.n == 0x0 {
        Some(spec_skip_on_not_equal_register(pre, ins.x, ins.y))
    } else if ins.first == 0x8 && ins.n == 0x0 {
        Some(spec_set_register(pre, ins.x, ins.y))
    } else if ins.first == 0x8 && ins.n == 0x1 {
        Some(spec_binary_or(pre, ins.x, ins.y))
    } else if ins.first == 0x8 && ins.n == 0x2 {
        Some(spec_binary_and(pre, ins.x, ins.y))
    } else if ins.first == 0x8 && ins.n == 0x3 {
        Some(spec_binary_xor(pre, ins.x, ins.y))
    } else if ins.first == 0x8 && ins.n == 0x4 {
        Some(spec_add_register_with_carry(pre, ins.x, ins.y))
    } else if ins.first == 0x8 && ins.n == 0x5 {
        Some(spec_subtraction(pre, ins.x, ins.y, ins.x))
    } else if ins.first == 0x8 && ins.n == 0x7 {
        Some(spec_subtraction(pre, ins.y, ins.x, ins.y))
    } else if ins.first == 0x8 && ins.n == 0x6 {
        Some(spec_shift(pre, ins.x, true))
    } else if ins.first == 0x8 && ins.n == 0xE {
        Some(spec_shift(pre, ins.x, false))
    } else if ins.first == 0xA {
        Some(spec_set_index_register(pre, ins.nnn as u16))
    } else if ins.first == 0xB {
        Some(spec_jump_with_offset(pre, ins.nnn as u16))
    } else if ins.first == 0xC {
        Some(spec_generate_random_number(pre, ins.x, ins.nn, rnd))
    } else if ins.first == 0xD {
        Some(spec_display(pre, ins.x, ins.y, ins.n))
    } else if ins.first == 0xE && ins.y == 0x9 && ins.n == 0xE {
        Some(spec_advance(pre))
    } else if ins.first == 0xE && ins.y == 0xA && ins.n == 0x1 {
        Some(spec_advance(pre))
    } else if ins.first == 0xF && ins.y == 0x0 && ins.n == 0x7 {
        Some(spec_get_delay_timer(pre, ins.x))
    } else if ins.first == 0xF && ins.y == 0x1 && ins.n == 0x5 {
        Some(spec_set_delay_timer(pre, ins.x))
    } else if ins.first == 0xF && ins.y == 0x1 && ins.n == 0x8 {
        Some(spec_set_sound_timer(pre, ins.x))
    } else if ins.first == 0xF && ins.y == 0x1 && ins.n == 0xE {
        Some(spec_add_into_index_register(pre, ins.x))
    } else if ins.first == 0xF && ins.y == 0x0 && ins.n == 0xA {
        Some(spec_advance(pre))
    } else if ins.first == 0xF && ins.y == 0x2 && ins.n == 0x9 {
        Some(spec_set_index_register_to_addr(pre, ins.x))
    } else if ins.first == 0xF && ins.y == 0x3 && ins.n == 0x3 {
        Some(spec_number_division(pre, ins.x))
    } else if ins.first == 0xF && ins.y == 0x5 && ins.n == 0x5 {
        Some(spec_store_memory(pre, ins.x))
    } else if ins.first == 0xF && ins.y == 0x6 && ins.n == 0x5 {
        Some(spec_load_memory(pre, ins.x))
    } else {
        Some(spec_advance(pre))
    }
}

/// The operand record fetched at the program counter of `s` (both fetch
/// addresses reduced into memory range).
pub open spec fn spec_fetched(s: State) -> Instruction {
    Instruction::spec_new(
        s.memory[mem_addr(s.pc, 0)],
        s.memory[mem_addr(s.pc, 1)],
    )
}

/// Offsetting a value by `off < m` and reducing mod `m` is undone by
/// subtracting the value and reducing again.
pub proof fn lemma_wrap_round_trip(base: int, off: int, m: int)
    requires
        0 < m,
        0 <= off < m,
        0 <= base,
    ensures
        ((base + off) % m - base) % m == off,
{
    let q = (base + off) / m;
    lemma_fundamental_div_mod(base + off, m);
    assert(m * (-q) == -(m * q)) by (nonlinear_arith);
    assert((base + off) % m - base == m * (-q) + off);
    lemma_mod_multiples_vanish(-q, off, m);
    assert((m * (-q) + off) % m == off % m);
    lemma_small_mod(off as nat, m as nat);
}

/// A reduced index `k` whose offset from `base` (mod `m`) is `off` is the
/// one index `(base + off) % m`.
pub proof fn lemma_wrap_unique(base: int, k: int, m: int)
    requires
        0 < m,
        0 <= k < m,
        0 <= base,
    ensures
        (base + ((k - base) % m)) % m == k,
{
    let off = (k - base) % m;
    let q = (k - base) / m;
    lemma_fundamental_div_mod(k - base, m);
    assert(m * (-q) == -(m * q)) by (nonlinear_arith);
    assert(base + off == m * (-q) + k);
    lemma_mod_multiples_vanish(-q, k, m);
    assert((m * (-q) + k) % m == k % m);
    lemma_small_mod(k as nat, m as nat);
}

} // verus!

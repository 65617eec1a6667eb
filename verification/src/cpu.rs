//! The machine state and the dispatch engine.
//!
//! [`CPU`] owns every piece of mutable interpreter state.  Each instruction
//! handler is verified against the matching function of [`crate::semantics`],
//! and [`CPU::process_instruction`] against the whole opcode table
//! ([`spec_step`]).  The host window is not here: the embedder runs the
//! fetch-execute loop by calling [`CPU::step`] and presents the framebuffer
//! between steps.

use vstd::prelude::*;
use vstd::pervasive::VecAdditionalExecFns;
use vstd::arithmetic::div_mod::{
    lemma_div_denominator, lemma_fundamental_div_mod, lemma_fundamental_div_mod_converse,
    lemma_mod_multiples_vanish,
};
use crate::decode::Instruction;
use crate::graphics::Graphics;
use crate::semantics::{
    blank_pixels, draw_registers_upto, drawn_pixels_upto, draw_target, mem_addr,
    spec_advance, spec_add_into_index_register, spec_add_into_register,
    spec_add_register_with_carry, spec_binary_and, spec_binary_or, spec_binary_xor,
    spec_call_subroutine, spec_clear_screen, spec_display, spec_fatal, spec_fetched,
    spec_generate_random_number, spec_get_delay_timer, spec_jump, spec_jump_with_offset,
    spec_load_memory, spec_number_division, spec_return, spec_set_delay_timer,
    spec_set_index_register, spec_set_index_register_to_addr, spec_set_register,
    spec_set_register_literal, spec_set_sound_timer, spec_shift, spec_skip_on_equal,
    spec_skip_on_equal_register, spec_skip_on_not_equal, spec_skip_on_not_equal_register,
    spec_step, spec_store_memory, spec_subtraction, sprite_byte, sprite_col_of,
    sprite_row_of, stored_memory, wrap16, wrap8, State, FLAG_REGISTER, INSTRUCTION_SIZE,
    lemma_wrap_round_trip, lemma_wrap_unique, MEMORY_SIZE, PIXEL_COUNT, PROGRAM_START,
    REGISTER_COUNT, SCREEN_HEIGHT, SCREEN_WIDTH,
};

verus! {

/// The one fatal condition: a subroutine return found the stack empty.
#[derive(Clone, Copy, Debug, PartialEq, Eq, Structural)]
pub enum VmFault {
    EmptyStackReturn,
}

/// The built-in glyph data: 16 sprites of 5 bytes each, the hexadecimal
/// digits 0 to F, preloaded at the bottom of memory.
pub open spec fn spec_font() -> Seq<u8> {
    seq![
        0xF0u8, 0x90, 0x90, 0x90, 0xF0, // 0
        0x20, 0x60, 0x20, 0x20, 0x70, // 1
        0xF0, 0x10, 0xF0, 0x80, 0xF0, // 2
        0xF0, 0x10, 0xF0, 0x10, 0xF0, // 3
        0x90, 0x90, 0xF0, 0x10, 0x10, // 4
        0xF0, 0x80, 0xF0, 0x10, 0xF0, // 5
        0xF0, 0x80, 0xF0, 0x90, 0xF0, // 6
        0xF0, 0x10, 0x20, 0x40, 0x40, // 7
        0xF0, 0x90, 0xF0, 0x90, 0xF0, // 8
        0xF0, 0x90, 0xF0, 0x10, 0xF0, // 9
        0xF0, 0x90, 0xF0, 0x90, 0x90, // A
        0xE0, 0x90, 0xE0, 0x90, 0xE0, // B
        0xF0, 0x80, 0x80, 0x80, 0xF0, // C
        0xE0, 0x90, 0x90, 0x90, 0xE0, // D
        0xF0, 0x80, 0xF0, 0x80, 0xF0, // E
        0xF0, 0x80, 0xF0, 0x80, 0x80, // F
    ]
}

/// Bytes of glyph data.
pub const FONT_BYTES: usize = 80;

/// The memory image at construction: glyphs at the bottom, the program
/// image from address 512, zero elsewhere.
pub open spec fn spec_initial_memory(rom: Seq<u8>) -> Seq<u8> {
    Seq::new(MEMORY_SIZE as nat, |a: int| {
        if a < FONT_BYTES {
            spec_font()[a]
        } else if PROGRAM_START <= a < PROGRAM_START + rom.len() {
            rom[a - PROGRAM_START]
        } else {
            0u8
        }
    })
}

/// The whole machine at construction: execution starts at address 512 with
/// cleared registers, timers, stack and framebuffer.
pub open spec fn spec_initial_state(rom: Seq<u8>) -> State {
    State {
        pc: PROGRAM_START,
        registers: Seq::new(REGISTER_COUNT as nat, |i: int| 0u8),
        index_register: 0u16,
        delay_timer: 0u8,
        sound_timer: 0u8,
        memory: spec_initial_memory(rom),
        stack: Seq::empty(),
        pixels: blank_pixels(),
    }
}

/// Relies on rand::random: a byte from the thread-local generator.  The
/// value depends on generator state, so nothing is promised of it.
#[verifier::external_body]
fn random_byte() -> u8 {
    rand::random::<u8>()
}

/// 16-bit addition with wraparound.
fn add16(a: u16, b: u16) -> (r: u16)
    ensures
        r == wrap16(a + b),
{
    (((a as u32) + (b as u32)) % 0x10000) as u16
}

/// 8-bit addition with wraparound.
fn add8(a: u8, b: u8) -> (r: u8)
    ensures
        r == wrap8(a + b),
{
    (((a as u16) + (b as u16)) % 256) as u8
}

/// 8-bit subtraction with wraparound.
fn sub8(a: u8, b: u8) -> (r: u8)
    ensures
        r == wrap8(a - b),
{
    proof {
        lemma_mod_multiples_vanish(1, a - b, 256);
    }
    (((a as u16) + 256 - (b as u16)) % 256) as u8
}

/// The in-range memory index `off` bytes past `base`.
fn mem_index(base: u16, off: u16) -> (r: usize)
    ensures
        r == mem_addr(base, off as int),
        r < MEMORY_SIZE,
{
    (((base as u32) + (off as u32)) % (MEMORY_SIZE as u32)) as usize
}

/// The glyph data as bytes.
#[verifier::rlimit(100)]
#[verifier::spinoff_prover]
fn font_data() -> (v: Vec<u8>)
    ensures
        v@ == spec_font(),
{
    let mut v: Vec<u8> = Vec::new();
    v.push(0xF0); v.push(0x90); v.push(0x90); v.push(0x90); v.push(0xF0);
    v.push(0x20); v.push(0x60); v.push(0x20); v.push(0x20); v.push(0x70);
    v.push(0xF0); v.push(0x10); v.push(0xF0); v.push(0x80); v.push(0xF0);
    v.push(0xF0); v.push(0x10); v.push(0xF0); v.push(0x10); v.push(0xF0);
    v.push(0x90); v.push(0x90); v.push(0xF0); v.push(0x10); v.push(0x10);
    v.push(0xF0); v.push(0x80); v.push(0xF0); v.push(0x10); v.push(0xF0);
    v.push(0xF0); v.push(0x80); v.push(0xF0); v.push(0x90); v.push(0xF0);
    v.push(0xF0); v.push(0x10); v.push(0x20); v.push(0x40); v.push(0x40);
    v.push(0xF0); v.push(0x90); v.push(0xF0); v.push(0x90); v.push(0xF0);
    v.push(0xF0); v.push(0x90); v.push(0xF0); v.push(0x10); v.push(0xF0);
    v.push(0xF0); v.push(0x90); v.push(0xF0); v.push(0x90); v.push(0x90);
    v.push(0xE0); v.push(0x90); v.push(0xE0); v.push(0x90); v.push(0xE0);
    v.push(0xF0); v.push(0x80); v.push(0x80); v.push(0x80); v.push(0xF0);
    v.push(0xE0); v.push(0x90); v.push(0x90); v.push(0x90); v.push(0xE0);
    v.push(0xF0); v.push(0x80); v.push(0xF0); v.push(0x80); v.push(0xF0);
    v.push(0xF0); v.push(0x80); v.push(0xF0); v.push(0x80); v.push(0x80);
    proof {
        assert(v@ =~= spec_font());
    }
    v
}

/// The interpreter: program counter, register file, index register, timers,
/// memory image, call-return stack, and the framebuffer.
pub struct CPU {
    pc: u16,
    registers: Vec<u8>,
    index_register: u16,
    delay_timer: u8,
    sound_timer: u8,
    memory: Vec<u8>,
    stack: Vec<u16>,
    graphics: Graphics,
}

impl View for CPU {
    type V = State;

    closed spec fn view(&self) -> State {
        State {
            pc: self.pc,
            registers: self.registers@,
            index_register: self.index_register,
            delay_timer: self.delay_timer,
            sound_timer: self.sound_timer,
            memory: self.memory@,
            stack: self.stack@,
            pixels: self.graphics@,
        }
    }
}

impl CPU {
    /// The fixed sizes of the machine hold.
    pub open spec fn wf(&self) -> bool {
        self@.wf()
    }

    /// A machine loaded with the given program image, which must fit in the
    /// memory above the program start address.
    pub fn new(rom_contents: Vec<u8>) -> (cpu: CPU)
        requires
            rom_contents@.len() <= MEMORY_SIZE - PROGRAM_START as usize,
        ensures
            cpu.wf(),
            cpu@ == spec_initial_state(rom_contents@),
    {
        let mut memory: Vec<u8> = Vec::new();
        let mut a: usize = 0;
        while a < MEMORY_SIZE
            invariant
                a <= MEMORY_SIZE,
                memory@.len() == a,
                forall|i: int| 0 <= i < a ==> memory@[i] == 0u8,
            decreases MEMORY_SIZE - a,
        {
            memory.push(0);
            a += 1;
        }

        let fonts = font_data();
        let mut i: usize = 0;
        while i < FONT_BYTES
            invariant
                i <= FONT_BYTES,
                memory@.len() == MEMORY_SIZE,
                fonts@ == spec_font(),
                forall|k: int| 0 <= k < i ==> memory@[k] == spec_font()[k],
                forall|k: int| i <= k < MEMORY_SIZE ==> memory@[k] == 0u8,
            decreases FONT_BYTES - i,
        {
            let b = fonts[i];
            memory.set(i, b);
            i += 1;
        }

        let mut co: usize = 0;
        while co < rom_contents.len()
            invariant
                co <= rom_contents@.len(),
                rom_contents@.len() <= MEMORY_SIZE - PROGRAM_START as usize,
                memory@.len() == MEMORY_SIZE,
                forall|k: int| 0 <= k < FONT_BYTES ==> memory@[k] == spec_font()[k],
                forall|k: int| FONT_BYTES <= k < PROGRAM_START ==> memory@[k] == 0u8,
                forall|k: int| PROGRAM_START <= k < PROGRAM_START + co
                    ==> memory@[k] == rom_contents@[k - PROGRAM_START],
                forall|k: int| PROGRAM_START + co <= k < MEMORY_SIZE ==> memory@[k] == 0u8,
            decreases rom_contents@.len() - co,
        {
            let b = rom_contents[co];
            memory.set(PROGRAM_START as usize + co, b);
            co += 1;
        }

        let mut registers: Vec<u8> = Vec::new();
        let mut r: usize = 0;
        while r < REGISTER_COUNT
            invariant
                r <= REGISTER_COUNT,
                registers@.len() == r,
                forall|i: int| 0 <= i < r ==> registers@[i] == 0u8,
            decreases REGISTER_COUNT - r,
        {
            registers.push(0);
            r += 1;
        }

        let cpu = CPU {
            pc: PROGRAM_START,
            registers,
            index_register: 0,
            delay_timer: 0,
            sound_timer: 0,
            memory,
            stack: Vec::new(),
            graphics: Graphics::new(),
        };
        proof {
            assert(cpu@.memory =~= spec_initial_memory(rom_contents@));
            assert(cpu@.registers =~= spec_initial_state(rom_contents@).registers);
            assert(cpu@ =~= spec_initial_state(rom_contents@));
        }
        cpu
    }

    /// `00E0`: clear the framebuffer.
    fn handle_clear_screen(&mut self)
        requires
            old(self).wf(),
        ensures
            final(self).wf(),
            final(self)@ == spec_clear_screen(old(self)@),
    {
        self.graphics.clear_pixels();
        self.pc = add16(self.pc, INSTRUCTION_SIZE);
    }

    /// `1nnn`: unconditional jump.
    fn handle_jump(&mut self, jump_addr: usize)
        requires
            old(self).wf(),
            jump_addr < MEMORY_SIZE,
        ensures
            final(self).wf(),
            final(self)@ == spec_jump(old(self)@, jump_addr as u16),
    {
        self.pc = jump_addr as u16;
    }

    /// `00EE`: pop the stack into the program counter; the empty stack is
    /// the machine's fatal condition and is reported, not executed.
    fn handle_return(&mut self) -> (r: Result<(), VmFault>)
        requires
            old(self).wf(),
        ensures
            final(self).wf(),
            match r {
                Ok(()) => spec_return(old(self)@) == Some(final(self)@),
                Err(f) => f == VmFault::EmptyStackReturn && old(self)@.stack.len() == 0
                    && final(self)@ == old(self)@,
            },
            r is Err <==> old(self)@.stack.len() == 0,
    {
        match self.stack.pop() {
            Some(prev_pc) => {
                self.pc = prev_pc;
                proof {
                    assert(self@.stack =~= old(self)@.stack.drop_last());
                }
                Ok(())
            },
            None => Err(VmFault::EmptyStackReturn),
        }
    }

    /// `0nnn`: call a subroutine.
    fn handle_call_subroutine(&mut self, location: usize)
        requires
            old(self).wf(),
            location < MEMORY_SIZE,
        ensures
            final(self).wf(),
            final(self)@ == spec_call_subroutine(old(self)@, location as u16),
    {
        let ret = add16(self.pc, INSTRUCTION_SIZE);
        self.stack.push(ret);
        self.pc = location as u16;
    }

    /// `6xnn`: load an immediate into a register.
    fn handle_set_register_literal(&mut self, register: u8, value: u8)
        requires
            old(self).wf(),
            register < REGISTER_COUNT,
        ensures
            final(self).wf(),
            final(self)@ == spec_set_register_literal(old(self)@, register, value),
    {
        self.registers.set(register as usize, value);
        self.pc = add16(self.pc, INSTRUCTION_SIZE);
    }

    /// `7xnn`: add an immediate into a register, 8-bit wraparound, no flag.
    fn handle_add_into_register(&mut self, register: u8, value: u8)
        requires
            old(self).wf(),
            register < REGISTER_COUNT,
        ensures
            final(self).wf(),
            final(self)@ == spec_add_into_register(old(self)@, register, value),
    {
        let cur = self.registers[register as usize];
        self.registers.set(register as usize, add8(cur, value));
        self.pc = add16(self.pc, INSTRUCTION_SIZE);
    }

    /// `3xnn`: skip the next instruction iff the register equals the
    /// immediate.
    fn handle_skip_on_equal(&mut self, register: u8, value: u8)
        requires
            old(self).wf(),
            register < REGISTER_COUNT,
        ensures
            final(self).wf(),
            final(self)@ == spec_skip_on_equal(old(self)@, register, value),
    {
        if self.registers[register as usize] == value {
            self.pc = add16(self.pc, 2 * INSTRUCTION_SIZE);
        } else {
            self.pc = add16(self.pc, INSTRUCTION_SIZE);
        }
    }

    /// `4xnn`: skip iff the register differs from the immediate.
    fn handle_skip_on_not_equal(&mut self, register: u8, value: u8)
        requires
            old(self).wf(),
            register < REGISTER_COUNT,
        ensures
            final(self).wf(),
            final(self)@ == spec_skip_on_not_equal(old(self)@, register, value),
    {
        if self.registers[register as usize] != value {
            self.pc = add16(self.pc, 2 * INSTRUCTION_SIZE);
        } else {
            self.pc = add16(self.pc, INSTRUCTION_SIZE);
        }
    }

    /// `5xy0`: skip iff the two registers are equal.
    fn handle_skip_on_equal_register(&mut self, register1: u8, register2: u8)
        requires
            old(self).wf(),
            register1 < REGISTER_COUNT,
            register2 < REGISTER_COUNT,
        ensures
            final(self).wf(),
            final(self)@ == spec_skip_on_equal_register(old(self)@, register1, register2),
    {
        if self.registers[register1 as usize] == self.registers[register2 as usize] {
            self.pc = add16(self.pc, 2 * INSTRUCTION_SIZE);
        } else {
            self.pc = add16(self.pc, INSTRUCTION_SIZE);
        }
    }

    /// `9xy0`: skip iff the two registers differ.
    fn handle_skip_on_not_equal_register(&mut self, register1: u8, register2: u8)
        requires
            old(self).wf(),
            register1 < REGISTER_COUNT,
            register2 < REGISTER_COUNT,
        ensures
            final(self).wf(),
            final(self)@ == spec_skip_on_not_equal_register(old(self)@, register1, register2),
    {
        if self.registers[register1 as usize] != self.registers[register2 as usize] {
            self.pc = add16(self.pc, 2 * INSTRUCTION_SIZE);
        } else {
            self.pc = add16(self.pc, INSTRUCTION_SIZE);
        }
    }

    /// `8xy0`: copy one register into another.
    fn handle_set_register(&mut self, register1: u8, register2: u8)
        requires
            old(self).wf(),
            register1 < REGISTER_COUNT,
            register2 < REGISTER_COUNT,
        ensures
            final(self).wf(),
            final(self)@ == spec_set_register(old(self)@, register1, register2),
    {
        let v = self.registers[register2 as usize];
        self.registers.set(register1 as usize, v);
        self.pc = add16(self.pc, INSTRUCTION_SIZE);
    }

    /// `8xy1`: bitwise OR into the first register.
    fn handle_binary_or(&mut self, register1: u8, register2: u8)
        requires
            old(self).wf(),
            register1 < REGISTER_COUNT,
            register2 < REGISTER_COUNT,
        ensures
            final(self).wf(),
            final(self)@ == spec_binary_or(old(self)@, register1, register2),
    {
        let v = self.registers[register1 as usize] | self.registers[register2 as usize];
        self.registers.set(register1 as usize, v);
        self.pc = add16(self.pc, INSTRUCTION_SIZE);
    }

    /// `8xy2`: bitwise AND into the first register.
    fn handle_binary_and(&mut self, register1: u8, register2: u8)
        requires
            old(self).wf(),
            register1 < REGISTER_COUNT,
            register2 < REGISTER_COUNT,
        ensures
            final(self).wf(),
            final(self)@ == spec_binary_and(old(self)@, register1, register2),
    {
        let v = self.registers[register1 as usize] & self.registers[register2 as usize];
        self.registers.set(register1 as usize, v);
        self.pc = add16(self.pc, INSTRUCTION_SIZE);
    }

    /// `8xy3`: bitwise XOR into the first register.
    fn handle_binary_xor(&mut self, register1: u8, register2: u8)
        requires
            old(self).wf(),
            register1 < REGISTER_COUNT,
            register2 < REGISTER_COUNT,
        ensures
            final(self).wf(),
            final(self)@ == spec_binary_xor(old(self)@, register1, register2),
    {
        let v = self.registers[register1 as usize] ^ self.registers[register2 as usize];
        self.registers.set(register1 as usize, v);
        self.pc = add16(self.pc, INSTRUCTION_SIZE);
    }

    /// `8xy4`: add with carry; the flag register reports overflow of the
    /// 9-bit sum and is written after the result.
    fn handle_add_register_with_carry(&mut self, register1: u8, register2: u8)
        requires
            old(self).wf(),
            register1 < REGISTER_COUNT,
            register2 < REGISTER_COUNT,
        ensures
            final(self).wf(),
            final(self)@ == spec_add_register_with_carry(old(self)@, register1, register2),
    {
        let reg1 = self.registers[register1 as usize];
        let reg2 = self.registers[register2 as usize];
        let sum: u16 = reg1 as u16 + reg2 as u16;
        self.registers.set(register1 as usize, (sum % 256) as u8);
        if sum > 255 {
            self.registers.set(FLAG_REGISTER, 1);
        } else {
            self.registers.set(FLAG_REGISTER, 0);
        }
        self.pc = add16(self.pc, INSTRUCTION_SIZE);
    }

    /// `8xy5` / `8xy7`: subtraction; the flag register reports absence of
    /// borrow and is written before the wrapped difference.
    fn handle_subtraction(&mut self, register1: u8, register2: u8, store_register: u8)
        requires
            old(self).wf(),
            register1 < REGISTER_COUNT,
            register2 < REGISTER_COUNT,
            store_register < REGISTER_COUNT,
        ensures
            final(self).wf(),
            final(self)@ == spec_subtraction(old(self)@, register1, register2, store_register),
    {
        let reg1 = self.registers[register1 as usize];
        let reg2 = self.registers[register2 as usize];
        if reg1 >= reg2 {
            self.registers.set(FLAG_REGISTER, 1);
        } else {
            self.registers.set(FLAG_REGISTER, 0);
        }
        self.registers.set(store_register as usize, sub8(reg1, reg2));
        self.pc = add16(self.pc, INSTRUCTION_SIZE);
    }

    /// `8xy6` / `8xyE`: shift the register one bit; the `y` operand is
    /// ignored.
    fn handle_shift(&mut self, register1: u8, _register2: u8, direction_right: bool)
        requires
            old(self).wf(),
            register1 < REGISTER_COUNT,
        ensures
            final(self).wf(),
            final(self)@ == spec_shift(old(self)@, register1, direction_right),
    {
        let v = self.registers[register1 as usize];
        if direction_right {
            self.registers.set(register1 as usize, v >> 1u8);
        } else {
            self.registers.set(register1 as usize, v << 1u8);
        }
        self.pc = add16(self.pc, INSTRUCTION_SIZE);
    }

    /// `Annn`: load the index register.
    fn handle_set_index_register(&mut self, value: usize)
        requires
            old(self).wf(),
            value < MEMORY_SIZE,
        ensures
            final(self).wf(),
            final(self)@ == spec_set_index_register(old(self)@, value as u16),
    {
        self.index_register = value as u16;
        self.pc = add16(self.pc, INSTRUCTION_SIZE);
    }

    /// `Bnnn`: jump with offset, relative to the current program counter.
    fn handle_jump_with_offset(&mut self, location: usize)
        requires
            old(self).wf(),
            location < MEMORY_SIZE,
        ensures
            final(self).wf(),
            final(self)@ == spec_jump_with_offset(old(self)@, location as u16),
    {
        self.pc = (((self.pc as u32) + (location as u32) + (self.registers[0] as u32))
            % 0x10000) as u16;
    }

    /// `Cxnn`: a random byte masked by the immediate.
    fn handle_generate_random_number(&mut self, register: u8, value: u8)
        requires
            old(self).wf(),
            register < REGISTER_COUNT,
        ensures
            final(self).wf(),
            exists|rnd: u8|
                final(self)@ == spec_generate_random_number(old(self)@, register, value, rnd),
    {
        let rnd = random_byte();
        self.registers.set(register as usize, rnd & value);
        self.pc = add16(self.pc, INSTRUCTION_SIZE);
        proof {
            assert(self@ == spec_generate_random_number(old(self)@, register, value, rnd));
        }
    }

    /// `Ex9E` / `ExA1`: the keyboard is a stub; no key is ever reported
    /// pressed, so neither variant skips.
    fn handle_skip_on_key(&mut self, _register: u8, _should_be_pressed: bool)
        requires
            old(self).wf(),
        ensures
            final(self).wf(),
            final(self)@ == spec_advance(old(self)@),
    {
        self.pc = add16(self.pc, INSTRUCTION_SIZE);
    }

    /// `Fx07`: read the delay timer into a register.
    fn handle_get_delay_timer(&mut self, register: u8)
        requires
            old(self).wf(),
            register < REGISTER_COUNT,
        ensures
            final(self).wf(),
            final(self)@ == spec_get_delay_timer(old(self)@, register),
    {
        let v = self.delay_timer;
        self.registers.set(register as usize, v);
        self.pc = add16(self.pc, INSTRUCTION_SIZE);
    }

    /// `Fx15`: load the delay timer from a register.
    fn handle_set_delay_timer(&mut self, register: u8)
        requires
            old(self).wf(),
            register < REGISTER_COUNT,
        ensures
            final(self).wf(),
            final(self)@ == spec_set_delay_timer(old(self)@, register),
    {
        self.delay_timer = self.registers[register as usize];
        self.pc = add16(self.pc, INSTRUCTION_SIZE);
    }

    /// `Fx18`: load the sound timer from a register.
    fn handle_set_sound_timer(&mut self, register: u8)
        requires
            old(self).wf(),
            register < REGISTER_COUNT,
        ensures
            final(self).wf(),
            final(self)@ == spec_set_sound_timer(old(self)@, register),
    {
        self.sound_timer = self.registers[register as usize];
        self.pc = add16(self.pc, INSTRUCTION_SIZE);
    }

    /// `Fx1E`: add a register into the index register.
    fn handle_add_into_index_register(&mut self, register: u8)
        requires
            old(self).wf(),
            register < REGISTER_COUNT,
        ensures
            final(self).wf(),
            final(self)@ == spec_add_into_index_register(old(self)@, register),
    {
        let v = self.registers[register as usize];
        self.index_register = add16(self.index_register, v as u16);
        self.pc = add16(self.pc, INSTRUCTION_SIZE);
    }

    /// `Fx0A`: wait-for-key is a stub; nothing blocks.
    fn handle_wait_for_key(&mut self, _register: u8)
        requires
            old(self).wf(),
        ensures
            final(self).wf(),
            final(self)@ == spec_advance(old(self)@),
    {
        self.pc = add16(self.pc, INSTRUCTION_SIZE);
    }

    /// `Fx29`: point the index register at the glyph for the register's
    /// value (the glyph address is the value itself).
    fn handle_set_index_register_to_addr(&mut self, register: u8)
        requires
            old(self).wf(),
            register < REGISTER_COUNT,
        ensures
            final(self).wf(),
            final(self)@ == spec_set_index_register_to_addr(old(self)@, register),
    {
        self.index_register = self.registers[register as usize] as u16;
        self.pc = add16(self.pc, INSTRUCTION_SIZE);
    }

    /// `Fx33`: store the decimal digits of the register value at the index
    /// register and the two following addresses.
    fn handle_number_division(&mut self, register: u8)
        requires
            old(self).wf(),
            register < REGISTER_COUNT,
        ensures
            final(self).wf(),
            final(self)@ == spec_number_division(old(self)@, register),
    {
        let reg = self.registers[register as usize];
        let third = reg % 10;
        let rest = reg / 10;
        let second = rest % 10;
        let first_digit = rest / 10;
        proof {
            lemma_div_denominator(reg as int, 10, 10);
        }

        let a0 = mem_index(self.index_register, 0);
        let a1 = mem_index(self.index_register, 1);
        let a2 = mem_index(self.index_register, 2);
        self.memory.set(a0, first_digit);
        self.memory.set(a1, second);
        self.memory.set(a2, third);
        self.pc = add16(self.pc, INSTRUCTION_SIZE);
    }

    /// `Fx55`: store registers `0 ..= x` into memory at the index register.
    #[verifier::loop_isolation(false)]
    fn handle_store_memory(&mut self, register: u8)
        requires
            old(self).wf(),
            register < REGISTER_COUNT,
        ensures
            final(self).wf(),
            final(self)@ == spec_store_memory(old(self)@, register),
    {
        let ghost pre = self@;
        proof {
            assert(self@.memory =~= stored_memory(
                pre.memory, pre.registers, pre.index_register, -1));
        }
        let count = register as usize + 1;
        let mut i: usize = 0;
        while i < count
            invariant
                i <= count,
                self@.registers == pre.registers,
                self@.pc == pre.pc,
                self@.index_register == pre.index_register,
                self@.delay_timer == pre.delay_timer,
                self@.sound_timer == pre.sound_timer,
                self@.stack == pre.stack,
                self@.pixels == pre.pixels,
                self@.memory == stored_memory(
                    pre.memory, pre.registers, pre.index_register, i as int - 1),
            decreases count - i,
        {
            let a = mem_index(self.index_register, i as u16);
            let v = self.registers[i];
            self.memory.set(a, v);
            proof {
                lemma_wrap_round_trip(pre.index_register as int, i as int, MEMORY_SIZE as int);
                assert forall|k: int| 0 <= k < MEMORY_SIZE && k != a implies
                    #[trigger] ((k - pre.index_register) % (MEMORY_SIZE as int)) != i as int by {
                    lemma_wrap_unique(pre.index_register as int, k, MEMORY_SIZE as int);
                }
                assert(self@.memory =~= stored_memory(
                    pre.memory, pre.registers, pre.index_register, i as int));
            }
            i += 1;
        }
        self.pc = add16(self.pc, INSTRUCTION_SIZE);
    }

    /// `Fx65`: fill the whole register file from memory at the index
    /// register; the `x` bound is not honoured in this direction.
    #[verifier::loop_isolation(false)]
    fn handle_load_memory(&mut self, _register: u8)
        requires
            old(self).wf(),
        ensures
            final(self).wf(),
            final(self)@ == spec_load_memory(old(self)@, _register),
    {
        let ghost pre = self@;
        let mut i: usize = 0;
        while i < REGISTER_COUNT
            invariant
                i <= REGISTER_COUNT,
                self@.registers.len() == REGISTER_COUNT,
                self@.pc == pre.pc,
                self@.index_register == pre.index_register,
                self@.delay_timer == pre.delay_timer,
                self@.sound_timer == pre.sound_timer,
                self@.memory == pre.memory,
                self@.stack == pre.stack,
                self@.pixels == pre.pixels,
                forall|j: int| 0 <= j < i
                    ==> self@.registers[j] == pre.memory[mem_addr(pre.index_register, j)],
                forall|j: int| i <= j < REGISTER_COUNT
                    ==> self@.registers[j] == pre.registers[j],
            decreases REGISTER_COUNT - i,
        {
            let a = mem_index(self.index_register, i as u16);
            let v = self.memory[a];
            self.registers.set(i, v);
            i += 1;
        }
        self.pc = add16(self.pc, INSTRUCTION_SIZE);
        proof {
            assert(self@.registers =~= spec_load_memory(pre, _register).registers);
        }
    }

    /// `Dxyn`: draw a sprite by XOR, wrapping both coordinates; the flag
    /// register is rewritten per pixel, so it ends up reporting the last
    /// cell's collision state.
    #[verifier::loop_isolation(false)]
    fn handle_display(&mut self, sprite_size: u8, x_register_source: u8, y_register_source: u8)
        requires
            old(self).wf(),
            sprite_size < 16,
            x_register_source < REGISTER_COUNT,
            y_register_source < REGISTER_COUNT,
        ensures
            final(self).wf(),
            final(self)@ == spec_display(
                old(self)@, x_register_source, y_register_source, sprite_size),
    {
        let ghost pre = self@;
        let x = self.registers[x_register_source as usize];
        let y = self.registers[y_register_source as usize];

        proof {
            assert(self@.pixels =~= drawn_pixels_upto(pre, x, y, 0, 0));
        }

        let mut sprite_row: u8 = 0;
        while sprite_row < sprite_size
            invariant
                sprite_row <= sprite_size,
                self@.pc == pre.pc,
                self@.index_register == pre.index_register,
                self@.delay_timer == pre.delay_timer,
                self@.sound_timer == pre.sound_timer,
                self@.memory == pre.memory,
                self@.stack == pre.stack,
                self@.registers == draw_registers_upto(pre, x, y, sprite_row as int, 0),
                self@.pixels == drawn_pixels_upto(pre, x, y, sprite_row as int, 0),
            decreases sprite_size - sprite_row,
        {
            let byte = self.memory[mem_index(self.index_register, sprite_row as u16)];
            let mut sprite_col: u8 = 0;
            while sprite_col < 8
                invariant
                    sprite_col <= 8,
                    sprite_row < sprite_size,
                    byte == sprite_byte(pre.memory, pre.index_register, sprite_row as int),
                    self@.pc == pre.pc,
                    self@.index_register == pre.index_register,
                    self@.delay_timer == pre.delay_timer,
                    self@.sound_timer == pre.sound_timer,
                    self@.memory == pre.memory,
                    self@.stack == pre.stack,
                    self@.registers == draw_registers_upto(
                        pre, x, y, sprite_row as int, sprite_col as int),
                    self@.pixels == drawn_pixels_upto(
                        pre, x, y, sprite_row as int, sprite_col as int),
                decreases 8 - sprite_col,
            {
                let ghost row = sprite_row as int;
                let ghost col = sprite_col as int;

                let sprite_value = (byte & (1u8 << (7 - sprite_col))) != 0;
                let xpos = ((x as u16 + sprite_col as u16) % 64) as u8;
                let ypos = ((y as u16 + sprite_row as u16) % 32) as u8;
                let ghost pos = draw_target(x, y, row, col);

                proof {
                    lemma_wrap_round_trip(y as int, row, SCREEN_HEIGHT as int);
                    lemma_wrap_round_trip(x as int, col, SCREEN_WIDTH as int);
                    lemma_fundamental_div_mod_converse(
                        pos, SCREEN_WIDTH as int, ypos as int, xpos as int);
                    assert(sprite_row_of(pos, y) == row && sprite_col_of(pos, x) == col);
                    assert(drawn_pixels_upto(pre, x, y, row, col)[pos] == pre.pixels[pos]);
                }

                let old_value = self.graphics.get_pixel(xpos, ypos);
                let xor_value = old_value ^ sprite_value;

                if old_value && sprite_value {
                    self.registers.set(FLAG_REGISTER, 1);
                } else {
                    self.registers.set(FLAG_REGISTER, 0);
                }
                self.graphics.set_pixel(xpos, ypos, xor_value);

                proof {
                    assert(self@.registers =~= draw_registers_upto(pre, x, y, row, col + 1));

                    assert forall|k: int|
                        0 <= k < PIXEL_COUNT && k != pos
                            && sprite_col_of(k, x) < 8
                        implies !(sprite_row_of(k, y) == row && sprite_col_of(k, x) == col) by {
                        if sprite_row_of(k, y) == row && sprite_col_of(k, x) == col {
                            assert(0 <= k / (SCREEN_WIDTH as int) < SCREEN_HEIGHT as int)
                                by (nonlinear_arith)
                                requires 0 <= k < 2048;
                            lemma_wrap_unique(y as int, k / (SCREEN_WIDTH as int),
                                SCREEN_HEIGHT as int);
                            lemma_wrap_unique(x as int, k % (SCREEN_WIDTH as int),
                                SCREEN_WIDTH as int);
                            lemma_fundamental_div_mod(k, SCREEN_WIDTH as int);
                        }
                    }
                    assert(self@.pixels =~= drawn_pixels_upto(pre, x, y, row, col + 1));
                }

                sprite_col += 1;
            }
            proof {
                assert(drawn_pixels_upto(pre, x, y, sprite_row as int, 8)
                    =~= drawn_pixels_upto(pre, x, y, sprite_row as int + 1, 0));
            }
            sprite_row += 1;
        }
        self.pc = add16(self.pc, INSTRUCTION_SIZE);
        proof {
            assert(self@ =~= spec_display(
                pre, x_register_source, y_register_source, sprite_size));
        }
    }

    /// Execute one decoded instruction: match it against the opcode table,
    /// first match wins, and run the matching handler; an unmatched pattern
    /// is a no-op that advances the program counter.  `Err` exactly when a
    /// subroutine return finds the stack empty (the machine's one fatal
    /// condition), and then nothing has changed.
    pub fn process_instruction(&mut self, instruction: Instruction) -> (r: Result<(), VmFault>)
        requires
            old(self).wf(),
            instruction.wf(),
        ensures
            final(self).wf(),
            r is Err <==> spec_fatal(old(self)@, instruction),
            match r {
                Ok(()) => exists|rnd: u8|
                    spec_step(old(self)@, instruction, rnd) == Some(final(self)@),
                Err(f) => f == VmFault::EmptyStackReturn && final(self)@ == old(self)@,
            },
    {
        let Instruction { first, x, y, n, nn, nnn } = instruction;
        if first == 0x0 && x == 0x0 && y == 0xE && n == 0x0 {
            self.handle_clear_screen();
        } else if first == 0x0 && x == 0x0 && y == 0xE && n == 0xE {
            let r = self.handle_return();
            proof {
                if r is Ok {
                    assert(spec_step(old(self)@, instruction, 0u8) == Some(self@));
                }
            }
            return r;
        } else if first == 0x0 {
            self.handle_call_subroutine(nnn);
        } else if first == 0x1 {
            self.handle_jump(nnn);
        } else if first == 0x6 {
            self.handle_set_register_literal(x, nn);
        } else if first == 0x7 {
            self.handle_add_into_register(x, nn);
        } else if first == 0x3 {
            self.handle_skip_on_equal(x, nn);
        } else if first == 0x4 {
            self.handle_skip_on_not_equal(x, nn);
        } else if first == 0x5 && n == 0x0 {
            self.handle_skip_on_equal_register(x, y);
        } else if first == 0x9 && n == 0x0 {
            self.handle_skip_on_not_equal_register(x, y);
        } else if first == 0x8 && n == 0x0 {
            self.handle_set_register(x, y);
        } else if first == 0x8 && n == 0x1 {
            self.handle_binary_or(x, y);
        } else if first == 0x8 && n == 0x2 {
            self.handle_binary_and(x, y);
        } else if first == 0x8 && n == 0x3 {
            self.handle_binary_xor(x, y);
        } else if first == 0x8 && n == 0x4 {
            self.handle_add_register_with_carry(x, y);
        } else if first == 0x8 && n == 0x5 {
            self.handle_subtraction(x, y, x);
        } else if first == 0x8 && n == 0x7 {
            self.handle_subtraction(y, x, y);
        } else if first == 0x8 && n == 0x6 {
            self.handle_shift(x, y, true);
        } else if first == 0x8 && n == 0xE {
            self.handle_shift(x, y, false);
        } else if first == 0xA {
            self.handle_set_index_register(nnn);
        } else if first == 0xB {
            self.handle_jump_with_offset(nnn);
        } else if first == 0xC {
            self.handle_generate_random_number(x, nn);
            proof {
                let rnd = choose|rnd: u8|
                    self@ == spec_generate_random_number(old(self)@, x, nn, rnd);
                assert(spec_step(old(self)@, instruction, rnd) == Some(self@));
            }
            return Ok(());
        } else if first == 0xD {
            self.handle_display(n, x, y);
        } else if first == 0xE && y == 0x9 && n == 0xE {
            self.handle_skip_on_key(x, true);
        } else if first == 0xE && y == 0xA && n == 0x1 {
            self.handle_skip_on_key(x, false);
        } else if first == 0xF && y == 0x0 && n == 0x7 {
            self.handle_get_delay_timer(x);
        } else if first == 0xF && y == 0x1 && n == 0x5 {
            self.handle_set_delay_timer(x);
        } else if first == 0xF && y == 0x1 && n == 0x8 {
            self.handle_set_sound_timer(x);
        } else if first == 0xF && y == 0x1 && n == 0xE {
            self.handle_add_into_index_register(x);
        } else if first == 0xF && y == 0x0 && n == 0xA {
            self.handle_wait_for_key(x);
        } else if first == 0xF && y == 0x2 && n == 0x9 {
            self.handle_set_index_register_to_addr(x);
        } else if first == 0xF && y == 0x3 && n == 0x3 {
            self.handle_number_division(x);
        } else if first == 0xF && y == 0x5 && n == 0x5 {
            self.handle_store_memory(x);
        } else if first == 0xF && y == 0x6 && n == 0x5 {
            self.handle_load_memory(x);
        } else {
            self.pc = add16(self.pc, INSTRUCTION_SIZE);
        }
        proof {
            assert(spec_step(old(self)@, instruction, 0u8) == Some(self@));
        }
        Ok(())
    }

    /// One turn of the fetch-decode-execute loop: read the two bytes at the
    /// program counter (both fetch addresses reduced into memory range),
    /// decode them and execute the result.
    pub fn step(&mut self) -> (r: Result<(), VmFault>)
        requires
            old(self).wf(),
        ensures
            final(self).wf(),
            r is Err <==> spec_fatal(old(self)@, spec_fetched(old(self)@)),
            match r {
                Ok(()) => exists|rnd: u8|
                    spec_step(old(self)@, spec_fetched(old(self)@), rnd) == Some(final(self)@),
                Err(f) => f == VmFault::EmptyStackReturn && final(self)@ == old(self)@,
            },
    {
        let b0 = self.memory[mem_index(self.pc, 0)];
        let b1 = self.memory[mem_index(self.pc, 1)];
        let instruction = Instruction::new(b0, b1);
        proof {
            assert(instruction == spec_fetched(self@));
        }
        self.process_instruction(instruction)
    }

    /// The program counter.
    pub fn pc(&self) -> (r: u16)
        ensures
            r == self@.pc,
    {
        self.pc
    }

    /// A general-purpose register.
    pub fn register(&self, index: u8) -> (r: u8)
        requires
            self.wf(),
            index < REGISTER_COUNT,
        ensures
            r == self@.registers[index as int],
    {
        self.registers[index as usize]
    }

    /// The index register.
    pub fn index_register(&self) -> (r: u16)
        ensures
            r == self@.index_register,
    {
        self.index_register
    }

    /// The delay timer.
    pub fn delay_timer(&self) -> (r: u8)
        ensures
            r == self@.delay_timer,
    {
        self.delay_timer
    }

    /// The sound timer.
    pub fn sound_timer(&self) -> (r: u8)
        ensures
            r == self@.sound_timer,
    {
        self.sound_timer
    }

    /// One byte of memory.
    pub fn memory_byte(&self, addr: usize) -> (r: u8)
        requires
            self.wf(),
            addr < MEMORY_SIZE,
        ensures
            r == self@.memory[addr as int],
    {
        self.memory[addr]
    }

    /// The depth of the call-return stack.
    pub fn stack_depth(&self) -> (r: usize)
        ensures
            r == self@.stack.len(),
    {
        self.stack.len()
    }

    /// The pixel at column `x`, row `y`.
    pub fn pixel(&self, x: u8, y: u8) -> (r: bool)
        requires
            self.wf(),
            x < SCREEN_WIDTH,
            y < SCREEN_HEIGHT,
        ensures
            r == self@.pixels[y as int * SCREEN_WIDTH as int + x as int],
    {
        self.graphics.pixel(x, y)
    }
}

} // verus!

//! Laws of the machine that relate several instructions, proved once and
//! for all states: the subroutine round trip, the self-inverse draw, and
//! the harmlessness of unrecognized patterns.

use vstd::prelude::*;
use crate::decode::Instruction;
use crate::semantics::{
    spec_advance, spec_call_subroutine, spec_display, spec_recognized, spec_return, spec_step,
    State, FLAG_REGISTER, PIXEL_COUNT,
};

verus! {

/// Calling a subroutine and then returning resumes at the instruction
/// immediately after the call site: for any call pattern (class 0, not the
/// clear-screen or return pattern), the call step followed by the return
/// step yields the starting state with the program counter advanced past
/// the call, the stack included.
pub proof fn lemma_call_return_round_trip(pre: State, call: Instruction, rnd1: u8, rnd2: u8)
    requires
        pre.wf(),
        call.wf(),
        call.first == 0x0,
        !(call.x == 0x0 && call.y == 0xE && (call.n == 0x0 || call.n == 0xE)),
    ensures
        spec_step(pre, call, rnd1) == Some(spec_call_subroutine(pre, call.nnn as u16)),
        spec_step(
            spec_call_subroutine(pre, call.nnn as u16),
            Instruction::spec_new(0x00, 0xEE),
            rnd2,
        ) == Some(spec_advance(pre)),
{
    let called = spec_call_subroutine(pre, call.nnn as u16);
    let ret = Instruction::spec_new(0x00, 0xEE);
    assert(0x00u8 >> 4 == 0x0 && 0x00u8 & 15 == 0x0 && 0xEEu8 >> 4 == 0xE && 0xEEu8 & 15 == 0xE)
        by (bit_vector);
    assert(called.stack.len() > 0);
    assert(spec_return(called) is Some);
    assert(called.stack.drop_last() =~= pre.stack);
    assert(spec_return(called)->Some_0 =~= spec_advance(pre));
}

/// Drawing the same sprite at the same position twice restores every pixel
/// to its state before the first draw.  The sprite position registers must
/// not be the flag register: the first draw rewrites the flag, so a sprite
/// positioned by the flag register would move between the two draws.
pub proof fn lemma_draw_twice_restores_pixels(pre: State, x: u8, y: u8, n: u8)
    requires
        pre.wf(),
        x < 16,
        y < 16,
        n < 16,
        x as int != FLAG_REGISTER as int,
        y as int != FLAG_REGISTER as int,
    ensures
        spec_display(spec_display(pre, x, y, n), x, y, n).pixels == pre.pixels,
{
    let s1 = spec_display(pre, x, y, n);
    let s2 = spec_display(s1, x, y, n);
    assert(s1.registers[x as int] == pre.registers[x as int]);
    assert(s1.registers[y as int] == pre.registers[y as int]);
    assert forall|k: int| 0 <= k < PIXEL_COUNT implies #[trigger] s2.pixels[k] == pre.pixels[k]
        by {
        assert(s1.pixels.len() == PIXEL_COUNT);
    }
    assert(s2.pixels =~= pre.pixels);
}

/// An operand record that matches no row of the opcode table advances the
/// program counter by one instruction and changes nothing else: not a
/// register, not a memory cell, not a pixel.
pub proof fn lemma_unrecognized_advances_only(pre: State, ins: Instruction, rnd: u8)
    requires
        pre.wf(),
        ins.wf(),
        !spec_recognized(ins),
    ensures
        spec_step(pre, ins, rnd) == Some(spec_advance(pre)),
{
}

} // verus!

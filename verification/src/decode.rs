//! The instruction decoder: two raw bytes become a structured operand record.
//!
//! Decoding is pure and total: any two bytes decode successfully.  Rejecting
//! unrecognized bit patterns is the dispatch table's job, not the decoder's.

use vstd::prelude::*;

verus! {

/// A decoded instruction.
///
/// The fields are carved out of the two raw bytes: `first` is the 4-bit
/// opcode class, `x` and `y` are 4-bit register indices, `n` is a 4-bit
/// immediate, `nn` is the low byte (`y` and `n` concatenated), and `nnn` is
/// the 12-bit address (`x`, `y` and `n` concatenated).  Every field is
/// derived from the bytes; the record stores nothing else.
#[derive(Clone, Copy, Debug, PartialEq, Eq, Structural)]
pub struct Instruction {
    pub first: u8,
    pub x: u8,
    pub y: u8,
    pub n: u8,
    pub nn: u8,
    pub nnn: usize,
}

impl Instruction {
    /// The operand record of the bytes `b0`, `b1`, as mathematics.
    pub open spec fn spec_new(b0: u8, b1: u8) -> Instruction {
        Instruction {
            first: b0 >> 4,
            x: b0 & 15,
            y: b1 >> 4,
            n: b1 & 15,
            nn: ((b1 >> 4) << 4) | (b1 & 15),
            nnn: (((b0 & 15) as usize) << 8) | (((b1 >> 4) as usize) << 4) | ((b1 & 15) as usize),
        }
    }

    /// Internal consistency: the nibble fields are 4-bit values and the wide
    /// fields are exactly the stated concatenations of the nibbles.
    pub open spec fn wf(self) -> bool {
        &&& self.first < 16
        &&& self.x < 16
        &&& self.y < 16
        &&& self.n < 16
        &&& self.nn == self.y * 16 + self.n
        &&& self.nnn == self.x * 256 + self.y * 16 + self.n
    }

    /// Decode the two raw bytes of one fetched instruction.
    pub fn new(first: u8, second: u8) -> (r: Instruction)
        ensures
            r == Instruction::spec_new(first, second),
            r.wf(),
    {
        let first_nibble = first >> 4;
        let second_nibble = first & 15;
        let third_nibble = second >> 4;
        let fourth_nibble = second & 15;

        proof {
            lemma_decode_wf(first, second);
        }

        Instruction {
            first: first_nibble,
            x: second_nibble,
            y: third_nibble,
            n: fourth_nibble,
            nn: (third_nibble << 4) | fourth_nibble,
            nnn: ((second_nibble as usize) << 8) | ((third_nibble as usize) << 4)
                | (fourth_nibble as usize),
        }
    }
}

/// The decoded record of any two bytes is internally consistent.
pub proof fn lemma_decode_wf(b0: u8, b1: u8)
    ensures
        Instruction::spec_new(b0, b1).wf(),
{
    assert((b0 >> 4) < 16 && (b0 & 15) < 16 && (b1 >> 4) < 16 && (b1 & 15) < 16)
        by (bit_vector);
    assert(((b1 >> 4) << 4) | (b1 & 15) == (b1 >> 4) * 16 + (b1 & 15)) by (bit_vector);
    assert((((b0 & 15) as usize) << 8) | (((b1 >> 4) as usize) << 4) | ((b1 & 15) as usize)
        == ((b0 & 15) as usize) * 256 + ((b1 >> 4) as usize) * 16 + ((b1 & 15) as usize))
        by (bit_vector);
}

/// The wide operand fields recompose the raw bytes: for all byte pairs,
/// `nnn` is the low nibble of the first byte shifted over the whole second
/// byte, and `nn` is the second byte itself.
pub proof fn lemma_decode_operands(b0: u8, b1: u8)
    ensures
        Instruction::spec_new(b0, b1).nnn == (((b0 & 0xF) as usize) << 8) | (b1 as usize),
        Instruction::spec_new(b0, b1).nn == b1,
{
    assert((((b0 & 15) as usize) << 8) | (((b1 >> 4) as usize) << 4) | ((b1 & 15) as usize)
        == (((b0 & 0xF) as usize) << 8) | (b1 as usize)) by (bit_vector);
    assert(((b1 >> 4) << 4) | (b1 & 15) == b1) by (bit_vector);
}

} // verus!

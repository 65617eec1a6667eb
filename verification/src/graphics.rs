//! The framebuffer: a fixed 64 x 32 grid of boolean pixels, row-major.
//!
//! Only the pixel state lives here.  Presenting the grid on a host surface
//! and pumping its events is the embedder's business; the interpreter core
//! needs nothing but get, set and clear.

use vstd::prelude::*;
use vstd::pervasive::VecAdditionalExecFns;
use crate::semantics::{blank_pixels, PIXEL_COUNT, SCREEN_HEIGHT, SCREEN_WIDTH};

verus! {

/// The pixel grid.  Its view is the flat row-major pixel sequence: the
/// pixel at column `x`, row `y` is entry `y * 64 + x`.
pub struct Graphics {
    pixels: Vec<bool>,
}

impl View for Graphics {
    type V = Seq<bool>;

    closed spec fn view(&self) -> Seq<bool> {
        self.pixels@
    }
}

impl Graphics {
    /// The grid has its fixed size.
    pub open spec fn wf(&self) -> bool {
        self@.len() == PIXEL_COUNT
    }

    /// A fresh grid with every pixel off.
    pub fn new() -> (g: Graphics)
        ensures
            g.wf(),
            g@ == blank_pixels(),
    {
        let mut pixels: Vec<bool> = Vec::new();
        let mut k: usize = 0;
        while k < PIXEL_COUNT
            invariant
                k <= PIXEL_COUNT,
                pixels@.len() == k,
                forall|i: int| 0 <= i < k ==> !pixels@[i],
            decreases PIXEL_COUNT - k,
        {
            pixels.push(false);
            k += 1;
        }
        proof {
            assert(pixels@ =~= blank_pixels());
        }
        Graphics { pixels }
    }

    /// Set the pixel at column `x`, row `y`.
    pub fn set_pixel(&mut self, x: u8, y: u8, is_active: bool)
        requires
            old(self).wf(),
            x < SCREEN_WIDTH,
            y < SCREEN_HEIGHT,
        ensures
            final(self).wf(),
            final(self)@ == old(self)@.update(y as int * SCREEN_WIDTH as int + x as int, is_active),
    {
        self.pixels.set((y as usize) * SCREEN_WIDTH + (x as usize), is_active);
    }

    /// Read the pixel at column `x`, row `y`.
    pub fn get_pixel(&mut self, x: u8, y: u8) -> (r: bool)
        requires
            old(self).wf(),
            x < SCREEN_WIDTH,
            y < SCREEN_HEIGHT,
        ensures
            *final(self) == *old(self),
            r == old(self)@[y as int * SCREEN_WIDTH as int + x as int],
    {
        self.pixels[(y as usize) * SCREEN_WIDTH + (x as usize)]
    }

    /// Read the pixel at column `x`, row `y`, without touching the grid.
    pub fn pixel(&self, x: u8, y: u8) -> (r: bool)
        requires
            self.wf(),
            x < SCREEN_WIDTH,
            y < SCREEN_HEIGHT,
        ensures
            r == self@[y as int * SCREEN_WIDTH as int + x as int],
    {
        self.pixels[(y as usize) * SCREEN_WIDTH + (x as usize)]
    }

    /// Turn every pixel off.
    pub fn clear_pixels(&mut self)
        ensures
            final(self).wf(),
            final(self)@ == blank_pixels(),
    {
        let fresh = Graphics::new();
        self.pixels = fresh.pixels;
    }
}

} // verus!

//! A sampled image texture, held as a decoded grid of 8-bit colours.
//!
//! Decoding an image file is the front end's business; the texture holds
//! the decoder's output — width, height and the row-major pixels — and
//! answers lookups with the indices clamped to the grid.

use vstd::prelude::*;
use crate::color::ColorRGB;

verus! {

/// `v`, clamped from above to `hi`.
pub open spec fn spec_min(v: int, hi: int) -> int {
    if v < hi {
        v
    } else {
        hi
    }
}

/// A decoded image: `width * height` colours in row-major order.
pub struct ImageTexture {
    pub width: usize,
    pub height: usize,
    pub pixels: Vec<ColorRGB>,
}

impl ImageTexture {
    /// A non-empty grid with one colour per cell.
    pub open spec fn wf(&self) -> bool {
        &&& self.width > 0
        &&& self.height > 0
        &&& self.pixels@.len() == self.width * self.height
    }

    /// Wraps a decoded image; `None` unless the dimensions are non-zero
    /// and the pixels fill the grid exactly.
    pub fn new(width: usize, height: usize, pixels: Vec<ColorRGB>) -> (r: Option<Self>)
        ensures
            match r {
                Some(t) => {
                    &&& t.wf()
                    &&& t.width == width
                    &&& t.height == height
                    &&& t.pixels == pixels
                },
                None => !(width > 0 && height > 0 && pixels@.len() == width * height),
            },
    {
        let len = pixels.len();
        let cells = width.checked_mul(height);
        match cells {
            Some(n) if width > 0 && height > 0 && len == n => Some(
                Self { width, height, pixels },
            ),
            _ => None,
        }
    }

    pub fn width(&self) -> (r: usize)
        ensures
            r == self.width,
    {
        self.width
    }

    pub fn height(&self) -> (r: usize)
        ensures
            r == self.height,
    {
        self.height
    }

    /// The pixel at column `x` of row `y`, each index clamped to the last
    /// column or row when it points past the grid.
    pub open spec fn spec_pixel_at(&self, x: int, y: int) -> ColorRGB {
        self.pixels@[spec_min(y, self.height - 1) * self.width + spec_min(x, self.width - 1)]
    }

    pub fn pixel_at(&self, x: usize, y: usize) -> (r: ColorRGB)
        requires
            self.wf(),
        ensures
            r == self.spec_pixel_at(x as int, y as int),
    {
        let cx: usize = if x < self.width {
            x
        } else {
            self.width - 1
        };
        let cy: usize = if y < self.height {
            y
        } else {
            self.height - 1
        };
        let len = self.pixels.len();
        proof {
            assert(cy * self.width + cx < self.width * self.height) by (nonlinear_arith)
                requires
                    cx < self.width,
                    cy < self.height,
            ;
            assert(self.width * self.height == len);
        }
        let index: usize = cy * self.width + cx;
        self.pixels[index]
    }
}

/// A one-by-one image answers every lookup with its single pixel.
pub proof fn lemma_single_pixel_everywhere(t: ImageTexture, x: int, y: int)
    requires
        t.wf(),
        t.width == 1,
        t.height == 1,
        x >= 0,
        y >= 0,
    ensures
        t.spec_pixel_at(x, y) == t.pixels@[0],
{
}

} // verus!

//! The PPM pixel buffer: a row-major grid of 8-bit colours, written one
//! pixel at a time, and serialised as a `P3` (ASCII) or `P6` (binary)
//! image. Writing the bytes to disk is the caller's business; this module
//! produces them.

use vstd::prelude::*;
use vstd::pervasive::VecAdditionalExecFns;
use crate::color::ColorRGB;

verus! {

/// The two PPM header magic numbers: ASCII triples (`P3`) or binary
/// triples (`P6`).
#[derive(Debug, PartialEq, Eq, Structural, Clone, Copy)]
pub enum PPMImgMagicNum {
    P3,
    P6,
}

impl PPMImgMagicNum {
    /// The two header bytes: `P` followed by the format digit.
    pub open spec fn spec_bytes(self) -> Seq<u8> {
        match self {
            PPMImgMagicNum::P3 => seq![80u8, 51u8],
            PPMImgMagicNum::P6 => seq![80u8, 54u8],
        }
    }

    /// The magic number as its two ASCII bytes.
    pub fn bytes(&self) -> (r: [u8; 2])
        ensures
            r@ == self.spec_bytes(),
    {
        let r: [u8; 2] = match self {
            PPMImgMagicNum::P3 => [80u8, 51u8],
            PPMImgMagicNum::P6 => [80u8, 54u8],
        };
        proof {
            assert(r@ =~= self.spec_bytes());
        }
        r
    }
}

/// The decimal digits of `n` in ASCII, most significant first.
pub open spec fn spec_decimal(n: nat) -> Seq<u8>
    decreases n,
{
    if n < 10 {
        seq![(48 + n) as u8]
    } else {
        spec_decimal(n / 10) + seq![(48 + n % 10) as u8]
    }
}

/// Appends the decimal digits of `n` to `out`.
pub fn push_decimal(n: usize, out: &mut Vec<u8>)
    ensures
        final(out)@ == old(out)@ + spec_decimal(n as nat),
    decreases n,
{
    if n >= 10 {
        push_decimal(n / 10, out);
    }
    out.push(48 + (n % 10) as u8);
    proof {
        assert(out@ =~= old(out)@ + spec_decimal(n as nat));
    }
}

/// One pixel as a `P3` line: the three channels in decimal, separated by
/// spaces, closed by a newline.
pub open spec fn spec_pixel_p3(c: ColorRGB) -> Seq<u8> {
    spec_decimal(c.0 as nat) + seq![32u8] + spec_decimal(c.1 as nat) + seq![32u8] + spec_decimal(
        c.2 as nat,
    ) + seq![10u8]
}

/// The pixels in order, each as its `P3` line.
pub open spec fn spec_pixels_p3(s: Seq<ColorRGB>) -> Seq<u8>
    decreases s.len(),
{
    if s.len() == 0 {
        Seq::empty()
    } else {
        spec_pixels_p3(s.drop_last()) + spec_pixel_p3(s.last())
    }
}

/// The pixels in order, each as its three raw `P6` bytes.
pub open spec fn spec_pixels_p6(s: Seq<ColorRGB>) -> Seq<u8>
    decreases s.len(),
{
    if s.len() == 0 {
        Seq::empty()
    } else {
        spec_pixels_p6(s.drop_last()) + seq![s.last().0, s.last().1, s.last().2]
    }
}

/// The PPM header: magic number, then width and height, then the maximum
/// colour component, each line closed by a newline.
pub open spec fn spec_ppm_header(
    magic: PPMImgMagicNum,
    width: nat,
    height: nat,
    max_component: u8,
) -> Seq<u8> {
    magic.spec_bytes() + seq![10u8] + spec_decimal(width) + seq![32u8] + spec_decimal(height)
        + seq![10u8] + spec_decimal(max_component as nat) + seq![10u8]
}

proof fn lemma_pixels_p3_take(s: Seq<ColorRGB>, i: int)
    requires
        0 <= i < s.len(),
    ensures
        spec_pixels_p3(s.take(i + 1)) == spec_pixels_p3(s.take(i)) + spec_pixel_p3(s[i]),
{
    assert(s.take(i + 1).drop_last() =~= s.take(i));
    assert(s.take(i + 1).last() == s[i]);
}

proof fn lemma_pixels_p6_take(s: Seq<ColorRGB>, i: int)
    requires
        0 <= i < s.len(),
    ensures
        spec_pixels_p6(s.take(i + 1)) == spec_pixels_p6(s.take(i)) + seq![
            s[i].0,
            s[i].1,
            s[i].2,
        ],
{
    assert(s.take(i + 1).drop_last() =~= s.take(i));
    assert(s.take(i + 1).last() == s[i]);
}

/// The largest of four bytes.
pub open spec fn spec_max4(a: u8, b: u8, c: u8, d: u8) -> u8 {
    let ab = if a >= b {
        a
    } else {
        b
    };
    let abc = if ab >= c {
        ab
    } else {
        c
    };
    if abc >= d {
        abc
    } else {
        d
    }
}

/// The running maximum after one write: the plain maximum of the new
/// channels and the old value, nudged up by one unless it sits at either
/// end of the byte range — so the header over-reports by one in the
/// middle of the range, a harmless reporting quirk.
pub open spec fn spec_bumped_max(m: u8) -> u8 {
    if m == 0 || m == 255 {
        m
    } else {
        (m + 1) as u8
    }
}

/// A `WIDTH` by `HEIGHT` grid of 8-bit colours in row-major order,
/// together with the header's magic number and the running maximum colour
/// component observed while writing.
pub struct PPMImg<const WIDTH: usize, const HEIGHT: usize> {
    pub magic_number: PPMImgMagicNum,
    pub max_color_component: u8,
    pub data_buffer: Vec<ColorRGB>,
}

impl<const WIDTH: usize, const HEIGHT: usize> PPMImg<WIDTH, HEIGHT> {
    /// The buffer holds exactly one colour per grid cell.
    pub open spec fn wf(&self) -> bool {
        self.data_buffer@.len() == WIDTH * HEIGHT
    }

    /// The pixel at `(row, column)` sits at `row * WIDTH + column`.
    pub open spec fn spec_index(row: int, column: int) -> int {
        row * WIDTH + column
    }

    /// A zero-filled (black) image with the given magic number.
    pub fn new(magic_number: PPMImgMagicNum) -> (img: Self)
        requires
            WIDTH * HEIGHT <= usize::MAX,
        ensures
            img.wf(),
            img.magic_number == magic_number,
            img.max_color_component == 0,
            forall|i: int|
                0 <= i < img.data_buffer@.len() ==> img.data_buffer@[i] == (ColorRGB(0, 0, 0)),
    {
        let n: usize = WIDTH * HEIGHT;
        let mut data_buffer: Vec<ColorRGB> = Vec::new();
        let mut i: usize = 0;
        while i < n
            invariant
                i <= n,
                data_buffer@.len() == i,
                forall|k: int| 0 <= k < i ==> data_buffer@[k] == (ColorRGB(0, 0, 0)),
            decreases n - i,
        {
            data_buffer.push(ColorRGB::default());
            i = i + 1;
        }
        Self { magic_number, max_color_component: 0, data_buffer }
    }

    /// Writes one pixel and folds its channels into the running maximum
    /// colour component.
    pub fn set_pixel_color(&mut self, row: usize, column: usize, color: ColorRGB)
        requires
            old(self).wf(),
            row < HEIGHT,
            column < WIDTH,
        ensures
            final(self).wf(),
            final(self).magic_number == old(self).magic_number,
            final(self).data_buffer@ == old(self).data_buffer@.update(
                Self::spec_index(row as int, column as int),
                color,
            ),
            final(self).max_color_component == spec_bumped_max(
                spec_max4(color.0, color.1, color.2, old(self).max_color_component),
            ),
    {
        let mut max = color.r();
        if color.g() > max {
            max = color.g();
        }
        if color.b() > max {
            max = color.b();
        }
        if self.max_color_component > max {
            max = self.max_color_component;
        }
        self.max_color_component = if max == 0 || max == 255 {
            max
        } else {
            max + 1
        };

        let len = self.data_buffer.len();
        proof {
            assert(row * WIDTH + column < WIDTH * HEIGHT) by (nonlinear_arith)
                requires
                    row < HEIGHT,
                    column < WIDTH,
            ;
            assert(WIDTH * HEIGHT == len);
        }
        let index: usize = row * WIDTH + column;
        self.data_buffer.set(index, color);
    }

    /// The whole image as PPM bytes: the header, then every pixel in
    /// row-major order in the format the magic number names.
    pub fn ppm_bytes(&self) -> (r: Vec<u8>)
        requires
            self.wf(),
        ensures
            r@ == spec_ppm_header(self.magic_number, WIDTH as nat, HEIGHT as nat,
                self.max_color_component) + match self.magic_number {
                PPMImgMagicNum::P3 => spec_pixels_p3(self.data_buffer@),
                PPMImgMagicNum::P6 => spec_pixels_p6(self.data_buffer@),
            },
    {
        let ghost header = spec_ppm_header(
            self.magic_number,
            WIDTH as nat,
            HEIGHT as nat,
            self.max_color_component,
        );
        let mut out: Vec<u8> = Vec::new();
        let magic = self.magic_number.bytes();
        out.push(magic[0]);
        out.push(magic[1]);
        out.push(10);
        push_decimal(WIDTH, &mut out);
        out.push(32);
        push_decimal(HEIGHT, &mut out);
        out.push(10);
        push_decimal(self.max_color_component as usize, &mut out);
        out.push(10);
        proof {
            assert(out@ =~= header);
        }

        let n = self.data_buffer.len();
        let mut i: usize = 0;
        match self.magic_number {
            PPMImgMagicNum::P3 => {
                while i < n
                    invariant
                        n == self.data_buffer@.len(),
                        i <= n,
                        out@ == header + spec_pixels_p3(self.data_buffer@.take(i as int)),
                    decreases n - i,
                {
                    let c = self.data_buffer[i];
                    push_decimal(c.r() as usize, &mut out);
                    out.push(32);
                    push_decimal(c.g() as usize, &mut out);
                    out.push(32);
                    push_decimal(c.b() as usize, &mut out);
                    out.push(10);
                    proof {
                        lemma_pixels_p3_take(self.data_buffer@, i as int);
                        assert(out@ =~= header + spec_pixels_p3(
                            self.data_buffer@.take(i + 1),
                        ));
                    }
                    i = i + 1;
                }
                proof {
                    assert(self.data_buffer@.take(n as int) =~= self.data_buffer@);
                }
            },
            PPMImgMagicNum::P6 => {
                while i < n
                    invariant
                        n == self.data_buffer@.len(),
                        i <= n,
                        out@ == header + spec_pixels_p6(self.data_buffer@.take(i as int)),
                    decreases n - i,
                {
                    let c = self.data_buffer[i];
                    out.push(c.r());
                    out.push(c.g());
                    out.push(c.b());
                    proof {
                        lemma_pixels_p6_take(self.data_buffer@, i as int);
                        assert(out@ =~= header + spec_pixels_p6(
                            self.data_buffer@.take(i + 1),
                        ));
                    }
                    i = i + 1;
                }
                proof {
                    assert(self.data_buffer@.take(n as int) =~= self.data_buffer@);
                }
            },
        }
        out
    }
}

} // verus!

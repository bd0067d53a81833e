//! 8-bit RGB colour and its generic mapped-range counterpart.

use vstd::prelude::*;

verus! {

/// A colour as one byte per channel, in the order red, green, blue.
#[derive(Debug, PartialEq, Eq, Structural, Clone, Copy)]
pub struct ColorRGB(pub u8, pub u8, pub u8);

impl ColorRGB {
    pub fn new(red: u8, green: u8, blue: u8) -> (c: Self)
        ensures
            c == (ColorRGB(red, green, blue)),
    {
        Self(red, green, blue)
    }

    #[inline]
    pub fn r(&self) -> (r: u8)
        ensures
            r == self.0,
    {
        self.0
    }

    #[inline]
    pub fn g(&self) -> (r: u8)
        ensures
            r == self.1,
    {
        self.1
    }

    #[inline]
    pub fn b(&self) -> (r: u8)
        ensures
            r == self.2,
    {
        self.2
    }

    /// The three channel bytes in red, green, blue order.
    pub fn as_bytes(&self) -> (r: [u8; 3])
        ensures
            r@ == seq![self.0, self.1, self.2],
    {
        let r: [u8; 3] = [self.0, self.1, self.2];
        proof {
            assert(r@ =~= seq![self.0, self.1, self.2]);
        }
        r
    }
}

impl Default for ColorRGB {
    /// Black: every channel zero.
    fn default() -> (c: Self)
        ensures
            c == (ColorRGB(0, 0, 0)),
    {
        Self(0, 0, 0)
    }
}

/// A colour as three samples of an arbitrary scalar type, nominally in
/// the range `[MIN, MAX]` per channel; the range is documentary only.
#[derive(Debug, PartialEq, Clone, Copy)]
pub struct ColorRGBMapTo<const MIN: usize, const MAX: usize, T: Copy>(pub T, pub T, pub T);

impl<const MIN: usize, const MAX: usize, T: Copy> ColorRGBMapTo<MIN, MAX, T> {
    pub fn new(red: T, green: T, blue: T) -> (c: Self)
        ensures
            c.0 == red,
            c.1 == green,
            c.2 == blue,
    {
        Self(red, green, blue)
    }

    #[inline]
    pub fn r(&self) -> (r: T)
        ensures
            r == self.0,
    {
        self.0
    }

    #[inline]
    pub fn g(&self) -> (r: T)
        ensures
            r == self.1,
    {
        self.1
    }

    #[inline]
    pub fn b(&self) -> (r: T)
        ensures
            r == self.2,
    {
        self.2
    }
}

} // verus!

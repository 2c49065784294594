//! The two-valued pixel of the monochrome display and its boolean algebra.

use vstd::prelude::*;

verus! {

/// CHIP-8 displays are black and white, so each pixel is in one of two states.
#[derive(Clone, Copy, PartialEq, Eq, Structural, Debug)]
pub enum Pixel {
    Black,
    White,
}

/// Returned when a number other than 0 or 1 is converted into a [`Pixel`].
#[derive(Clone, Copy, Debug)]
pub struct PixelConversionError;

impl PixelConversionError {
    /// The text shown for this error.
    pub fn message(&self) -> (s: &'static str)
        ensures
            s@ == "Tried to convert a number that wasn't a 0 or 1 into a Pixel."@,
    {
        "Tried to convert a number that wasn't a 0 or 1 into a Pixel."
    }
}

impl Pixel {
    /// Whether the pixel is lit.
    pub open spec fn lit(self) -> bool {
        self == Pixel::White
    }

    /// The pixel that is lit exactly when `b` holds.
    pub open spec fn of_bool(b: bool) -> Pixel {
        if b {
            Pixel::White
        } else {
            Pixel::Black
        }
    }

    /// The pixel as a bit: 0 for black, 1 for white.
    pub open spec fn bit(self) -> u8 {
        if self.lit() {
            1u8
        } else {
            0u8
        }
    }

    /// 0 for black, 1 for white.
    pub fn to_u8(self) -> (b: u8)
        ensures
            b == self.bit(),
    {
        match self {
            Pixel::Black => 0,
            Pixel::White => 1,
        }
    }

    /// `true` exactly for white.
    pub fn to_bool(self) -> (b: bool)
        ensures
            b == self.lit(),
    {
        match self {
            Pixel::Black => false,
            Pixel::White => true,
        }
    }

    /// Reads a bit as a pixel; any value but 0 and 1 is refused.
    pub fn try_from_u8(val: u8) -> (r: Result<Pixel, PixelConversionError>)
        ensures
            val == 0 ==> r == Ok::<Pixel, PixelConversionError>(Pixel::Black),
            val == 1 ==> r == Ok::<Pixel, PixelConversionError>(Pixel::White),
            val > 1 ==> r is Err,
    {
        match val {
            0 => Ok(Pixel::Black),
            1 => Ok(Pixel::White),
            _ => Err(PixelConversionError),
        }
    }

    /// Lit where both are lit.
    pub fn bitand(self, rhs: Pixel) -> (r: Pixel)
        ensures
            r == Pixel::of_bool(self.lit() && rhs.lit()),
    {
        match (self, rhs) {
            (Pixel::White, Pixel::White) => Pixel::White,
            _ => Pixel::Black,
        }
    }

    /// Lit where either is lit.
    pub fn bitor(self, rhs: Pixel) -> (r: Pixel)
        ensures
            r == Pixel::of_bool(self.lit() || rhs.lit()),
    {
        match (self, rhs) {
            (Pixel::Black, Pixel::Black) => Pixel::Black,
            _ => Pixel::White,
        }
    }

    /// Lit where exactly one is lit.
    pub fn bitxor(self, rhs: Pixel) -> (r: Pixel)
        ensures
            r == Pixel::of_bool(self.lit() != rhs.lit()),
    {
        match (self, rhs) {
            (Pixel::Black, Pixel::White) => Pixel::White,
            (Pixel::White, Pixel::Black) => Pixel::White,
            _ => Pixel::Black,
        }
    }

    /// The other state.
    pub fn not(self) -> (r: Pixel)
        ensures
            r == Pixel::of_bool(!self.lit()),
    {
        match self {
            Pixel::Black => Pixel::White,
            Pixel::White => Pixel::Black,
        }
    }

    /// In-place [`Pixel::bitand`].
    pub fn bitand_assign(&mut self, rhs: Pixel)
        ensures
            *final(self) == Pixel::of_bool(old(self).lit() && rhs.lit()),
    {
        *self = self.bitand(rhs);
    }

    /// In-place [`Pixel::bitor`].
    pub fn bitor_assign(&mut self, rhs: Pixel)
        ensures
            *final(self) == Pixel::of_bool(old(self).lit() || rhs.lit()),
    {
        *self = self.bitor(rhs);
    }

    /// In-place [`Pixel::bitxor`].
    pub fn bitxor_assign(&mut self, rhs: Pixel)
        ensures
            *final(self) == Pixel::of_bool(old(self).lit() != rhs.lit()),
    {
        *self = self.bitxor(rhs);
    }
}

impl Default for Pixel {
    fn default() -> (r: Pixel)
        ensures
            r == Pixel::Black,
    {
        Pixel::Black
    }
}

} // verus!

//! Colours with four single-precision channels.

use vstd::prelude::*;
use crate::scalar::{Scalar, ONE_BITS, ZERO_BITS};

verus! {

/// A colour; each channel is meant to lie between zero and one.
#[derive(Clone, Copy, Debug, PartialEq, Eq, Structural)]
pub struct Color {
    pub r: Scalar,
    pub g: Scalar,
    pub b: Scalar,
    pub a: Scalar,
}

/// The colour whose channels have the given bit patterns.
pub open spec fn color_of_bits(r: u32, g: u32, b: u32, a: u32) -> Color {
    Color {
        r: Scalar { bits: r },
        g: Scalar { bits: g },
        b: Scalar { bits: b },
        a: Scalar { bits: a },
    }
}

/// The 32-bit colour code made of four 8-bit channels, alpha first.
pub open spec fn hex_code(a: u8, r: u8, g: u8, b: u8) -> int {
    a * 0x100_0000 + r * 0x1_0000 + g * 0x100 + b
}

impl Color {
    /// Opaque white, the colour of a shape that was given none.
    pub open spec fn spec_white() -> Color {
        color_of_bits(ONE_BITS, ONE_BITS, ONE_BITS, ONE_BITS)
    }

    /// Opaque white.
    #[verifier::when_used_as_spec(spec_white)]
    pub fn white() -> (c: Color)
        ensures
            c == Color::spec_white(),
    {
        Color { r: Scalar::one(), g: Scalar::one(), b: Scalar::one(), a: Scalar::one() }
    }

    /// Opaque black.
    pub fn black() -> (c: Color)
        ensures
            c == color_of_bits(ZERO_BITS, ZERO_BITS, ZERO_BITS, ONE_BITS),
    {
        Color { r: Scalar::zero(), g: Scalar::zero(), b: Scalar::zero(), a: Scalar::one() }
    }

    /// Opaque green.
    pub fn green() -> (c: Color)
        ensures
            c == color_of_bits(ZERO_BITS, ONE_BITS, ZERO_BITS, ONE_BITS),
    {
        Color { r: Scalar::zero(), g: Scalar::one(), b: Scalar::zero(), a: Scalar::one() }
    }

    /// Opaque red.
    pub fn red() -> (c: Color)
        ensures
            c == color_of_bits(ONE_BITS, ZERO_BITS, ZERO_BITS, ONE_BITS),
    {
        Color { r: Scalar::one(), g: Scalar::zero(), b: Scalar::zero(), a: Scalar::one() }
    }

    /// The opaque colour with the given red, green and blue channels.
    pub fn from_rgb(r: Scalar, g: Scalar, b: Scalar) -> (c: Color)
        ensures
            c == (Color { r, g, b, a: Scalar { bits: ONE_BITS } }),
    {
        Color { r, g, b, a: Scalar::one() }
    }

    /// This colour with its alpha channel replaced.
    pub fn set_alpha(self, a: Scalar) -> (c: Color)
        ensures
            c == (Color { a, ..self }),
    {
        Color { r: self.r, g: self.g, b: self.b, a }
    }

    /// Splits a colour code `0xAARRGGBB` into its channels, returned in the
    /// order red, green, blue, alpha.
    pub fn hex_channels(hex: u32) -> (c: (u8, u8, u8, u8))
        ensures
            hex == hex_code(c.3, c.0, c.1, c.2),
    {
        let r: u8 = ((hex >> 16) & 0xff) as u8;
        let g: u8 = ((hex >> 8) & 0xff) as u8;
        let b: u8 = (hex & 0xff) as u8;
        let a: u8 = ((hex >> 24) & 0xff) as u8;
        assert(hex == (((hex >> 24) & 0xff) as u8) * 0x100_0000 + (((hex >> 16) & 0xff) as u8)
            * 0x1_0000 + (((hex >> 8) & 0xff) as u8) * 0x100 + ((hex & 0xff) as u8)) by (bit_vector);
        (r, g, b, a)
    }

    /// The bit patterns of the four channels, in the order red, green, blue,
    /// alpha.
    pub fn to_array(self) -> (w: [u32; 4])
        ensures
            w@ == seq![self.r.bits, self.g.bits, self.b.bits, self.a.bits],
    {
        let w: [u32; 4] = [self.r.bits, self.g.bits, self.b.bits, self.a.bits];
        assert(w@ =~= seq![self.r.bits, self.g.bits, self.b.bits, self.a.bits]);
        w
    }
}

} // verus!

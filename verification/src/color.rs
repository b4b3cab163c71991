//! Packed 8-bit-per-channel RGBA color.

use vstd::prelude::*;

verus! {

/// The 32-bit word that packs the four 8-bit channels, red in the least
/// significant byte and alpha in the most significant one.  On a
/// little-endian machine the bytes of this word read `r, g, b, a`, the
/// layout the external image encoder expects.
pub open spec fn pack_rgba(r: u8, g: u8, b: u8, a: u8) -> u32 {
    ((a as u32) << 24) | ((b as u32) << 16) | ((g as u32) << 8) | (r as u32)
}

/// Packing the channels into a word loses nothing: each channel can be
/// read back from its own byte of the word.
pub proof fn lemma_pack_rgba_channels(r: u8, g: u8, b: u8, a: u8)
    by (bit_vector)
    ensures
        pack_rgba(r, g, b, a) & 0xff == r as u32,
        (pack_rgba(r, g, b, a) >> 8) & 0xff == g as u32,
        (pack_rgba(r, g, b, a) >> 16) & 0xff == b as u32,
        (pack_rgba(r, g, b, a) >> 24) & 0xff == a as u32,
{
}

/// A color with four 8-bit channels: red, green, blue, alpha.
#[derive(Debug, Copy, Clone, PartialEq, Eq, Structural)]
pub struct Color {
    pub r: u8,
    pub g: u8,
    pub b: u8,
    pub a: u8,
}

impl Color {
    /// Opaque white.
    pub fn white() -> (c: Color)
        ensures
            c == (Color { r: 255, g: 255, b: 255, a: 255 }),
    {
        Color { r: 255, g: 255, b: 255, a: 255 }
    }

    /// Opaque red.
    pub fn red() -> (c: Color)
        ensures
            c == (Color { r: 255, g: 0, b: 0, a: 255 }),
    {
        Color { r: 255, g: 0, b: 0, a: 255 }
    }

    /// Opaque green.
    pub fn green() -> (c: Color)
        ensures
            c == (Color { r: 0, g: 255, b: 0, a: 255 }),
    {
        Color { r: 0, g: 255, b: 0, a: 255 }
    }

    pub fn new(r: u8, g: u8, b: u8, a: u8) -> (c: Color)
        ensures
            c == (Color { r, g, b, a }),
    {
        Color { r, g, b, a }
    }

    /// Packs the four channels into one 32-bit word, red lowest.
    pub fn to_u32(&self) -> (p: u32)
        ensures
            p == pack_rgba(self.r, self.g, self.b, self.a),
            p & 0xff == self.r as u32,
            (p >> 8) & 0xff == self.g as u32,
            (p >> 16) & 0xff == self.b as u32,
            (p >> 24) & 0xff == self.a as u32,
    {
        proof {
            lemma_pack_rgba_channels(self.r, self.g, self.b, self.a);
        }
        let r = self.r as u32;
        let g = (self.g as u32) << 8;
        let b = (self.b as u32) << 16;
        let a = (self.a as u32) << 24;
        a | b | g | r
    }
}

} // verus!

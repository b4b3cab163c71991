//! The frame buffer handed to the external image encoder.

use vstd::prelude::*;
use vstd::arithmetic::div_mod::lemma_fundamental_div_mod;

verus! {

/// The rendered frame: one packed RGBA word per pixel, row-major.
pub struct BufferWrapper {
    pixels: Vec<u32>,
}

impl View for BufferWrapper {
    type V = Seq<u32>;

    closed spec fn view(&self) -> Seq<u32> {
        self.pixels@
    }
}

impl BufferWrapper {
    pub fn new(pixels: Vec<u32>) -> (b: BufferWrapper)
        ensures
            b@ == pixels@,
    {
        BufferWrapper { pixels }
    }

    pub fn len(&self) -> (n: usize)
        ensures
            n == self@.len(),
    {
        self.pixels.len()
    }

    pub fn pixel(&self, index: usize) -> (p: u32)
        requires
            index < self@.len(),
        ensures
            p == self@[index as int],
    {
        self.pixels[index]
    }

    /// The buffer as the byte stream the image encoder consumes: each
    /// pixel word contributes its four bytes least-significant first, so
    /// a word packed by `Color::to_u32` comes out as `r, g, b, a`.
    pub fn to_bytes(&self) -> (bytes: Vec<u8>)
        ensures
            bytes@.len() == 4 * self@.len(),
            forall|i: int|
                0 <= i < self@.len() ==> {
                    &&& bytes@[4 * i] == (self@[i] & 0xff) as u8
                    &&& bytes@[4 * i + 1] == ((self@[i] >> 8) & 0xff) as u8
                    &&& bytes@[4 * i + 2] == ((self@[i] >> 16) & 0xff) as u8
                    &&& bytes@[4 * i + 3] == ((self@[i] >> 24) & 0xff) as u8
                },
    {
        let mut bytes: Vec<u8> = Vec::new();
        let mut k: usize = 0;
        while k < self.pixels.len()
            invariant
                k <= self.pixels.len(),
                bytes@.len() == 4 * k,
                forall|i: int|
                    0 <= i < k ==> {
                        &&& bytes@[4 * i] == (self.pixels@[i] & 0xff) as u8
                        &&& bytes@[4 * i + 1] == ((self.pixels@[i] >> 8) & 0xff) as u8
                        &&& bytes@[4 * i + 2] == ((self.pixels@[i] >> 16) & 0xff) as u8
                        &&& bytes@[4 * i + 3] == ((self.pixels@[i] >> 24) & 0xff) as u8
                    },
            decreases self.pixels.len() - k,
        {
            let p = self.pixels[k];
            proof {
                assert(p & 0xff < 256 && (p >> 8) & 0xff < 256 && (p >> 16) & 0xff < 256 && (p
                    >> 24) & 0xff < 256) by (bit_vector);
            }
            bytes.push((p & 0xff) as u8);
            bytes.push(((p >> 8) & 0xff) as u8);
            bytes.push(((p >> 16) & 0xff) as u8);
            bytes.push(((p >> 24) & 0xff) as u8);
            k += 1;
        }
        bytes
    }
}

/// Where buffer slot `index` lies on the image: the column and the row,
/// for a row-major image `width` pixels wide.
pub fn pixel_coords(index: usize, width: usize) -> (xy: (usize, usize))
    requires
        width > 0,
    ensures
        xy.0 == index as int % width as int,
        xy.1 == index as int / width as int,
        xy.1 * width + xy.0 == index,
        xy.0 < width,
{
    let x = index % width;
    let y = index / width;
    proof {
        lemma_fundamental_div_mod(index as int, width as int);
    }
    (x, y)
}

} // verus!

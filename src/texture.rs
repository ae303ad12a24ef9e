use vstd::prelude::*;

use crate::command::TextureImage;

verus! {

/// Byte `i` of the built-in 8x8 texture, laid out row by row with three bytes
/// (red, green, blue) a pixel: blue where the column or the row is even, black
/// elsewhere.
pub open spec fn checker_byte(i: int) -> u8 {
    let x = (i / 3) % 8;
    let y = (i / 3) / 8;
    if i % 3 == 2 && (x % 2 == 0 || y % 2 == 0) {
        255
    } else {
        0
    }
}

/// The built-in texture that objects use until a texture is set: an 8x8 grid of
/// blue lines on black.
pub fn default_texture() -> (r: TextureImage)
    ensures
        r.width == 8,
        r.height == 8,
        r.pixels@.len() == 192,
        forall|i: int| 0 <= i < 192 ==> #[trigger] r.pixels@[i] == checker_byte(i),
{
    let mut pixels: Vec<u8> = Vec::new();
    let mut i: usize = 0;
    while i < 192
        invariant
            i <= 192,
            pixels@.len() == i,
            forall|j: int| 0 <= j < i ==> #[trigger] pixels@[j] == checker_byte(j),
        decreases 192 - i,
    {
        let x = (i / 3) % 8;
        let y = (i / 3) / 8;
        let b: u8 = if i % 3 == 2 && (x % 2 == 0 || y % 2 == 0) {
            255
        } else {
            0
        };
        pixels.push(b);
        i = i + 1;
    }
    TextureImage { pixels, width: 8, height: 8 }
}

/// A single white pixel.
pub fn white_texture() -> (r: TextureImage)
    ensures
        r.width == 1,
        r.height == 1,
        r.pixels@ == seq![255u8, 255u8, 255u8],
{
    TextureImage { pixels: vec![255, 255, 255], width: 1, height: 1 }
}

} // verus!

//! CPU-side images: the GUI library's bitmaps decoded into flat RGBA byte
//! buffers ready for upload to the host graphics backend.

use vstd::prelude::*;
use crate::geom::Rgba;

verus! {

/// A flat RGBA image: four bytes per pixel, rows top to bottom.
#[derive(Debug)]
pub struct RgbaImage {
    pub width: usize,
    pub height: usize,
    pub pixels: Vec<u8>,
}

impl RgbaImage {
    /// Well-formedness: the byte buffer holds exactly four bytes per pixel.
    pub open spec fn wf(self) -> bool {
        self.pixels@.len() == 4 * self.width * self.height
    }
}

/// Byte `k` (0..4) of one color: the red, green, blue and alpha channels in
/// that order.
pub open spec fn rgba_byte(p: Rgba, k: int) -> u8 {
    if k == 0 {
        p.r
    } else if k == 1 {
        p.g
    } else if k == 2 {
        p.b
    } else {
        p.a
    }
}

/// A color sequence flattened to bytes: four bytes per color, channels in
/// red, green, blue, alpha order.
pub open spec fn flat_rgba(pixels: Seq<Rgba>) -> Seq<u8> {
    Seq::new(4 * pixels.len(), |i: int| rgba_byte(pixels[i / 4], i % 4))
}

/// Flattens a decoded color buffer into an image ready for upload. The caller
/// supplies one color per pixel; the channel conversion from the GUI library's
/// bitmap formats (font-atlas coverage or straight color) happens before this
/// point.
pub fn image_from_pixels(width: usize, height: usize, pixels: &Vec<Rgba>) -> (img: RgbaImage)
    requires
        pixels@.len() == width * height,
        4 * width * height <= usize::MAX,
    ensures
        img.width == width,
        img.height == height,
        img.pixels@ == flat_rgba(pixels@),
        img.wf(),
{
    let mut bytes: Vec<u8> = Vec::new();
    let mut i: usize = 0;
    while i < pixels.len()
        invariant
            i <= pixels@.len(),
            pixels@.len() == width * height,
            4 * width * height <= usize::MAX,
            bytes@.len() == 4 * i,
            forall|j: int| 0 <= j < 4 * i ==> bytes@[j] == flat_rgba(pixels@)[j],
        decreases pixels@.len() - i,
    {
        let p = pixels[i];
        bytes.push(p.r);
        bytes.push(p.g);
        bytes.push(p.b);
        bytes.push(p.a);
        proof {
            let flat = flat_rgba(pixels@);
            assert forall|j: int| 4 * i <= j < 4 * (i + 1) implies bytes@[j] == flat[j] by {
                assert(j / 4 == i && j % 4 == j - 4 * i) by (nonlinear_arith)
                    requires
                        4 * i <= j < 4 * (i + 1),
                ;
            }
        }
        i = i + 1;
    }
    proof {
        assert(bytes@ =~= flat_rgba(pixels@));
        assert(4 * (width * height) == 4 * width * height) by (nonlinear_arith);
    }
    RgbaImage { width, height, pixels: bytes }
}

} // verus!

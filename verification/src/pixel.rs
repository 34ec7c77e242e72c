//! The pixel-buffer model: a rectangular grid of RGBA pixels with 16 bits per
//! channel, stored row-major as a flat vector of channel values.

use vstd::prelude::*;

verus! {

/// A rectangular RGBA image. `data` holds the channel values row-major:
/// the pixel at column `x`, row `y` occupies the four entries starting at
/// `4 * (y * width + x)`, in the order red, green, blue, alpha.
pub struct PixelBuffer {
    pub width: u32,
    pub height: u32,
    pub data: Vec<u16>,
}

impl PixelBuffer {
    /// A buffer is well formed when it has at least one pixel and its data
    /// holds exactly four channel values per pixel.
    pub open spec fn wf(self) -> bool {
        &&& self.width >= 1
        &&& self.height >= 1
        &&& self.data@.len() == 4 * self.width * self.height
    }
}

/// The four channel values of the pixel at column `x`, row `y` of a
/// row-major buffer that is `w` pixels wide.
pub open spec fn pixel_of(data: Seq<u16>, w: int, x: int, y: int) -> Seq<u16> {
    data.subrange(4 * (y * w + x), 4 * (y * w + x) + 4)
}

} // verus!

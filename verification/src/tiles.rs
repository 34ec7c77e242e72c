//! Tile selection: which part of the source montage becomes the token.
//!
//! A source image is either used whole (for already-upscaled images) or cut
//! into four quadrants numbered 1 through 4: top-left, top-right,
//! bottom-left, bottom-right.

use vstd::prelude::*;
use crate::error::ImageError;

verus! {

/// The closed set of tile selections.
#[derive(Clone, Copy, Debug, PartialEq, Eq, Structural)]
pub enum MidJourneyTiles {
    /// Use the entire source image (for upscaled images with no grid).
    Full,
    One,
    Two,
    Three,
    Four,
}

/// The tile selection that a caller-supplied number denotes: absent means
/// the full image, 1 through 4 name the quadrants, anything else is invalid.
pub open spec fn tile_of(input: Option<u8>) -> Result<MidJourneyTiles, ImageError> {
    match input {
        None => Ok(MidJourneyTiles::Full),
        Some(v) => {
            if v == 1 {
                Ok(MidJourneyTiles::One)
            } else if v == 2 {
                Ok(MidJourneyTiles::Two)
            } else if v == 3 {
                Ok(MidJourneyTiles::Three)
            } else if v == 4 {
                Ok(MidJourneyTiles::Four)
            } else {
                Err(ImageError::InvalidTileNumber)
            }
        },
    }
}

impl MidJourneyTiles {
    /// Parse a caller-supplied tile number. Exactly the numbers 1 through 4
    /// (or no number at all) are accepted; anything else is
    /// `InvalidTileNumber`.
    pub fn from_u8(input: Option<u8>) -> (r: Result<Self, ImageError>)
        ensures
            r == tile_of(input),
    {
        match input {
            None => Ok(MidJourneyTiles::Full),
            Some(1) => Ok(MidJourneyTiles::One),
            Some(2) => Ok(MidJourneyTiles::Two),
            Some(3) => Ok(MidJourneyTiles::Three),
            Some(4) => Ok(MidJourneyTiles::Four),
            Some(_) => Err(ImageError::InvalidTileNumber),
        }
    }
}

/// The crop window `(x, y, width, height)` for a tile selection within a
/// `w` by `h` source. Quadrants are squares whose edge is the smaller of the
/// two half-dimensions; for a non-square source this biases the cut toward
/// the top-left, except that quadrant 3 keeps its y-origin at half the
/// height — a quirk that is preserved deliberately.
pub open spec fn tile_rect(tile: MidJourneyTiles, w: int, h: int) -> (int, int, int, int) {
    let half_w = w / 2;
    let half_h = h / 2;
    let half = if half_h < half_w { half_h } else { half_w };
    match tile {
        MidJourneyTiles::Full => (0, 0, w, h),
        MidJourneyTiles::One => (0, 0, half, half),
        MidJourneyTiles::Two => (half, 0, half, half),
        MidJourneyTiles::Three => (0, half_h, half, half),
        MidJourneyTiles::Four => (half, half, half, half),
    }
}

/// Map a tile selection to its crop window `[x, y, width, height]` within a
/// source of the given dimensions. The window always lies within the
/// source: `x + width <= img_width` and `y + height <= img_height`.
pub fn get_tile_coordinates(tile: MidJourneyTiles, img_width: u32, img_height: u32) -> (r: [u32; 4])
    ensures
        (r[0] as int, r[1] as int, r[2] as int, r[3] as int)
            == tile_rect(tile, img_width as int, img_height as int),
        r[0] + r[2] <= img_width,
        r[1] + r[3] <= img_height,
{
    let half_width = img_width / 2;
    let half_height = img_height / 2;
    let half = if half_height < half_width { half_height } else { half_width };
    let zero: u32 = 0;

    match tile {
        MidJourneyTiles::Full => [zero, zero, img_width, img_height],
        MidJourneyTiles::One => [zero, zero, half, half],
        MidJourneyTiles::Two => [half, zero, half, half],
        MidJourneyTiles::Three => [zero, half_height, half, half],
        MidJourneyTiles::Four => [half, half, half, half],
    }
}

/// For a square source of even edge length `n`, the four quadrant windows
/// are the four `n/2` by `n/2` squares with origins `(0,0)`, `(n/2,0)`,
/// `(0,n/2)` and `(n/2,n/2)`.
pub proof fn lemma_square_quadrants(n: int)
    requires
        n >= 0,
        n % 2 == 0,
    ensures
        tile_rect(MidJourneyTiles::One, n, n) == (0int, 0int, n / 2, n / 2),
        tile_rect(MidJourneyTiles::Two, n, n) == (n / 2, 0int, n / 2, n / 2),
        tile_rect(MidJourneyTiles::Three, n, n) == (0int, n / 2, n / 2, n / 2),
        tile_rect(MidJourneyTiles::Four, n, n) == (n / 2, n / 2, n / 2, n / 2),
{
}

} // verus!

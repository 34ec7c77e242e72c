//! The tokenization pipeline: select a tile window, extract and resample
//! it, cut it into a circle, and composite an optional frame on top.

use vstd::prelude::*;
use crate::pixel::PixelBuffer;
use crate::tiles::MidJourneyTiles;
use crate::tiles::tile_rect;
use crate::tiles::get_tile_coordinates;
use crate::extract::crop_spec;
use crate::extract::resize_of;
use crate::extract::extract_region;
use crate::mask::mask_spec;
use crate::mask::circular_mask;
use crate::compose::overlay_data;
use crate::compose::composite_border;

verus! {

/// The masked token contents for a source buffer, a tile selection and a
/// requested edge length, before any frame is applied: the tile window is
/// cut out, resampled to fit a `size` square (`out_w` pixels wide once
/// resampled), and circularly masked.
pub open spec fn masked_token(img: PixelBuffer, tile: MidJourneyTiles, size: int, out_w: int) -> Seq<u16> {
    let t = tile_rect(tile, img.width as int, img.height as int);
    mask_spec(
        resize_of(
            crop_spec(img.data@, img.width as int, t.0, t.1, t.2, t.3),
            t.2,
            t.3,
            size,
        ),
        out_w,
        size,
    )
}

/// Run the whole pipeline on an in-memory source buffer: crop to the
/// selected tile, resample to the requested edge length, clear the alpha
/// channel outside the inscribed circle, and overlay the frame if one is
/// supplied. A square tile window yields a `size` by `size` token; a window
/// already at the target dimensions skips resampling, so its pixels reach
/// the masker unchanged.
pub fn tokenize(img: &PixelBuffer, tile: MidJourneyTiles, size: u32, border: &Option<PixelBuffer>) -> (r: PixelBuffer)
    requires
        img.wf(),
        size >= 1,
        !(tile is Full) ==> img.width >= 2 && img.height >= 2,
        border matches Some(b) ==> b.wf(),
    ensures
        r.wf(),
        r.width <= size,
        r.height <= size,
        tile_rect(tile, img.width as int, img.height as int).2 == tile_rect(
            tile,
            img.width as int,
            img.height as int,
        ).3 ==> r.width == size && r.height == size,
        border is None ==> r.data@ == masked_token(*img, tile, size as int, r.width as int),
        border matches Some(b) ==> r.data@ == overlay_data(
            masked_token(*img, tile, size as int, r.width as int),
            r.width as int,
            r.height as int,
            b.data@,
            b.width as int,
            b.height as int,
        ),
        ({
            let t = tile_rect(tile, img.width as int, img.height as int);
            t.2 == size && t.3 == size && border is None ==> r.data@ == mask_spec(
                crop_spec(img.data@, img.width as int, t.0, t.1, t.2, t.3),
                size as int,
                size as int,
            )
        }),
{
    let coords = get_tile_coordinates(tile, img.width, img.height);
    proof {
        let t = tile_rect(tile, img.width as int, img.height as int);
        assert(coords[2] >= 1 && coords[3] >= 1);
    }
    let mut token = extract_region(img, coords[0], coords[1], coords[2], coords[3], size);
    circular_mask(&mut token, size);
    composite_border(token, border)
}

} // verus!

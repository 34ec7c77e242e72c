//! Border compositing: overlay an optional frame buffer on top of the
//! masked token with source-over alpha blending. The per-pixel blending is
//! delegated to the `image` crate behind a trusted wrapper; what the wrapper
//! promises follows that crate's blending code: a fully opaque frame pixel
//! replaces the token pixel, a fully transparent one leaves it untouched.

use vstd::prelude::*;
use crate::pixel::PixelBuffer;
use crate::pixel::pixel_of;

verus! {

/// What source-over blending of a partially transparent frame pixel over a
/// token pixel returns (each pixel given as its four channel values). The
/// result depends on the two pixels alone.
pub uninterp spec fn blend_of(bottom: Seq<u16>, top: Seq<u16>) -> Seq<u16>;

/// One composited pixel: a fully opaque frame pixel replaces the token
/// pixel, a fully transparent one leaves it unchanged, and anything in
/// between blends.
pub open spec fn overlay_pixel(bottom: Seq<u16>, top: Seq<u16>) -> Seq<u16> {
    if top[3] == 0xFFFFu16 {
        top
    } else if top[3] == 0u16 {
        bottom
    } else {
        blend_of(bottom, top)
    }
}

/// The contents of a `bw` by `bh` token buffer after a `tw` by `th` frame is
/// overlaid at the origin: pixels under the frame are composited with
/// `overlay_pixel`, pixels outside it are unchanged.
pub open spec fn overlay_data(bottom: Seq<u16>, bw: int, bh: int, top: Seq<u16>, tw: int, th: int) -> Seq<u16> {
    Seq::new(
        bottom.len(),
        |i: int|
            {
                let x = (i / 4) % bw;
                let y = (i / 4) / bw;
                if x < tw && y < th {
                    overlay_pixel(pixel_of(bottom, bw, x, y), pixel_of(top, tw, x, y))[i % 4]
                } else {
                    bottom[i]
                }
            },
    )
}

/// Relies on `image::imageops::overlay` at offset `(0, 0)`: every pixel in
/// the overlap of the two buffers is blended source-over (with the opaque
/// and transparent fast paths spelled out by `overlay_pixel`), and every
/// pixel outside the overlap is unchanged.
#[verifier::external_body]
fn overlay_call(bottom: &PixelBuffer, top: &PixelBuffer) -> (r: PixelBuffer)
    requires
        bottom.wf(),
        top.wf(),
    ensures
        r.width == bottom.width,
        r.height == bottom.height,
        r.wf(),
        r.data@ == overlay_data(
            bottom.data@,
            bottom.width as int,
            bottom.height as int,
            top.data@,
            top.width as int,
            top.height as int,
        ),
        forall|x: int, y: int|
            0 <= x < top.width && 0 <= y < top.height && x < bottom.width && y < bottom.height
                && pixel_of(top.data@, top.width as int, x, y)[3] != 0xFFFFu16
                && pixel_of(top.data@, top.width as int, x, y)[3] != 0u16 ==> pixel_of(
                r.data@,
                r.width as int,
                x,
                y,
            ) == blend_of(
                pixel_of(bottom.data@, bottom.width as int, x, y),
                pixel_of(top.data@, top.width as int, x, y),
            ),
{
    let mut base = image::ImageBuffer::<image::Rgba<u16>, Vec<u16>>::from_raw(
        bottom.width,
        bottom.height,
        bottom.data.clone(),
    ).expect("buffer length matches dimensions");
    let over = image::ImageBuffer::<image::Rgba<u16>, Vec<u16>>::from_raw(
        top.width,
        top.height,
        top.data.clone(),
    ).expect("buffer length matches dimensions");
    image::imageops::overlay(&mut base, &over, 0, 0);
    PixelBuffer { width: bottom.width, height: bottom.height, data: base.into_raw() }
}

/// Overlay the frame on the token if one was supplied; with no frame the
/// token passes through unchanged, pixel for pixel.
pub fn composite_border(token: PixelBuffer, border: &Option<PixelBuffer>) -> (r: PixelBuffer)
    requires
        token.wf(),
        border matches Some(b) ==> b.wf(),
    ensures
        r.wf(),
        r.width == token.width,
        r.height == token.height,
        border is None ==> r == token,
        border matches Some(b) ==> r.data@ == overlay_data(
            token.data@,
            token.width as int,
            token.height as int,
            b.data@,
            b.width as int,
            b.height as int,
        ),
{
    match border {
        None => token,
        Some(b) => overlay_call(&token, b),
    }
}

/// Compositing a fully opaque frame of the token's own dimensions replaces
/// the token entirely: the result is the frame itself.
pub proof fn lemma_opaque_border_wins(token: Seq<u16>, border: Seq<u16>, w: int, h: int)
    requires
        w >= 1,
        h >= 1,
        token.len() == 4 * w * h,
        border.len() == 4 * w * h,
        forall|i: int| 0 <= i < border.len() && i % 4 == 3 ==> border[i] == 0xFFFFu16,
    ensures
        overlay_data(token, w, h, border, w, h) == border,
{
    assert forall|i: int| 0 <= i < token.len() implies overlay_data(token, w, h, border, w, h)[i]
        == border[i] by {
        let p = i / 4;
        let c = i % 4;
        let x = p % w;
        let y = p / w;
        assert(0 <= p < w * h) by (nonlinear_arith)
            requires
                0 <= i < 4 * w * h,
                p == i / 4,
                w >= 1,
                h >= 1,
        {
        }
        assert(0 <= x < w && 0 <= y < h && p == y * w + x) by (nonlinear_arith)
            requires
                0 <= p < w * h,
                x == p % w,
                y == p / w,
                w >= 1,
                h >= 1,
        {
        }
        assert(4 * (y * w + x) + 3 == 4 * p + 3);
        assert(4 * (w * h) == 4 * w * h) by (nonlinear_arith);
        assert(0 <= 4 * p + 3 < border.len() && (4 * p + 3) % 4 == 3);
        assert(border[4 * (y * w + x) + 3] == 0xFFFFu16);
        assert(pixel_of(border, w, x, y)[3] == border[4 * (y * w + x) + 3]);
        assert(overlay_pixel(pixel_of(token, w, x, y), pixel_of(border, w, x, y))
            == pixel_of(border, w, x, y));
        assert(pixel_of(border, w, x, y)[c] == border[4 * p + c]);
        assert(i == 4 * p + c);
    }
    assert(overlay_data(token, w, h, border, w, h) =~= border);
}

} // verus!

//! Region extraction: cut a window out of the source buffer and resample it
//! to the requested token size. The pixel work is delegated to the `image`
//! crate behind trusted wrappers; the sequencing around them is verified.

use vstd::prelude::*;
use crate::pixel::PixelBuffer;

verus! {

/// The contents of the `w` by `h` window at `(x, y)` of a row-major buffer
/// `src_w` pixels wide: pixel `(i, j)` of the window is pixel
/// `(x + i, y + j)` of the source.
pub open spec fn crop_spec(data: Seq<u16>, src_w: int, x: int, y: int, w: int, h: int) -> Seq<u16> {
    Seq::new(
        (4 * w * h) as nat,
        |i: int| data[4 * ((y + (i / 4) / w) * src_w + (x + (i / 4) % w)) + i % 4],
    )
}

/// What Lanczos resampling to fit within a `target` by `target` square
/// returns for a row-major buffer of the given dimensions. The contents
/// depend on the arguments alone.
pub uninterp spec fn resize_of(data: Seq<u16>, w: int, h: int, target: int) -> Seq<u16>;

/// Relies on `image::imageops::crop_imm`: for a window that lies within the
/// source, the cut-out copies exactly the window's pixels.
#[verifier::external_body]
fn crop_call(src: &PixelBuffer, x: u32, y: u32, w: u32, h: u32) -> (r: PixelBuffer)
    requires
        src.wf(),
        x + w <= src.width,
        y + h <= src.height,
        w >= 1,
        h >= 1,
    ensures
        r.width == w,
        r.height == h,
        r.wf(),
        r.data@ == crop_spec(src.data@, src.width as int, x as int, y as int, w as int, h as int),
{
    let img = image::ImageBuffer::<image::Rgba<u16>, Vec<u16>>::from_raw(
        src.width,
        src.height,
        src.data.clone(),
    ).expect("buffer length matches dimensions");
    let out = image::imageops::crop_imm(&img, x, y, w, h).to_image();
    PixelBuffer { width: out.width(), height: out.height(), data: out.into_raw() }
}

/// Relies on `image::DynamicImage::resize`: the result fits within the
/// `target` square with the aspect ratio preserved, a square input comes
/// back exactly `target` by `target`, and an input already at the target
/// dimensions is returned unchanged (a documented clone fast path).
#[verifier::external_body]
fn resize_call(src: &PixelBuffer, target: u32) -> (r: PixelBuffer)
    requires
        src.wf(),
        target >= 1,
    ensures
        r.wf(),
        r.width <= target,
        r.height <= target,
        src.width == src.height ==> r.width == target && r.height == target,
        r.data@ == resize_of(src.data@, src.width as int, src.height as int, target as int),
        src.width == target && src.height == target ==> r.data@ == src.data@,
{
    let img = image::ImageBuffer::<image::Rgba<u16>, Vec<u16>>::from_raw(
        src.width,
        src.height,
        src.data.clone(),
    ).expect("buffer length matches dimensions");
    let out = image::DynamicImage::ImageRgba16(img)
        .resize(target, target, image::imageops::FilterType::Lanczos3)
        .into_rgba16();
    PixelBuffer { width: out.width(), height: out.height(), data: out.into_raw() }
}

/// Cut the `w` by `h` window at `(x, y)` out of the source and resample it
/// to fit within a `size` by `size` square with a Lanczos filter. A square
/// window yields exactly a `size` by `size` buffer, and a window already at
/// the target dimensions is copied without resampling.
pub fn extract_region(src: &PixelBuffer, x: u32, y: u32, w: u32, h: u32, size: u32) -> (r: PixelBuffer)
    requires
        src.wf(),
        x + w <= src.width,
        y + h <= src.height,
        w >= 1,
        h >= 1,
        size >= 1,
    ensures
        r.wf(),
        r.width <= size,
        r.height <= size,
        r.data@ == resize_of(
            crop_spec(src.data@, src.width as int, x as int, y as int, w as int, h as int),
            w as int,
            h as int,
            size as int,
        ),
        w == h ==> r.width == size && r.height == size,
        w == size && h == size ==> r.data@ == crop_spec(
            src.data@,
            src.width as int,
            x as int,
            y as int,
            w as int,
            h as int,
        ),
{
    let cropped = crop_call(src, x, y, w, h);
    resize_call(&cropped, size)
}

} // verus!

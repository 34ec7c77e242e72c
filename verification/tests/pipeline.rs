use mj_token::PixelBuffer;
use mj_token::MidJourneyTiles;
use mj_token::extract_region;
use mj_token::tokenize;

fn solid(width: u32, height: u32, rgba: [u16; 4]) -> PixelBuffer {
    let mut data = Vec::new();
    for _ in 0..(width as usize) * (height as usize) {
        data.extend_from_slice(&rgba);
    }
    PixelBuffer { width, height, data }
}

/// A source whose four quadrants carry four distinct colors.
fn quadrant_colored(n: u32) -> PixelBuffer {
    let mut data = Vec::new();
    let half = n / 2;
    for y in 0..n {
        for x in 0..n {
            let rgba: [u16; 4] = match (x < half, y < half) {
                (true, true) => [1000, 0, 0, 0xFFFF],
                (false, true) => [0, 1000, 0, 0xFFFF],
                (true, false) => [0, 0, 1000, 0xFFFF],
                (false, false) => [1000, 1000, 0, 0xFFFF],
            };
            data.extend_from_slice(&rgba);
        }
    }
    PixelBuffer { width: n, height: n, data }
}

fn isqrt(n: u64) -> u64 {
    let mut r: u64 = 0;
    while (r + 1) * (r + 1) <= n {
        r += 1;
    }
    r
}

#[test]
fn extraction_copies_the_selected_window() {
    // Window dimensions equal to the target size skip resampling, so the
    // extracted quadrant must come back exactly.
    let src = quadrant_colored(8);
    let out = extract_region(&src, 4, 0, 4, 4, 4);
    assert_eq!(out.width, 4);
    assert_eq!(out.height, 4);
    for p in 0..16usize {
        assert_eq!(&out.data[4 * p..4 * p + 4], &[0, 1000, 0, 0xFFFF], "pixel {}", p);
    }
}

#[test]
fn extraction_resamples_a_square_window_to_size() {
    let src = solid(8, 8, [500, 600, 700, 0xFFFF]);
    let out = extract_region(&src, 0, 0, 8, 8, 4);
    assert_eq!(out.width, 4);
    assert_eq!(out.height, 4);
}

#[test]
fn quadrant_token_is_masked_and_frameless() {
    // 512x512 source, quadrant 1, size 256, no frame: the crop is already
    // 256x256, so every surviving pixel keeps the quadrant's color, and the
    // alpha follows the mask formula with margin 256/50 = 5.
    let src = quadrant_colored(512);
    let out = tokenize(&src, MidJourneyTiles::One, 256, &None);
    assert_eq!(out.width, 256);
    assert_eq!(out.height, 256);
    let s = 256i64;
    let half = s / 2;
    let margin = s / 50;
    assert_eq!(margin, 5);
    for y in 0..256i64 {
        for x in 0..256i64 {
            let idx = 4 * (y as usize * 256 + x as usize);
            assert_eq!(&out.data[idx..idx + 3], &[1000, 0, 0], "pixel ({}, {})", x, y);
            let dx = x - half;
            let dy = y - half;
            let r = isqrt((dx * dx + dy * dy) as u64) as i64 + 1;
            let expected = if r + margin >= half { 0 } else { 0xFFFF };
            assert_eq!(out.data[idx + 3], expected, "pixel ({}, {})", x, y);
        }
    }
}

#[test]
fn opaque_frame_token_equals_the_frame() {
    // 512x512 source, full tile, size 256, fully opaque 256x256 frame: the
    // frame replaces every pixel of the masked token.
    let src = quadrant_colored(512);
    let frame = quadrant_colored(256);
    let expected = frame.data.clone();
    let out = tokenize(&src, MidJourneyTiles::Full, 256, &Some(frame));
    assert_eq!(out.width, 256);
    assert_eq!(out.height, 256);
    assert_eq!(out.data, expected);
}

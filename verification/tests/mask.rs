use mj_token::PixelBuffer;
use mj_token::circular_mask;

fn solid(width: u32, height: u32, rgba: [u16; 4]) -> PixelBuffer {
    let mut data = Vec::new();
    for _ in 0..(width as usize) * (height as usize) {
        data.extend_from_slice(&rgba);
    }
    PixelBuffer { width, height, data }
}

fn isqrt(n: u64) -> u64 {
    let mut r: u64 = 0;
    while (r + 1) * (r + 1) <= n {
        r += 1;
    }
    r
}

/// The mask's own formula: cleared when floor(sqrt(dx^2+dy^2)) + 1 + s/50
/// reaches s/2.
fn expect_cleared(s: u32, x: u32, y: u32) -> bool {
    let half = (s / 2) as i64;
    let dx = x as i64 - half;
    let dy = y as i64 - half;
    let r = isqrt((dx * dx + dy * dy) as u64) + 1;
    r + (s / 50) as u64 >= half as u64
}

#[test]
fn center_pixel_stays_opaque() {
    let s = 256u32;
    let mut buf = solid(s, s, [10, 20, 30, 0xFFFF]);
    circular_mask(&mut buf, s);
    let c = (s / 2) as usize;
    let idx = 4 * (c * s as usize + c) + 3;
    assert_eq!(buf.data[idx], 0xFFFF);
}

#[test]
fn corner_pixel_becomes_transparent() {
    let s = 256u32;
    let mut buf = solid(s, s, [10, 20, 30, 0xFFFF]);
    circular_mask(&mut buf, s);
    assert_eq!(buf.data[3], 0);
    let last = buf.data.len() - 1;
    assert_eq!(buf.data[last], 0);
}

#[test]
fn mask_matches_threshold_formula_everywhere() {
    let s = 64u32;
    let mut buf = solid(s, s, [1000, 2000, 3000, 0xFFFF]);
    circular_mask(&mut buf, s);
    for y in 0..s {
        for x in 0..s {
            let idx = 4 * (y as usize * s as usize + x as usize);
            assert_eq!(buf.data[idx], 1000);
            assert_eq!(buf.data[idx + 1], 2000);
            assert_eq!(buf.data[idx + 2], 3000);
            let expected = if expect_cleared(s, x, y) { 0 } else { 0xFFFF };
            assert_eq!(buf.data[idx + 3], expected, "pixel ({}, {})", x, y);
        }
    }
}

#[test]
fn masking_twice_equals_masking_once() {
    let s = 48u32;
    let mut once = solid(s, s, [7, 8, 9, 0xABCD]);
    circular_mask(&mut once, s);
    let mut twice = PixelBuffer { width: s, height: s, data: once.data.clone() };
    circular_mask(&mut twice, s);
    assert_eq!(once.data, twice.data);
    assert_eq!(once.width, twice.width);
    assert_eq!(once.height, twice.height);
}

#[test]
fn tiny_mask_clears_even_the_center() {
    // For edge lengths up to 3 the margin formula reaches the center pixel.
    let s = 2u32;
    let mut buf = solid(s, s, [1, 2, 3, 0xFFFF]);
    circular_mask(&mut buf, s);
    for p in 0..4usize {
        assert_eq!(buf.data[4 * p + 3], 0);
    }
}

#[test]
fn single_pixel_mask_degenerates() {
    // S = 1: the center is pixel (0, 0) and the radius formula clears it.
    let mut buf = solid(1, 1, [9, 9, 9, 0xFFFF]);
    circular_mask(&mut buf, 1);
    assert_eq!(buf.data, vec![9, 9, 9, 0]);
}

#[test]
fn nominal_size_governs_a_wider_buffer() {
    // A non-square buffer is masked against the nominal edge length, as the
    // pipeline does when a full non-square source was resampled.
    let s = 16u32;
    let mut buf = solid(32, 8, [5, 6, 7, 0xFFFF]);
    circular_mask(&mut buf, s);
    for y in 0..8u32 {
        for x in 0..32u32 {
            let idx = 4 * (y as usize * 32 + x as usize) + 3;
            let expected = if expect_cleared(s, x, y) { 0 } else { 0xFFFF };
            assert_eq!(buf.data[idx], expected, "pixel ({}, {})", x, y);
        }
    }
}

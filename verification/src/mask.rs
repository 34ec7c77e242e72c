//! The circular masker: clears the alpha channel of every pixel that lies
//! outside an inscribed circle, leaving a hard-edged circular cutout with a
//! small safety margin so an overlaid frame's inner edge stays covered.

use vstd::prelude::*;
use crate::pixel::PixelBuffer;
use crate::intsqrt::is_isqrt;
use crate::intsqrt::isqrt_spec;
use crate::intsqrt::isqrt;
use crate::intsqrt::lemma_isqrt_is;

verus! {

/// The squared distance of the pixel at `(x, y)` from the mask's center,
/// which sits at `(s / 2, s / 2)` for a nominal edge length `s`.
pub open spec fn dist_sq(s: int, x: int, y: int) -> int {
    (x - s / 2) * (x - s / 2) + (y - s / 2) * (y - s / 2)
}

/// Whether the mask clears the alpha of the pixel at `(x, y)`: its radius
/// `floor(sqrt(dist_sq)) + 1`, padded by the safety margin `s / 50`,
/// reaches the circle's radius `s / 2`.
pub open spec fn cleared(s: int, x: int, y: int) -> bool {
    isqrt_spec(dist_sq(s, x, y)) + 1 + s / 50 >= s / 2
}

/// The masked contents of a row-major buffer `w` pixels wide under a mask of
/// nominal edge length `s`: the alpha value of every cleared pixel becomes 0
/// and every other channel value is kept.
pub open spec fn mask_spec(data: Seq<u16>, w: int, s: int) -> Seq<u16> {
    Seq::new(
        data.len(),
        |i: int|
            if i % 4 == 3 && cleared(s, (i / 4) % w, (i / 4) / w) {
                0u16
            } else {
                data[i]
            },
    )
}

/// Clear the alpha channel of every pixel outside the inscribed circle of a
/// mask with nominal edge length `size` (normally the buffer's own edge
/// length). The cutout is hard-edged, with the margin `size / 50` shrinking
/// the visible circle slightly.
pub fn circular_mask(buf: &mut PixelBuffer, size: u32)
    requires
        old(buf).wf(),
        size >= 1,
    ensures
        final(buf).wf(),
        final(buf).width == old(buf).width,
        final(buf).height == old(buf).height,
        final(buf).data@ == mask_spec(old(buf).data@, old(buf).width as int, size as int),
{
    let w = buf.width;
    let h = buf.height;
    let half: u32 = size / 2;
    let margin: u32 = size / 50;
    let dlen: usize = buf.data.len();
    let ghost orig: Seq<u16> = buf.data@;
    let ghost target: Seq<u16> = mask_spec(orig, w as int, size as int);
    proof {
        assert(orig.len() == dlen && orig.len() == 4 * w * h);
        assert((w as int) * (h as int) >= 0 && 4 * ((w as int) * (h as int)) == 4 * (
        w as int) * (h as int)) by (nonlinear_arith);
        assert((w as int) * (h as int) <= dlen as int);
    }
    let total: usize = (w as usize) * (h as usize);
    let mut p: usize = 0;
    while p < total
        invariant
            buf.width == w,
            buf.height == h,
            w >= 1,
            h >= 1,
            half == size / 2,
            margin == size / 50,
            total == w * h,
            4 * (total as int) == orig.len(),
            p <= total,
            buf.data@.len() == orig.len(),
            orig.len() == 4 * (w as int) * (h as int),
            target == mask_spec(orig, w as int, size as int),
            forall|i: int|
                0 <= i < orig.len() && i / 4 < p ==> buf.data@[i] == target[i],
            forall|i: int|
                0 <= i < orig.len() && i / 4 >= p ==> buf.data@[i] == orig[i],
        decreases total - p,
    {
        let x: usize = p % (w as usize);
        let y: usize = p / (w as usize);
        let dx: i128 = (x as i128) - (half as i128);
        let dy: i128 = (y as i128) - (half as i128);
        proof {
            assert((1u128 << 126) == 0x4000_0000_0000_0000_0000_0000_0000_0000u128)
                by (bit_vector);
            assert(x < w && y < h) by (nonlinear_arith)
                requires
                    w >= 1,
                    h >= 1,
                    0 <= p < (w as int) * (h as int),
                    x == p as int % (w as int),
                    y == p as int / (w as int),
            {
            }
            assert(dx * dx + dy * dy < (1u128 << 126) && dx * dx >= 0 && dy * dy >= 0)
                by (nonlinear_arith)
                requires
                    -0x1_0000_0000i128 < dx < 0x1_0000_0000i128,
                    -0x1_0000_0000i128 < dy < 0x1_0000_0000i128,
                    (1u128 << 126) == 0x4000_0000_0000_0000_0000_0000_0000_0000u128,
            {
            }
        }
        let dsq: u128 = (dx * dx + dy * dy) as u128;
        proof {
            assert(dx * dx + dy * dy < 0x2_0000_0000_0000_0000i128) by (nonlinear_arith)
                requires
                    -0x1_0000_0000i128 < dx < 0x1_0000_0000i128,
                    -0x1_0000_0000i128 < dy < 0x1_0000_0000i128,
            {
            }
        }
        let r: u64 = isqrt(dsq);
        proof {
            assert(r < 0x2_0000_0000u64) by (nonlinear_arith)
                requires
                    (r as int) * (r as int) <= dsq,
                    dsq < 0x2_0000_0000_0000_0000u128,
            {
            }
        }
        let cur_len: usize = buf.data.len();
        proof {
            assert(4 * (p as int) + 3 < orig.len() && orig.len() == cur_len);
        }
        let idx: usize = 4 * p + 3;
        if r + 1 + (margin as u64) >= half as u64 {
            buf.data.set(idx, 0u16);
        }
        proof {
            let i = idx as int;
            assert(i / 4 == p && i % 4 == 3);
            lemma_isqrt_is(dsq as int, r as int);
            assert(dsq as int == dist_sq(size as int, x as int, y as int));
            assert((r + 1 + margin >= half) == cleared(size as int, x as int, y as int));
            assert(forall|i: int|
                0 <= i < orig.len() && i / 4 == p ==> buf.data@[i] == target[i]);
        }
        p = p + 1;
    }
    proof {
        assert(forall|i: int| 0 <= i < orig.len() ==> #[trigger] (i / 4) < total);
        assert(buf.data@ =~= target);
    }
}

/// Masking is idempotent: masking a buffer twice gives the same contents as
/// masking it once, since cleared pixels stay cleared and every other pixel
/// is re-evaluated identically.
pub proof fn lemma_mask_idempotent(data: Seq<u16>, w: int, s: int)
    ensures
        mask_spec(mask_spec(data, w, s), w, s) == mask_spec(data, w, s),
{
    assert(mask_spec(mask_spec(data, w, s), w, s) =~= mask_spec(data, w, s));
}

/// For any mask edge length of at least 4, the center pixel is not cleared:
/// masking keeps its alpha (and every other channel) unchanged. (For edge
/// lengths 1 through 3 the margin formula clears even the center.)
pub proof fn lemma_mask_center_kept(data: Seq<u16>, s: int)
    requires
        s >= 4,
        data.len() == 4 * s * s,
    ensures
        !cleared(s, s / 2, s / 2),
        mask_spec(data, s, s)[4 * ((s / 2) * s + s / 2) + 3]
            == data[4 * ((s / 2) * s + s / 2) + 3],
{
    assert(dist_sq(s, s / 2, s / 2) == 0);
    assert(is_isqrt(0, 0)) by (nonlinear_arith);
    lemma_isqrt_is(0, 0);
    let a = s / 50;
    let b = s / 2;
    assert(50 * a <= s && s <= 50 * a + 49 && 2 * b <= s && s <= 2 * b + 1);
    if a + 1 >= b {
        assert(50 * (b - 1) <= 50 * a) by (nonlinear_arith)
            requires
                b - 1 <= a,
        {
        }
        assert(false);
    }
    let i = 4 * (b * s + b) + 3;
    assert(0 <= i < 4 * s * s) by (nonlinear_arith)
        requires
            s >= 4,
            b == s / 2,
            i == 4 * (b * s + b) + 3,
            0 <= b < s,
    {
    }
    assert(i % 4 == 3 && i / 4 == b * s + b);
    assert((b * s + b) % s == b && (b * s + b) / s == b) by (nonlinear_arith)
        requires
            0 <= b < s,
    {
    }
}

/// Every pixel whose padded radius reaches the circle's radius has its alpha
/// forced to 0 by the mask.
pub proof fn lemma_mask_clears_outside(data: Seq<u16>, s: int, x: int, y: int)
    requires
        s >= 1,
        data.len() == 4 * s * s,
        0 <= x < s,
        0 <= y < s,
        isqrt_spec(dist_sq(s, x, y)) + 1 + s / 50 >= s / 2,
    ensures
        mask_spec(data, s, s)[4 * (y * s + x) + 3] == 0u16,
{
    let i = 4 * (y * s + x) + 3;
    assert(0 <= y * s + x < s * s) by (nonlinear_arith)
        requires
            0 <= x < s,
            0 <= y < s,
    {
    }
    assert(4 * (s * s) == 4 * s * s) by (nonlinear_arith);
    assert(0 <= i < 4 * s * s);
    assert(i % 4 == 3 && i / 4 == y * s + x);
    assert((y * s + x) % s == x && (y * s + x) / s == y) by (nonlinear_arith)
        requires
            0 <= x < s,
            0 <= y,
    {
    }
}

} // verus!

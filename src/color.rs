//! RGB to full-range YCbCr under the BT.601 matrix, at 8, 10 or 12 bits.
//!
//! With `S = 299 R + 587 G + 114 B` (the luma weights times 1000) and
//! `M = 2^depth - 1`, the exact values are
//!
//! * `Y  = M S / 255000`
//! * `Cb = M (1000 B - S) / (255 * 1772) + (M + 1) / 2`
//! * `Cr = M (1000 R - S) / (255 * 1402) + (M + 1) / 2`
//!
//! (`1772 = 2000 (1 - 0.114)`, `1402 = 2000 (1 - 0.299)`). Each is rounded
//! to the nearest integer, halves away from zero, and capped at `M`.

use vstd::arithmetic::div_mod::lemma_fundamental_div_mod;
use vstd::prelude::*;

use crate::pixel::Rgb8;

verus! {

/// Bit depths the encoder produces.
pub open spec fn valid_depth(depth: int) -> bool {
    depth == 8 || depth == 10 || depth == 12
}

/// Largest sample value at `depth` bits.
pub open spec fn max_sample(depth: int) -> int
    recommends
        valid_depth(depth),
{
    if depth == 8 {
        255
    } else if depth == 10 {
        1023
    } else {
        4095
    }
}

/// The chroma offset: half the range, rounded up.
pub open spec fn chroma_shift(depth: int) -> int {
    (max_sample(depth) + 1) / 2
}

/// `n / d` rounded to the nearest integer, halves upwards.
pub open spec fn round_div(n: int, d: int) -> int {
    (2 * n + d) / (2 * d)
}

/// The luma sum `299 R + 587 G + 114 B`.
pub open spec fn luma_sum(px: Rgb8) -> int {
    299 * px.r + 587 * px.g + 114 * px.b
}

pub open spec fn cap(v: int, m: int) -> int {
    if v > m {
        m
    } else {
        v
    }
}

pub open spec fn spec_y(px: Rgb8, depth: int) -> int {
    round_div(max_sample(depth) * luma_sum(px), 255000)
}

pub open spec fn spec_cb(px: Rgb8, depth: int) -> int {
    cap(
        round_div(
            max_sample(depth) * (1000 * px.b - luma_sum(px)) + chroma_shift(depth) * 451860,
            451860,
        ),
        max_sample(depth),
    )
}

pub open spec fn spec_cr(px: Rgb8, depth: int) -> int {
    cap(
        round_div(
            max_sample(depth) * (1000 * px.r - luma_sum(px)) + chroma_shift(depth) * 357510,
            357510,
        ),
        max_sample(depth),
    )
}

/// The `[Y, Cb, Cr]` samples of `px` at `depth` bits.
pub open spec fn spec_ycbcr(px: Rgb8, depth: int) -> [u16; 3] {
    [spec_y(px, depth) as u16, spec_cb(px, depth) as u16, spec_cr(px, depth) as u16]
}

proof fn lemma_ranges(px: Rgb8, depth: int)
    requires
        valid_depth(depth),
    ensures
        0 <= spec_y(px, depth) <= max_sample(depth),
        0 <= spec_cb(px, depth) <= max_sample(depth),
        0 <= spec_cr(px, depth) <= max_sample(depth),
        0 <= max_sample(depth) * (1000 * px.b - luma_sum(px)) + chroma_shift(depth) * 451860,
        0 <= max_sample(depth) * (1000 * px.r - luma_sum(px)) + chroma_shift(depth) * 357510,
{
    let m = max_sample(depth);
    let s = luma_sum(px);
    let r = px.r as int;
    let g = px.g as int;
    let b = px.b as int;
    assert(0 <= m * s <= m * 255000) by (nonlinear_arith)
        requires
            0 <= s <= 255000,
            0 <= m,
    ;
    assert(m * s <= 255000 * m);
    assert(0 <= 2 * (m * s) + 255000);
    assert((2 * (m * s) + 255000) / 510000 <= m) by (nonlinear_arith)
        requires
            0 <= m * s <= 255000 * m,
            0 <= m,
    ;
    assert(0 <= (2 * (m * s) + 255000) / 510000);
    // Cb: 1000 B - S = 886 B - 299 R - 587 G lies in [-886 * 255, 886 * 255].
    let db = 1000 * b - s;
    let dr = 1000 * r - s;
    assert(-225930 <= db <= 225930);
    assert(-178755 <= dr <= 178755);
    assert(-225930 * m <= m * db <= 225930 * m) by (nonlinear_arith)
        requires
            -225930 <= db <= 225930,
            0 <= m,
    ;
    assert(-178755 * m <= m * dr <= 178755 * m) by (nonlinear_arith)
        requires
            -178755 <= dr <= 178755,
            0 <= m,
    ;
    let sh = chroma_shift(depth);
    assert(2 * sh == m + 1);
    assert(0 <= 2 * (m * db + sh * 451860) + 451860);
    assert(0 <= 2 * (m * dr + sh * 357510) + 357510);
}

/// Red from 8-bit `Y`, `Cb`, `Cr` under the inverse BT.601 matrix,
/// `R = Y + 1.402 (Cr - 128)`, rounded.
pub open spec fn inverse_r(y: int, cb: int, cr: int) -> int {
    round_div(1000 * y + 1402 * (cr - 128), 1000)
}

/// Green from 8-bit `Y`, `Cb`, `Cr` under the inverse BT.601 matrix,
/// `G = Y - (0.202008 (Cb - 128) + 0.419198 (Cr - 128)) / 0.587`, rounded.
pub open spec fn inverse_g(y: int, cb: int, cr: int) -> int {
    round_div(587000 * y - 202008 * (cb - 128) - 419198 * (cr - 128), 587000)
}

/// Blue from 8-bit `Y`, `Cb`, `Cr` under the inverse BT.601 matrix,
/// `B = Y + 1.772 (Cb - 128)`, rounded.
pub open spec fn inverse_b(y: int, cb: int, cr: int) -> int {
    round_div(1000 * y + 1772 * (cb - 128), 1000)
}

proof fn lemma_round_div(n: int, d: int)
    requires
        d > 0,
    ensures
        2 * d * round_div(n, d) <= 2 * n + d < 2 * d * round_div(n, d) + 2 * d,
{
    lemma_fundamental_div_mod(2 * n + d, 2 * d);
}

/// Round trip at 8 bits: converting a pixel to `Y`, `Cb`, `Cr` and back
/// through the inverse BT.601 transform gives each channel back within 1.
pub proof fn lemma_round_trip_8_bit(px: Rgb8)
    ensures
        -1 <= inverse_r(spec_y(px, 8), spec_cb(px, 8), spec_cr(px, 8)) - px.r <= 1,
        -1 <= inverse_g(spec_y(px, 8), spec_cb(px, 8), spec_cr(px, 8)) - px.g <= 1,
        -1 <= inverse_b(spec_y(px, 8), spec_cb(px, 8), spec_cr(px, 8)) - px.b <= 1,
{
    lemma_ranges(px, 8);
    let s = luma_sum(px);
    let r = px.r as int;
    let g = px.g as int;
    let b = px.b as int;
    let y = spec_y(px, 8);
    let cb = spec_cb(px, 8);
    let cr = spec_cr(px, 8);
    // Y: |1000 Y - S| <= 500.
    lemma_round_div(255 * s, 255000);
    let ey = 1000 * y - s;
    assert(-500 <= ey <= 500);
    // Cb: |1772 (Cb - 128) - (1000 B - S)| <= 886, also where it is capped.
    let nb = 255 * (1000 * b - s) + 128 * 451860;
    lemma_round_div(nb, 451860);
    assert(903720 * cb <= 2 * nb + 451860 <= 903720 * cb + 903720);
    let eb = 1772 * (cb - 128) - (1000 * b - s);
    assert(-886 <= eb <= 886);
    // Cr: |1402 (Cr - 128) - (1000 R - S)| <= 701.
    let nr = 255 * (1000 * r - s) + 128 * 357510;
    lemma_round_div(nr, 357510);
    assert(715020 * cr <= 2 * nr + 357510 <= 715020 * cr + 715020);
    let er = 1402 * (cr - 128) - (1000 * r - s);
    assert(-701 <= er <= 701);
    let xr = 1000 * y + 1402 * (cr - 128);
    assert(xr == 1000 * r + ey + er);
    lemma_round_div(xr, 1000);
    let xb = 1000 * y + 1772 * (cb - 128);
    assert(xb == 1000 * b + ey + eb);
    lemma_round_div(xb, 1000);
    let xg = 587000 * y - 202008 * (cb - 128) - 419198 * (cr - 128);
    assert(xg == 587000 * g + 587 * ey - 114 * eb - 299 * er);
    lemma_round_div(xg, 587000);
}

/// Converts one pixel to `[Y, Cb, Cr]` at `depth` bits.
pub fn rgb_to_ycbcr(px: Rgb8, depth: u8) -> (r: [u16; 3])
    requires
        valid_depth(depth as int),
    ensures
        r == spec_ycbcr(px, depth as int),
        r[0] as int == spec_y(px, depth as int),
        r[1] as int == spec_cb(px, depth as int),
        r[2] as int == spec_cr(px, depth as int),
{
    proof {
        lemma_ranges(px, depth as int);
    }
    let m: u64 = if depth == 8 {
        255
    } else if depth == 10 {
        1023
    } else {
        4095
    };
    let shift: u64 = (m + 1) / 2;
    let s: u64 = 299 * (px.r as u64) + 587 * (px.g as u64) + 114 * (px.b as u64);
    assert(m * s <= 4095 * 255000) by (nonlinear_arith)
        requires
            m <= 4095,
            s <= 255000,
    ;
    let y: u64 = (2 * (m * s) + 255000) / 510000;
    // m * (1000 b - s) + shift * 451860, kept non-negative by adding first.
    assert(m * (1000 * (px.b as u64)) <= 4095 * 255000) by (nonlinear_arith)
        requires
            m <= 4095,
            px.b <= 255,
    ;
    assert(m * (1000 * (px.r as u64)) <= 4095 * 255000) by (nonlinear_arith)
        requires
            m <= 4095,
            px.r <= 255,
    ;
    let mb: u64 = m * (1000 * (px.b as u64));
    let ms: u64 = m * s;
    proof {
        let db = 1000 * (px.b as int) - luma_sum(px);
        assert(m * (1000 * (px.b as int)) - m * s == m * db) by (nonlinear_arith)
            requires
                db == 1000 * (px.b as int) - s,
        ;
        let dr = 1000 * (px.r as int) - luma_sum(px);
        assert(m * (1000 * (px.r as int)) - m * s == m * dr) by (nonlinear_arith)
            requires
                dr == 1000 * (px.r as int) - s,
        ;
    }
    let nb: u64 = mb + shift * 451860 - ms;
    let cb0: u64 = (2 * nb + 451860) / 903720;
    let cb: u64 = if cb0 > m {
        m
    } else {
        cb0
    };
    let mr: u64 = m * (1000 * (px.r as u64));
    let nr: u64 = mr + shift * 357510 - ms;
    let cr0: u64 = (2 * nr + 357510) / 715020;
    let cr: u64 = if cr0 > m {
        m
    } else {
        cr0
    };
    let r = [y as u16, cb as u16, cr as u16];
    assert(r[0] as int == spec_y(px, depth as int));
    assert(r[1] as int == spec_cb(px, depth as int));
    assert(r[2] as int == spec_cr(px, depth as int));
    r
}

/// Converts one pixel to 10-bit `[Y, Cb, Cr]`.
pub fn rgb_to_10_bit_ycbcr(px: Rgb8) -> (r: [u16; 3])
    ensures
        r == spec_ycbcr(px, 10),
{
    rgb_to_ycbcr(px, 10)
}

/// Converts one pixel to 8-bit `[Y, Cb, Cr]`.
pub fn rgb_to_8_bit_ycbcr(px: Rgb8) -> (r: [u8; 3])
    ensures
        r[0] as int == spec_y(px, 8),
        r[1] as int == spec_cb(px, 8),
        r[2] as int == spec_cr(px, 8),
{
    proof {
        lemma_ranges(px, 8);
    }
    let v = rgb_to_ycbcr(px, 8);
    [v[0] as u8, v[1] as u8, v[2] as u8]
}

} // verus!

//! The quality scale (1 to 100) and its mapping onto the encoder's
//! quantizer (0 to 255, lower is better).

use vstd::prelude::*;

use crate::color::round_div;

verus! {

/// Quantizer for a quality percentage. The curve is piecewise linear:
/// above 85 it falls steeply to 0 at 100, between 25 and 85 it falls
/// gently, below 25 it follows `255 (1 - q)`.
pub open spec fn spec_quantizer(quality: int) -> int {
    if quality >= 85 {
        round_div(765 * (100 - quality), 100)
    } else if quality > 25 {
        round_div(255 * (175 - quality), 200)
    } else {
        round_div(255 * (100 - quality), 100)
    }
}

/// Maps a quality percentage (`0..=100`) onto the quantizer scale.
pub fn quality_to_quantizer(quality: u8) -> (q: u8)
    requires
        quality <= 100,
    ensures
        q as int == spec_quantizer(quality as int),
{
    let quality = quality as u32;
    let q: u32 = if quality >= 85 {
        (1530 * (100 - quality) + 100) / 200
    } else if quality > 25 {
        (510 * (175 - quality) + 200) / 400
    } else {
        (510 * (100 - quality) + 100) / 200
    };
    assert(q <= 255);
    q as u8
}

proof fn lemma_quantizer_step(q: int)
    requires
        0 <= q < 100,
    ensures
        spec_quantizer(q) >= spec_quantizer(q + 1),
        0 <= spec_quantizer(q + 1),
{
    if q == 84 {
        lemma_round_div_is(255int * 91, 200, 116);
        lemma_round_div_is(765int * 15, 100, 115);
    } else if q == 25 {
        lemma_round_div_is(255int * 75, 100, 191);
        lemma_round_div_is(255int * 149, 200, 190);
    } else if q >= 85 {
        vstd::arithmetic::div_mod::lemma_div_is_ordered(
            1530 * (100 - (q + 1)) + 100,
            1530 * (100 - q) + 100,
            200,
        );
        vstd::arithmetic::div_mod::lemma_div_pos_is_pos(1530 * (100 - (q + 1)) + 100, 200);
    } else if q > 25 {
        vstd::arithmetic::div_mod::lemma_div_is_ordered(
            510 * (175 - (q + 1)) + 200,
            510 * (175 - q) + 200,
            400,
        );
        vstd::arithmetic::div_mod::lemma_div_pos_is_pos(510 * (175 - (q + 1)) + 200, 400);
    } else {
        vstd::arithmetic::div_mod::lemma_div_is_ordered(
            510 * (100 - (q + 1)) + 100,
            510 * (100 - q) + 100,
            200,
        );
        vstd::arithmetic::div_mod::lemma_div_pos_is_pos(510 * (100 - (q + 1)) + 100, 200);
    }
}

proof fn lemma_round_div_is(n: int, d: int, q: int)
    requires
        d > 0,
        2 * d * q <= 2 * n + d < 2 * d * q + 2 * d,
    ensures
        round_div(n, d) == q,
{
    assert(q * (2 * d) == 2 * d * q) by (nonlinear_arith);
    vstd::arithmetic::div_mod::lemma_fundamental_div_mod_converse(
        2 * n + d,
        2 * d,
        q,
        2 * n + d - 2 * d * q,
    );
}

proof fn lemma_quantizer_chain(quality1: int, quality2: int)
    requires
        0 <= quality1 <= quality2 <= 100,
    ensures
        spec_quantizer(quality1) >= spec_quantizer(quality2),
    decreases quality2 - quality1,
{
    if quality1 < quality2 {
        lemma_quantizer_step(quality2 - 1);
        lemma_quantizer_chain(quality1, quality2 - 1);
    }
}

/// The quantizer never increases as quality rises; quality 100 gives the
/// smallest quantizer (0) and quality 1 a high one (252).
pub proof fn lemma_quantizer_monotonic(quality1: int, quality2: int)
    requires
        1 <= quality1 < quality2 <= 100,
    ensures
        spec_quantizer(quality1) >= spec_quantizer(quality2),
        spec_quantizer(quality2) >= spec_quantizer(100),
        spec_quantizer(100) == 0,
        spec_quantizer(1) == 252,
{
    lemma_round_div_is(0int, 100, 0);
    lemma_round_div_is(255int * 99, 100, 252);
    lemma_quantizer_chain(quality1, quality2);
    lemma_quantizer_chain(quality2, 100);
}

} // verus!

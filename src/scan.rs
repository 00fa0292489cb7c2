//! Decides whether an image's alpha channel is fully opaque, so that the
//! alpha plane can be left out of the file.

use vstd::prelude::*;

use crate::pixel::{all_opaque, Rgba8, OPAQUE};

verus! {

/// Number of alpha samples compared at once.
pub const LANES: usize = 32;

/// Whether the lane block `alpha[start..start + LANES]` is all opaque.
fn lanes_opaque(alpha: &Vec<u8>, start: usize) -> (r: bool)
    requires
        start + LANES <= alpha.len(),
    ensures
        r == (forall|i: int| start <= i < start + LANES ==> #[trigger] alpha[i] == OPAQUE),
{
    let mut k: usize = 0;
    while k < LANES
        invariant
            start + LANES <= alpha.len(),
            k <= LANES,
            forall|i: int| start <= i < start + k ==> #[trigger] alpha[i] == OPAQUE,
        decreases LANES - k,
    {
        if alpha[start + k] != OPAQUE {
            return false;
        }
        k = k + 1;
    }
    true
}

/// Returns whether every pixel of `image` is fully opaque (alpha 255).
/// An empty image is opaque.
///
/// The alpha samples are compared in blocks of `LANES`; the scan stops at
/// the first block that fails, and a short last block is compared one
/// sample at a time.
pub fn is_opaque(image: &[Rgba8]) -> (r: bool)
    ensures
        r == all_opaque(image@),
{
    let n = image.len();
    let mut alpha: Vec<u8> = Vec::with_capacity(n);
    let mut i: usize = 0;
    while i < n
        invariant
            n == image@.len(),
            i <= n,
            alpha@.len() == i,
            forall|j: int| 0 <= j < i ==> #[trigger] alpha@[j] == image@[j].a,
        decreases n - i,
    {
        alpha.push(image[i].a);
        i = i + 1;
    }
    let mut start: usize = 0;
    while n - start >= LANES
        invariant
            n == image@.len(),
            alpha@.len() == n,
            start <= n,
            forall|j: int| 0 <= j < n ==> #[trigger] alpha@[j] == image@[j].a,
            forall|j: int| 0 <= j < start ==> #[trigger] image@[j].a == OPAQUE,
        decreases n - start,
    {
        if !lanes_opaque(&alpha, start) {
            proof {
                let w = choose|w: int| start <= w < start + LANES && alpha[w] != OPAQUE;
                assert(image@[w].a != OPAQUE);
            }
            return false;
        }
        assert forall|j: int| 0 <= j < start + LANES implies #[trigger] image@[j].a == OPAQUE by {
            if j >= start {
                assert(alpha[j] == OPAQUE);
            }
        }
        start = start + LANES;
    }
    let mut k: usize = start;
    while k < n
        invariant
            n == image@.len(),
            alpha@.len() == n,
            start <= k <= n,
            forall|j: int| 0 <= j < n ==> #[trigger] alpha@[j] == image@[j].a,
            forall|j: int| 0 <= j < k ==> #[trigger] image@[j].a == OPAQUE,
        decreases n - k,
    {
        if alpha[k] != OPAQUE {
            return false;
        }
        k = k + 1;
    }
    true
}

} // verus!

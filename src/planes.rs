//! Turns plane samples into the little-endian rows handed to the encoder,
//! refusing a producer that runs short.

use vstd::prelude::*;

use crate::error::Error;

verus! {

/// Two little-endian bytes for each of the first `n` samples.
pub open spec fn le_bytes(samples: Seq<u16>, n: int) -> Seq<u8> {
    Seq::new(
        (2 * n) as nat,
        |j: int|
            if j % 2 == 0 {
                (samples[j / 2] % 256) as u8
            } else {
                (samples[j / 2] / 256) as u8
            },
    )
}

/// Channel `k` of interleaved three-channel samples.
pub open spec fn channel(samples: Seq<[u16; 3]>, k: int) -> Seq<u16> {
    samples.map_values(|s: [u16; 3]| s[k])
}

fn push_le(bytes: &mut Vec<u8>, v: u16)
    ensures
        final(bytes)@ == old(bytes)@.push((v % 256) as u8).push((v / 256) as u8),
{
    bytes.push((v % 256) as u8);
    bytes.push((v / 256) as u8);
}

/// The three planes of the first `width * height` color samples.
pub fn init_frame_color(width: usize, height: usize, planes: &Vec<[u16; 3]>) -> (r: Result<
    Vec<Vec<u8>>,
    Error,
>)
    requires
        width * height <= usize::MAX / 2,
    ensures
        planes.len() < width * height <==> r == Err::<Vec<Vec<u8>>, Error>(Error::TooFewPixels),
        planes.len() >= width * height ==> r is Ok,
        r matches Ok(b) ==> b.len() == 3 && forall|k: int|
            0 <= k < 3 ==> #[trigger] b[k]@ == le_bytes(channel(planes@, k), width * height),
{
    let n = width * height;
    if planes.len() < n {
        return Err(Error::TooFewPixels);
    }
    let mut y: Vec<u8> = Vec::with_capacity(2 * n);
    let mut u: Vec<u8> = Vec::with_capacity(2 * n);
    let mut v: Vec<u8> = Vec::with_capacity(2 * n);
    let mut i: usize = 0;
    while i < n
        invariant
            n == width * height,
            n <= usize::MAX / 2,
            planes.len() >= n,
            i <= n,
            y@ == le_bytes(channel(planes@, 0), i as int),
            u@ == le_bytes(channel(planes@, 1), i as int),
            v@ == le_bytes(channel(planes@, 2), i as int),
        decreases n - i,
    {
        let px = planes[i];
        push_le(&mut y, px[0]);
        push_le(&mut u, px[1]);
        push_le(&mut v, px[2]);
        i = i + 1;
        assert(y@ =~= le_bytes(channel(planes@, 0), i as int));
        assert(u@ =~= le_bytes(channel(planes@, 1), i as int));
        assert(v@ =~= le_bytes(channel(planes@, 2), i as int));
    }
    let out = vec![y, u, v];
    Ok(out)
}

/// The single plane of the first `width * height` alpha samples.
pub fn init_frame_alpha_pix(width: usize, height: usize, alpha: &Vec<u16>) -> (r: Result<
    Vec<Vec<u8>>,
    Error,
>)
    requires
        width * height <= usize::MAX / 2,
    ensures
        alpha.len() < width * height <==> r == Err::<Vec<Vec<u8>>, Error>(Error::TooFewPixels),
        alpha.len() >= width * height ==> r is Ok,
        r matches Ok(b) ==> b.len() == 1 && b[0]@ == le_bytes(alpha@, width * height),
{
    let n = width * height;
    if alpha.len() < n {
        return Err(Error::TooFewPixels);
    }
    let mut y: Vec<u8> = Vec::with_capacity(2 * n);
    let mut i: usize = 0;
    while i < n
        invariant
            n == width * height,
            n <= usize::MAX / 2,
            alpha.len() >= n,
            i <= n,
            y@ == le_bytes(alpha@, i as int),
        decreases n - i,
    {
        push_le(&mut y, alpha[i]);
        i = i + 1;
        assert(y@ =~= le_bytes(alpha@, i as int));
    }
    let out = vec![y];
    Ok(out)
}

} // verus!

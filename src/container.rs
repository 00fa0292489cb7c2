//! Packs the color and alpha payloads into an AVIF (HEIF) file.

use vstd::prelude::*;

use crate::error::Error;

verus! {

/// The AVIF file that avif-serialize writes for these payloads, size, bit
/// depth and Exif block.
pub uninterp spec fn avif_file_of(
    color: Seq<u8>,
    alpha: Option<Seq<u8>>,
    width: u32,
    height: u32,
    depth: u8,
    exif: Option<Seq<u8>>,
) -> Seq<u8>;

pub open spec fn opt_view(o: Option<Vec<u8>>) -> Option<Seq<u8>> {
    match o {
        Some(v) => Some(v@),
        None => None,
    }
}

/// Relies on avif-serialize's `Aviffy::new`, whose defaults declare BT.601
/// matrix coefficients, sRGB transfer, BT.709 primaries, full range and
/// straight (non-premultiplied) alpha; on `Aviffy::set_exif`; and on
/// `Aviffy::to_vec`, which writes the file and panics only for a depth
/// other than 8, 10 or 12. The file depends on its arguments alone, and
/// holds the payloads verbatim in its `mdat` box after the `ftyp` and
/// `meta` boxes, so it is longer than they are.
#[verifier::external_body]
fn avif_container(
    color: &[u8],
    alpha: Option<&[u8]>,
    width: u32,
    height: u32,
    depth: u8,
    exif: Option<Vec<u8>>,
) -> (r: Vec<u8>)
    requires
        depth == 8 || depth == 10 || depth == 12,
    ensures
        r@ == avif_file_of(
            color@,
            match alpha {
                Some(a) => Some(a@),
                None => None,
            },
            width,
            height,
            depth,
            opt_view(exif),
        ),
        r@.len() > color@.len() + match alpha {
            Some(a) => a@.len(),
            None => 0,
        },
{
    let mut file = avif_serialize::Aviffy::new();
    if let Some(exif) = exif {
        file.set_exif(exif);
    }
    file.to_vec(color, alpha, width, height, depth)
}

/// An encoded image and the sizes of its payloads.
#[derive(Clone)]
pub struct EncodedImage {
    /// AVIF (HEIF + AV1) file.
    pub avif_file: Vec<u8>,
    /// Bytes of AV1 payload for the color planes.
    pub color_byte_size: usize,
    /// Bytes of AV1 payload for the alpha plane; 0 without one.
    pub alpha_byte_size: usize,
}

/// The file and payload sizes for the given payloads.
pub open spec fn packaged(
    img: EncodedImage,
    color: Seq<u8>,
    alpha: Option<Seq<u8>>,
    width: u32,
    height: u32,
    depth: u8,
    exif: Option<Seq<u8>>,
) -> bool {
    &&& img.avif_file@ == avif_file_of(color, alpha, width, height, depth, exif)
    &&& img.avif_file@.len() > color.len() + match alpha {
        Some(a) => a.len(),
        None => 0,
    }
    &&& img.color_byte_size == color.len()
    &&& img.alpha_byte_size == match alpha {
        Some(a) => a.len(),
        None => 0,
    }
}

/// Packs the payloads into a file and reports their sizes.
pub(crate) fn package(
    color: Vec<u8>,
    alpha: Option<Vec<u8>>,
    width: u32,
    height: u32,
    depth: u8,
    exif: Option<Vec<u8>>,
) -> (img: EncodedImage)
    requires
        depth == 8 || depth == 10 || depth == 12,
    ensures
        packaged(img, color@, opt_view(alpha), width, height, depth, opt_view(exif)),
{
    let alpha_byte_size = match &alpha {
        Some(a) => a.len(),
        None => 0,
    };
    let avif_file = match &alpha {
        Some(a) => avif_container(color.as_slice(), Some(a.as_slice()), width, height, depth, exif),
        None => avif_container(color.as_slice(), None, width, height, depth, exif),
    };
    EncodedImage { avif_file, color_byte_size: color.len(), alpha_byte_size }
}

/// `r` is what the outcome `o` (payloads, or an error) gives: the error
/// itself, or a file packed around the payloads.
pub open spec fn outcome_matches(
    r: Result<EncodedImage, Error>,
    o: Result<(Seq<u8>, Option<Seq<u8>>), Error>,
    width: u32,
    height: u32,
    depth: u8,
    exif: Option<Seq<u8>>,
) -> bool {
    match o {
        Err(e) => r == Err::<EncodedImage, Error>(e),
        Ok((color, alpha)) => r matches Ok(img) && packaged(
            img,
            color,
            alpha,
            width,
            height,
            depth,
            exif,
        ),
    }
}

/// Two results that are the same error, or files with the same bytes and
/// payload sizes.
pub open spec fn same_result(a: Result<EncodedImage, Error>, b: Result<EncodedImage, Error>) -> bool {
    match (a, b) {
        (Err(x), Err(y)) => x == y,
        (Ok(x), Ok(y)) => x.avif_file@ == y.avif_file@ && x.color_byte_size == y.color_byte_size
            && x.alpha_byte_size == y.alpha_byte_size,
        _ => false,
    }
}

/// Results that match one outcome are the same result.
pub proof fn lemma_outcome_determines_result(
    a: Result<EncodedImage, Error>,
    b: Result<EncodedImage, Error>,
    o: Result<(Seq<u8>, Option<Seq<u8>>), Error>,
    width: u32,
    height: u32,
    depth: u8,
    exif: Option<Seq<u8>>,
)
    requires
        outcome_matches(a, o, width, height, depth, exif),
        outcome_matches(b, o, width, height, depth, exif),
    ensures
        same_result(a, b),
{
}

} // verus!

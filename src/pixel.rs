use vstd::prelude::*;

verus! {

/// One 8-bit pixel with straight (non-premultiplied) alpha, alpha last.
#[derive(Clone, Copy, Debug, PartialEq, Eq, Structural)]
pub struct Rgba8 {
    pub r: u8,
    pub g: u8,
    pub b: u8,
    pub a: u8,
}

/// One 8-bit pixel without alpha.
#[derive(Clone, Copy, Debug, PartialEq, Eq, Structural)]
pub struct Rgb8 {
    pub r: u8,
    pub g: u8,
    pub b: u8,
}

/// The value of an alpha sample that is fully opaque.
pub const OPAQUE: u8 = 255;

impl Rgba8 {
    pub fn new(r: u8, g: u8, b: u8, a: u8) -> (px: Rgba8)
        ensures
            px == (Rgba8 { r, g, b, a }),
    {
        Rgba8 { r, g, b, a }
    }

    /// The color part of the pixel.
    pub fn rgb(&self) -> (px: Rgb8)
        ensures
            px == self.spec_rgb(),
    {
        Rgb8 { r: self.r, g: self.g, b: self.b }
    }

    pub open spec fn spec_rgb(&self) -> Rgb8 {
        Rgb8 { r: self.r, g: self.g, b: self.b }
    }
}

impl Rgb8 {
    pub fn new(r: u8, g: u8, b: u8) -> (px: Rgb8)
        ensures
            px == (Rgb8 { r, g, b }),
    {
        Rgb8 { r, g, b }
    }
}

/// Every alpha sample of `pixels` is fully opaque.
pub open spec fn all_opaque(pixels: Seq<Rgba8>) -> bool {
    forall|i: int| 0 <= i < pixels.len() ==> #[trigger] pixels[i].a == OPAQUE
}

/// The color part of each pixel, in order.
pub open spec fn strip_alpha(pixels: Seq<Rgba8>) -> Seq<Rgb8> {
    pixels.map_values(|p: Rgba8| p.spec_rgb())
}

} // verus!

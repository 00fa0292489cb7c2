//! The encoder: a validated configuration and the `encode` calls that
//! compose scanning, colorspace conversion, AV1 encoding and packaging.

use vstd::prelude::*;

use rav1e::prelude::{
    ChromaSampling, ColorDescription, ColorPrimaries, MatrixCoefficients, PixelRange,
    TransferCharacteristics,
};

use crate::av1::{
    av1_run_of, encode_to_av1, planes_view, spec_av1_result, spec_encoder_config, Av1EncodeConfig,
};
use crate::color::{rgb_to_ycbcr, spec_ycbcr, valid_depth, max_sample};
use crate::container::{
    lemma_outcome_determines_result, opt_view, outcome_matches, package, packaged, same_result,
    EncodedImage,
};
use crate::error::Error;
use crate::pixel::{all_opaque, strip_alpha, Rgb8, Rgba8};
use crate::planes::{channel, init_frame_alpha_pix, init_frame_color, le_bytes};
use crate::quality::{quality_to_quantizer, spec_quantizer};
use crate::scan::is_opaque;
use crate::speed::{spec_speed_tweaks, SpeedTweaks};

verus! {

/// Narrowest image the encoder accepts, in pixels.
pub const MIN_WIDTH: usize = 32;

/// Largest width or height rav1e accepts.
pub const MAX_SIDE: usize = 65535;

/// Relies on num_cpus's `get`, documented to return at least 1.
pub assume_specification[ num_cpus::get ]() -> (n: usize)
    ensures
        n >= 1,
;

/// A decoded image: `width * height` straight-alpha RGBA pixels, row by
/// row, and whether its source format had an alpha channel.
#[derive(Clone, Debug)]
pub struct SourceBitmap {
    pub width: usize,
    pub height: usize,
    pub pixels: Vec<Rgba8>,
    pub has_alpha: bool,
}

/// Encoder configuration, built once and then used for any number of
/// encode calls.
#[derive(Debug)]
pub struct Encoder {
    /// Quantizer of the color planes (0 to 255).
    quantizer: u8,
    /// Quantizer of the alpha plane (0 to 255).
    alpha_quantizer: u8,
    /// Speed dial, 1 (slow, small) to 10 (fast, larger).
    speed: u8,
    /// Worker threads for the codec; 0 lets it use its global pool.
    threads: usize,
    /// Output bit depth: 8, 10 or 12.
    bit_depth: u8,
    /// Exif block embedded in the file.
    exif: Option<Vec<u8>>,
}

/// The first `n` color samples, converted at `depth` bits.
pub open spec fn ycbcr_samples(pixels: Seq<Rgb8>, depth: int) -> Seq<[u16; 3]> {
    pixels.map_values(|p: Rgb8| spec_ycbcr(p, depth))
}

/// The alpha samples of `pixels`.
pub open spec fn alpha_samples(pixels: Seq<Rgba8>) -> Seq<u16> {
    pixels.map_values(|p: Rgba8| p.a as u16)
}

/// An alpha plane is encoded only for an image with alpha that is not
/// fully opaque.
pub open spec fn keeps_alpha(image: SourceBitmap) -> bool {
    image.has_alpha && !all_opaque(image.pixels@)
}

impl Clone for Encoder {
    fn clone(&self) -> (e: Self)
        ensures
            e.quantizer() == self.quantizer(),
            e.alpha_quantizer() == self.alpha_quantizer(),
            e.speed() == self.speed(),
            e.threads() == self.threads(),
            e.bit_depth() == self.bit_depth(),
            e.exif() == self.exif(),
    {
        proof {
            use_type_invariant(self);
        }
        let exif = match &self.exif {
            Some(x) => Some(x.clone()),
            None => None,
        };
        Encoder {
            quantizer: self.quantizer,
            alpha_quantizer: self.alpha_quantizer,
            speed: self.speed,
            threads: self.threads,
            bit_depth: self.bit_depth,
            exif,
        }
    }
}

impl Encoder {
    #[verifier::type_invariant]
    spec fn inv(&self) -> bool {
        1 <= self.speed <= 10 && valid_depth(self.bit_depth as int)
    }

    pub closed spec fn quantizer(&self) -> u8 {
        self.quantizer
    }

    pub closed spec fn alpha_quantizer(&self) -> u8 {
        self.alpha_quantizer
    }

    pub closed spec fn speed(&self) -> u8 {
        self.speed
    }

    pub closed spec fn threads(&self) -> usize {
        self.threads
    }

    pub closed spec fn bit_depth(&self) -> u8 {
        self.bit_depth
    }

    pub closed spec fn exif(&self) -> Option<Seq<u8>> {
        opt_view(self.exif)
    }

    /// The settings an encode uses.
    pub open spec fn settings(&self) -> EncoderSettings {
        EncoderSettings {
            quantizer: self.quantizer(),
            alpha_quantizer: self.alpha_quantizer(),
            speed: self.speed(),
            threads: self.threads(),
            bit_depth: self.bit_depth(),
            exif: self.exif(),
        }
    }
}

/// The settings of an `Encoder`, as plain values.
pub struct EncoderSettings {
    pub quantizer: u8,
    pub alpha_quantizer: u8,
    pub speed: u8,
    pub threads: usize,
    pub bit_depth: u8,
    pub exif: Option<Seq<u8>>,
}

/// BT.709 primaries, sRGB transfer, BT.601 matrix.
pub open spec fn spec_srgb_bt601() -> ColorDescription {
    ColorDescription {
        transfer_characteristics: TransferCharacteristics::SRGB,
        color_primaries: ColorPrimaries::BT709,
        matrix_coefficients: MatrixCoefficients::BT601,
    }
}

/// rav1e parameters for the color planes: full chroma resolution (4:4:4),
/// the color quantizer and its speed toggles, the BT.601 description.
pub open spec fn color_config(
    s: EncoderSettings,
    width: usize,
    height: usize,
    range: PixelRange,
    depth: u8,
) -> Av1EncodeConfig {
    Av1EncodeConfig {
        width,
        height,
        bit_depth: depth as usize,
        quantizer: s.quantizer as usize,
        speed: spec_speed_tweaks(s.speed, s.quantizer),
        threads: s.threads,
        pixel_range: range,
        chroma_sampling: ChromaSampling::Cs444,
        color_description: Some(spec_srgb_bt601()),
    }
}

/// rav1e parameters for the alpha plane: monochrome (4:0:0), full range,
/// the alpha quantizer and its speed toggles, no color description.
pub open spec fn alpha_config(s: EncoderSettings, width: usize, height: usize, depth: u8) -> Av1EncodeConfig {
    Av1EncodeConfig {
        width,
        height,
        bit_depth: depth as usize,
        quantizer: s.alpha_quantizer as usize,
        speed: spec_speed_tweaks(s.speed, s.alpha_quantizer),
        threads: s.threads,
        pixel_range: PixelRange::Full,
        chroma_sampling: ChromaSampling::Cs400,
        color_description: None,
    }
}

/// The three color planes' bytes for the first `n` samples.
pub open spec fn color_bytes(planes: Seq<[u16; 3]>, n: int) -> Seq<Seq<u8>> {
    seq![
        le_bytes(channel(planes, 0), n),
        le_bytes(channel(planes, 1), n),
        le_bytes(channel(planes, 2), n),
    ]
}

/// The payload rav1e makes of `planes` under `cfg`, or its error.
pub open spec fn av1_payload(cfg: Av1EncodeConfig, planes: Seq<Seq<u8>>) -> Result<Seq<u8>, Error> {
    spec_av1_result(
        av1_run_of(spec_encoder_config(cfg), cfg.threads, planes, (cfg.width * 2) as usize),
    )
}

/// The payloads (or error) of `encode_raw_planes`: the checks in order
/// (depth, sides, sample counts, memory, sample range), then the color
/// payload, then the alpha payload if alpha is given.
pub open spec fn raw_outcome(
    s: EncoderSettings,
    width: usize,
    height: usize,
    planes: Seq<[u16; 3]>,
    alpha: Option<Seq<u16>>,
    range: PixelRange,
    depth: u8,
) -> Result<(Seq<u8>, Option<Seq<u8>>), Error> {
    let n = width * height;
    if !valid_depth(depth as int) {
        Err(Error::UnsupportedBitDepth)
    } else if !(1 <= width <= MAX_SIDE && 1 <= height <= MAX_SIDE) {
        Err(Error::InvalidConfig)
    } else if planes.len() < n || (alpha is Some && alpha->0.len() < n) {
        Err(Error::TooFewPixels)
    } else if n > usize::MAX / 6 {
        Err(Error::InvalidConfig)
    } else if !samples_fit(planes, alpha, n, depth as int) {
        Err(Error::SampleOutOfRange)
    } else {
        match av1_payload(color_config(s, width, height, range, depth), color_bytes(planes, n)) {
            Err(e) => Err(e),
            Ok(color) => match alpha {
                None => Ok((color, None)),
                Some(a) => match av1_payload(alpha_config(s, width, height, depth), seq![le_bytes(a, n)]) {
                    Err(e) => Err(e),
                    Ok(ap) => Ok((color, Some(ap))),
                },
            },
        }
    }
}

/// The outcome of `encode_rgb`.
pub open spec fn rgb_outcome(s: EncoderSettings, width: usize, height: usize, pixels: Seq<Rgb8>) -> Result<
    (Seq<u8>, Option<Seq<u8>>),
    Error,
> {
    if width < MIN_WIDTH {
        Err(Error::ImageTooNarrow)
    } else {
        raw_outcome(
            s,
            width,
            height,
            ycbcr_samples(pixels, s.bit_depth as int),
            None,
            PixelRange::Full,
            s.bit_depth,
        )
    }
}

/// The outcome of encoding RGBA pixels with an alpha plane.
pub open spec fn rgba_outcome(s: EncoderSettings, width: usize, height: usize, pixels: Seq<Rgba8>) -> Result<
    (Seq<u8>, Option<Seq<u8>>),
    Error,
> {
    raw_outcome(
        s,
        width,
        height,
        ycbcr_samples(strip_alpha(pixels), s.bit_depth as int),
        Some(alpha_samples(pixels)),
        PixelRange::Full,
        s.bit_depth,
    )
}

/// The outcome of `encode`.
pub open spec fn encode_outcome(s: EncoderSettings, image: SourceBitmap) -> Result<
    (Seq<u8>, Option<Seq<u8>>),
    Error,
> {
    if image.width < MIN_WIDTH {
        Err(Error::ImageTooNarrow)
    } else if keeps_alpha(image) {
        rgba_outcome(s, image.width, image.height, image.pixels@)
    } else {
        rgb_outcome(s, image.width, image.height, strip_alpha(image.pixels@))
    }
}

/// Builder methods. Each validates its input and returns an error for an
/// out-of-range value.
impl Encoder {
    /// Quality 80 for color and alpha, speed 5, one thread per CPU, 10-bit
    /// output, no Exif block.
    pub fn new() -> (e: Self)
        ensures
            e.quantizer() == spec_quantizer(80),
            e.alpha_quantizer() == spec_quantizer(80),
            e.speed() == 5,
            e.threads() >= 1,
            e.bit_depth() == 10,
            e.exif() is None,
    {
        Encoder {
            quantizer: quality_to_quantizer(80),
            alpha_quantizer: quality_to_quantizer(80),
            speed: 5,
            threads: num_cpus::get(),
            bit_depth: 10,
            exif: None,
        }
    }

    /// Quality of the color planes, `1..=100`.
    pub fn with_quality(self, quality: u8) -> (r: Result<Self, Error>)
        ensures
            !(1 <= quality <= 100) ==> r == Err::<Self, Error>(Error::QualityOutOfRange),
            1 <= quality <= 100 ==> r is Ok,
            r matches Ok(e) ==> e.quantizer() == spec_quantizer(quality as int) && e.alpha_quantizer()
                == self.alpha_quantizer() && e.speed() == self.speed() && e.threads()
                == self.threads() && e.bit_depth() == self.bit_depth() && e.exif() == self.exif(),
    {
        if quality < 1 || quality > 100 {
            return Err(Error::QualityOutOfRange);
        }
        proof {
            use_type_invariant(&self);
        }
        let mut e = self;
        e.quantizer = quality_to_quantizer(quality);
        Ok(e)
    }

    /// Quality of the alpha plane only, `1..=100`.
    pub fn with_alpha_quality(self, quality: u8) -> (r: Result<Self, Error>)
        ensures
            !(1 <= quality <= 100) ==> r == Err::<Self, Error>(Error::QualityOutOfRange),
            1 <= quality <= 100 ==> r is Ok,
            r matches Ok(e) ==> e.alpha_quantizer() == spec_quantizer(quality as int)
                && e.quantizer() == self.quantizer() && e.speed() == self.speed() && e.threads()
                == self.threads() && e.bit_depth() == self.bit_depth() && e.exif() == self.exif(),
    {
        if quality < 1 || quality > 100 {
            return Err(Error::QualityOutOfRange);
        }
        proof {
            use_type_invariant(&self);
        }
        let mut e = self;
        e.alpha_quantizer = quality_to_quantizer(quality);
        Ok(e)
    }

    /// Speed `1..=10`: 1 is very slow with the best compression, 10 is
    /// quick with larger files.
    pub fn with_speed(self, speed: u8) -> (r: Result<Self, Error>)
        ensures
            !(1 <= speed <= 10) ==> r == Err::<Self, Error>(Error::SpeedOutOfRange),
            1 <= speed <= 10 ==> r is Ok,
            r matches Ok(e) ==> e.speed() == speed && e.quantizer() == self.quantizer()
                && e.alpha_quantizer() == self.alpha_quantizer() && e.threads() == self.threads()
                && e.bit_depth() == self.bit_depth() && e.exif() == self.exif(),
    {
        if speed < 1 || speed > 10 {
            return Err(Error::SpeedOutOfRange);
        }
        proof {
            use_type_invariant(&self);
        }
        let mut e = self;
        e.speed = speed;
        Ok(e)
    }

    /// Worker threads for the codec; 0 lets it use its global pool.
    pub fn with_num_threads(self, num_threads: usize) -> (e: Self)
        ensures
            e.threads() == num_threads,
            e.quantizer() == self.quantizer(),
            e.alpha_quantizer() == self.alpha_quantizer(),
            e.speed() == self.speed(),
            e.bit_depth() == self.bit_depth(),
            e.exif() == self.exif(),
    {
        proof {
            use_type_invariant(&self);
        }
        let mut e = self;
        e.threads = num_threads;
        e
    }

    /// Output bit depth: 8, 10 or 12.
    pub fn with_bit_depth(self, depth: u8) -> (r: Result<Self, Error>)
        ensures
            !valid_depth(depth as int) ==> r == Err::<Self, Error>(Error::UnsupportedBitDepth),
            valid_depth(depth as int) ==> r is Ok,
            r matches Ok(e) ==> e.bit_depth() == depth && e.quantizer() == self.quantizer()
                && e.alpha_quantizer() == self.alpha_quantizer() && e.speed() == self.speed()
                && e.threads() == self.threads() && e.exif() == self.exif(),
    {
        if depth != 8 && depth != 10 && depth != 12 {
            return Err(Error::UnsupportedBitDepth);
        }
        proof {
            use_type_invariant(&self);
        }
        let mut e = self;
        e.bit_depth = depth;
        Ok(e)
    }

    /// An Exif block to embed, verbatim, in the file.
    pub fn with_exif_data(self, exif: Vec<u8>) -> (e: Self)
        ensures
            e.exif() == Some(exif@),
            e.quantizer() == self.quantizer(),
            e.alpha_quantizer() == self.alpha_quantizer(),
            e.speed() == self.speed(),
            e.threads() == self.threads(),
            e.bit_depth() == self.bit_depth(),
    {
        proof {
            use_type_invariant(&self);
        }
        let mut e = self;
        e.exif = Some(exif);
        e
    }
}

/// Every one of the first `n` samples fits in `depth` bits.
pub open spec fn samples_fit(planes: Seq<[u16; 3]>, alpha: Option<Seq<u16>>, n: int, depth: int) -> bool {
    (forall|i: int, k: int| 0 <= i < n && 0 <= k < 3 ==> #[trigger] planes[i][k] <= max_sample(depth))
        && alpha_fits(alpha, n, depth)
}

/// Every one of the first `n` alpha samples, if any, fits in `depth` bits.
pub open spec fn alpha_fits(alpha: Option<Seq<u16>>, n: int, depth: int) -> bool {
    forall|i: int| 0 <= i < n && alpha is Some ==> #[trigger] alpha->0[i] <= max_sample(depth)
}

pub open spec fn opt_seq(alpha: Option<&Vec<u16>>) -> Option<Seq<u16>> {
    match alpha {
        Some(a) => Some(a@),
        None => None,
    }
}

fn max_sample_of(depth: u8) -> (m: u16)
    requires
        valid_depth(depth as int),
    ensures
        m as int == max_sample(depth as int),
{
    if depth == 8 {
        255
    } else if depth == 10 {
        1023
    } else {
        4095
    }
}

/// Whether the first `n` samples all fit in `depth` bits.
fn check_samples(planes: &Vec<[u16; 3]>, alpha: Option<&Vec<u16>>, n: usize, depth: u8) -> (ok:
    bool)
    requires
        valid_depth(depth as int),
        planes.len() >= n,
        alpha matches Some(a) ==> a.len() >= n,
    ensures
        ok == samples_fit(planes@, opt_seq(alpha), n as int, depth as int),
{
    let max = max_sample_of(depth);
    let mut i: usize = 0;
    while i < n
        invariant
            planes.len() >= n,
            i <= n,
            max as int == max_sample(depth as int),
            forall|j: int, k: int| 0 <= j < i && 0 <= k < 3 ==> #[trigger] planes@[j][k] <= max,
        decreases n - i,
    {
        let px = planes[i];
        if px[0] > max || px[1] > max || px[2] > max {
            assert(planes@[i as int] == px);
            return false;
        }
        i = i + 1;
    }
    match alpha {
        None => true,
        Some(a) => {
            assert(opt_seq(alpha) == Some(a@));
            let mut i: usize = 0;
            while i < n
                invariant
                    opt_seq(alpha) == Some(a@),
                    a.len() >= n,
                    planes.len() >= n,
                    forall|j: int, k: int| 0 <= j < n && 0 <= k < 3 ==> #[trigger] planes@[j][k] <= max,
                    i <= n,
                    max as int == max_sample(depth as int),
                    forall|j: int| 0 <= j < i ==> #[trigger] a@[j] <= max,
                decreases n - i,
            {
                if a[i] > max {
                    assert(opt_seq(alpha)->0[i as int] > max);
                    return false;
                }
                i = i + 1;
            }
            true
        },
    }
}

/// The color description written into the AV1 stream: BT.709 primaries,
/// sRGB transfer, BT.601 matrix.
fn srgb_bt601() -> (d: ColorDescription)
    ensures
        d.color_primaries == ColorPrimaries::BT709,
        d.transfer_characteristics == TransferCharacteristics::SRGB,
        d.matrix_coefficients == MatrixCoefficients::BT601,
{
    ColorDescription {
        transfer_characteristics: TransferCharacteristics::SRGB,
        color_primaries: ColorPrimaries::BT709,
        matrix_coefficients: MatrixCoefficients::BT601,
    }
}

/// The encode calls.
impl Encoder {
    /// Encodes planar `[Y, Cb, Cr]` samples (BT.601, full chroma
    /// resolution) and, if given, alpha samples (full range) at `bit_depth`
    /// bits. Only the first `width * height` samples of each are used.
    ///
    /// Fails with `UnsupportedBitDepth` for a depth other than 8, 10 or 12;
    /// with `InvalidConfig` for a side of 0 or above 65535; with
    /// `TooFewPixels` when a plane has fewer than `width * height` samples;
    /// with `SampleOutOfRange` for a sample above the depth's maximum; else
    /// with what the codec reports, if it fails.
    pub fn encode_raw_planes(
        &self,
        width: usize,
        height: usize,
        planes: &Vec<[u16; 3]>,
        alpha: Option<&Vec<u16>>,
        color_pixel_range: PixelRange,
        bit_depth: u8,
    ) -> (r: Result<EncodedImage, Error>)
        ensures
            outcome_matches(
                r,
                raw_outcome(self.settings(), width, height, planes@, opt_seq(alpha), color_pixel_range, bit_depth),
                width as u32,
                height as u32,
                bit_depth,
                self.exif(),
            ),
            valid_depth(bit_depth as int) && 1 <= width <= MAX_SIDE && 1 <= height <= MAX_SIDE && (
            planes.len() < width * height || (alpha matches Some(a) && a.len() < width * height))
                ==> r == Err::<EncodedImage, Error>(Error::TooFewPixels),
    {
        proof {
            use_type_invariant(self);
        }
        if bit_depth != 8 && bit_depth != 10 && bit_depth != 12 {
            return Err(Error::UnsupportedBitDepth);
        }
        if width < 1 || width > MAX_SIDE || height < 1 || height > MAX_SIDE {
            return Err(Error::InvalidConfig);
        }
        assert(width * height <= MAX_SIDE * MAX_SIDE) by (nonlinear_arith)
            requires
                width <= MAX_SIDE,
                height <= MAX_SIDE,
        ;
        assert(width * height >= 1) by (nonlinear_arith)
            requires
                width >= 1,
                height >= 1,
        ;
        if (width as u64) * (height as u64) > (usize::MAX / 6) as u64 {
            if planes.len() < width * height {
                return Err(Error::TooFewPixels);
            }
            if let Some(a) = alpha {
                if a.len() < width * height {
                    return Err(Error::TooFewPixels);
                }
            }
            // No memory holds planes this large.
            return Err(Error::InvalidConfig);
        }
        let n = width * height;
        if planes.len() < n {
            return Err(Error::TooFewPixels);
        }
        if let Some(a) = alpha {
            if a.len() < n {
                return Err(Error::TooFewPixels);
            }
        }
        if !check_samples(planes, alpha, n, bit_depth) {
            return Err(Error::SampleOutOfRange);
        }
        let color_cfg = Av1EncodeConfig {
            width,
            height,
            bit_depth: bit_depth as usize,
            quantizer: self.quantizer as usize,
            speed: SpeedTweaks::from_my_preset(self.speed, self.quantizer),
            threads: self.threads,
            pixel_range: color_pixel_range,
            chroma_sampling: ChromaSampling::Cs444,
            color_description: Some(srgb_bt601()),
        };
        let ghost s = self.settings();
        assert(color_cfg == color_config(s, width, height, color_pixel_range, bit_depth));
        let color_planes = match init_frame_color(width, height, planes) {
            Ok(p) => p,
            Err(e) => {
                return Err(e);
            },
        };
        assert(planes_view(color_planes@) =~= color_bytes(planes@, n as int));
        let color = match encode_to_av1(&color_cfg, &color_planes) {
            Ok(c) => c,
            Err(e) => {
                return Err(e);
            },
        };
        let alpha_payload: Option<Vec<u8>> = match alpha {
            None => None,
            Some(a) => {
                let alpha_cfg = Av1EncodeConfig {
                    width,
                    height,
                    bit_depth: bit_depth as usize,
                    quantizer: self.alpha_quantizer as usize,
                    speed: SpeedTweaks::from_my_preset(self.speed, self.alpha_quantizer),
                    threads: self.threads,
                    pixel_range: PixelRange::Full,
                    chroma_sampling: ChromaSampling::Cs400,
                    color_description: None,
                };
                assert(alpha_cfg == alpha_config(s, width, height, bit_depth));
                let alpha_plane = match init_frame_alpha_pix(width, height, a) {
                    Ok(p) => p,
                    Err(e) => {
                        return Err(e);
                    },
                };
                assert(planes_view(alpha_plane@) =~= seq![le_bytes(a@, n as int)]);
                match encode_to_av1(&alpha_cfg, &alpha_plane) {
                    Ok(c) => Some(c),
                    Err(e) => {
                        return Err(e);
                    },
                }
            },
        };
        let exif = match &self.exif {
            Some(x) => Some(x.clone()),
            None => None,
        };
        let ghost color_view = color@;
        let ghost alpha_view = opt_view(alpha_payload);
        let img = package(color, alpha_payload, width as u32, height as u32, bit_depth, exif);
        assert(packaged(
            img,
            color_view,
            alpha_view,
            width as u32,
            height as u32,
            bit_depth,
            self.exif(),
        ));
        Ok(img)
    }

    /// Encodes 8-bit planar `[Y, Cb, Cr]` samples and optional alpha at
    /// 8 bits; see `encode_raw_planes`.
    pub fn encode_raw_planes_8_bit(
        &self,
        width: usize,
        height: usize,
        planes: &Vec<[u8; 3]>,
        alpha: Option<&Vec<u8>>,
        color_pixel_range: PixelRange,
    ) -> (r: Result<EncodedImage, Error>)
        ensures
            outcome_matches(
                r,
                raw_outcome(
                    self.settings(),
                    width,
                    height,
                    widen_planes(planes@),
                    widen_alpha(alpha),
                    color_pixel_range,
                    8,
                ),
                width as u32,
                height as u32,
                8,
                self.exif(),
            ),
            1 <= width <= MAX_SIDE && 1 <= height <= MAX_SIDE && (planes.len() < width * height
                || (alpha matches Some(a) && a.len() < width * height)) ==> r == Err::<
                EncodedImage,
                Error,
            >(Error::TooFewPixels),
    {
        let mut wide: Vec<[u16; 3]> = Vec::with_capacity(planes.len());
        let mut i: usize = 0;
        while i < planes.len()
            invariant
                i <= planes.len(),
                wide@ == widen_planes(planes@.take(i as int)),
            decreases planes.len() - i,
        {
            let p = planes[i];
            wide.push([p[0] as u16, p[1] as u16, p[2] as u16]);
            i = i + 1;
            assert(wide@ =~= widen_planes(planes@.take(i as int)));
        }
        assert(planes@.take(i as int) =~= planes@);
        match alpha {
            None => self.encode_raw_planes(width, height, &wide, None, color_pixel_range, 8),
            Some(a) => {
                let mut wide_alpha: Vec<u16> = Vec::with_capacity(a.len());
                let mut i: usize = 0;
                while i < a.len()
                    invariant
                        i <= a.len(),
                        wide_alpha@ == a@.take(i as int).map_values(|x: u8| x as u16),
                    decreases a.len() - i,
                {
                    wide_alpha.push(a[i] as u16);
                    i = i + 1;
                    assert(wide_alpha@ =~= a@.take(i as int).map_values(|x: u8| x as u16));
                }
                assert(a@.take(i as int) =~= a@);
                assert(opt_seq(Some(&wide_alpha)) == widen_alpha(alpha));
                self.encode_raw_planes(
                    width,
                    height,
                    &wide,
                    Some(&wide_alpha),
                    color_pixel_range,
                    8,
                )
            },
        }
    }

    /// Encodes 10-bit planar `[Y, Cb, Cr]` samples (`0..=1023`) and
    /// optional alpha at 10 bits; see `encode_raw_planes`.
    pub fn encode_raw_planes_10_bit(
        &self,
        width: usize,
        height: usize,
        planes: &Vec<[u16; 3]>,
        alpha: Option<&Vec<u16>>,
        color_pixel_range: PixelRange,
    ) -> (r: Result<EncodedImage, Error>)
        ensures
            outcome_matches(
                r,
                raw_outcome(self.settings(), width, height, planes@, opt_seq(alpha), color_pixel_range, 10),
                width as u32,
                height as u32,
                10,
                self.exif(),
            ),
            1 <= width <= MAX_SIDE && 1 <= height <= MAX_SIDE && (planes.len() < width * height
                || (alpha matches Some(a) && a.len() < width * height)) ==> r == Err::<
                EncodedImage,
                Error,
            >(Error::TooFewPixels),
    {
        self.encode_raw_planes(width, height, planes, alpha, color_pixel_range, 10)
    }
}

/// 8-bit samples widened to 16 bits.
pub open spec fn widen_planes(p: Seq<[u8; 3]>) -> Seq<[u16; 3]> {
    p.map_values(|x: [u8; 3]| [x[0] as u16, x[1] as u16, x[2] as u16])
}

pub open spec fn widen_alpha(a: Option<&Vec<u8>>) -> Option<Seq<u16>> {
    match a {
        Some(v) => Some(v@.map_values(|x: u8| x as u16)),
        None => None,
    }
}

/// `[Y, Cb, Cr]` samples of RGB pixels at `depth` bits.
fn rgb_planes(pixels: &Vec<Rgb8>, depth: u8) -> (r: Vec<[u16; 3]>)
    requires
        valid_depth(depth as int),
    ensures
        r@ == ycbcr_samples(pixels@, depth as int),
{
    let mut out: Vec<[u16; 3]> = Vec::with_capacity(pixels.len());
    let mut i: usize = 0;
    while i < pixels.len()
        invariant
            valid_depth(depth as int),
            i <= pixels.len(),
            out@ == ycbcr_samples(pixels@.take(i as int), depth as int),
        decreases pixels.len() - i,
    {
        out.push(rgb_to_ycbcr(pixels[i], depth));
        i = i + 1;
        assert(out@ =~= ycbcr_samples(pixels@.take(i as int), depth as int));
    }
    assert(pixels@.take(i as int) =~= pixels@);
    out
}

/// The color part of RGBA pixels.
fn strip(pixels: &Vec<Rgba8>) -> (r: Vec<Rgb8>)
    ensures
        r@ == strip_alpha(pixels@),
{
    let mut out: Vec<Rgb8> = Vec::with_capacity(pixels.len());
    let mut i: usize = 0;
    while i < pixels.len()
        invariant
            i <= pixels.len(),
            out@ == strip_alpha(pixels@.take(i as int)),
        decreases pixels.len() - i,
    {
        out.push(pixels[i].rgb());
        i = i + 1;
        assert(out@ =~= strip_alpha(pixels@.take(i as int)));
    }
    assert(pixels@.take(i as int) =~= pixels@);
    out
}

/// The alpha samples of RGBA pixels.
fn alpha_plane(pixels: &Vec<Rgba8>) -> (r: Vec<u16>)
    ensures
        r@ == alpha_samples(pixels@),
{
    let mut out: Vec<u16> = Vec::with_capacity(pixels.len());
    let mut i: usize = 0;
    while i < pixels.len()
        invariant
            i <= pixels.len(),
            out@ == alpha_samples(pixels@.take(i as int)),
        decreases pixels.len() - i,
    {
        out.push(pixels[i].a as u16);
        i = i + 1;
        assert(out@ =~= alpha_samples(pixels@.take(i as int)));
    }
    assert(pixels@.take(i as int) =~= pixels@);
    out
}

impl Encoder {
    /// Encodes an image. An image whose source had no alpha channel, or
    /// whose alpha is opaque everywhere, is encoded from its color alone
    /// with no alpha plane; any other gets an alpha plane too.
    ///
    /// Fails with `ImageTooNarrow` below `MIN_WIDTH` pixels of width, and
    /// otherwise as `encode_raw_planes` does.
    pub fn encode(&self, image: &SourceBitmap) -> (r: Result<EncodedImage, Error>)
        ensures
            outcome_matches(
                r,
                encode_outcome(self.settings(), *image),
                image.width as u32,
                image.height as u32,
                self.bit_depth(),
                self.exif(),
            ),
            image.width < MIN_WIDTH ==> r == Err::<EncodedImage, Error>(Error::ImageTooNarrow),
            MIN_WIDTH <= image.width <= MAX_SIDE && 1 <= image.height <= MAX_SIDE
                && image.pixels.len() < image.width * image.height ==> r == Err::<
                EncodedImage,
                Error,
            >(Error::TooFewPixels),
            r matches Ok(img) ==> (!keeps_alpha(*image) ==> img.alpha_byte_size == 0),
    {
        proof {
            use_type_invariant(self);
        }
        if image.width < MIN_WIDTH {
            return Err(Error::ImageTooNarrow);
        }
        if image.has_alpha && !is_opaque(image.pixels.as_slice()) {
            self.encode_rgba(image.width, image.height, &image.pixels)
        } else {
            let rgb = strip(&image.pixels);
            self.encode_rgb(image.width, image.height, &rgb)
        }
    }

    /// Encodes straight-alpha RGBA pixels with an alpha plane.
    fn encode_rgba(&self, width: usize, height: usize, pixels: &Vec<Rgba8>) -> (r: Result<
        EncodedImage,
        Error,
    >)
        ensures
            outcome_matches(
                r,
                rgba_outcome(self.settings(), width, height, pixels@),
                width as u32,
                height as u32,
                self.bit_depth(),
                self.exif(),
            ),
            1 <= width <= MAX_SIDE && 1 <= height <= MAX_SIDE && pixels.len() < width * height
                ==> r == Err::<EncodedImage, Error>(Error::TooFewPixels),
    {
        proof {
            use_type_invariant(self);
        }
        let rgb = strip(pixels);
        let planes = rgb_planes(&rgb, self.bit_depth);
        let alpha = alpha_plane(pixels);
        self.encode_raw_planes(
            width,
            height,
            &planes,
            Some(&alpha),
            PixelRange::Full,
            self.bit_depth,
        )
    }

    /// Encodes RGB pixels, with no alpha plane.
    ///
    /// Fails with `ImageTooNarrow` below `MIN_WIDTH` pixels of width, and
    /// otherwise as `encode_raw_planes` does.
    pub fn encode_rgb(&self, width: usize, height: usize, pixels: &Vec<Rgb8>) -> (r: Result<
        EncodedImage,
        Error,
    >)
        ensures
            outcome_matches(
                r,
                rgb_outcome(self.settings(), width, height, pixels@),
                width as u32,
                height as u32,
                self.bit_depth(),
                self.exif(),
            ),
            width < MIN_WIDTH ==> r == Err::<EncodedImage, Error>(Error::ImageTooNarrow),
            MIN_WIDTH <= width <= MAX_SIDE && 1 <= height <= MAX_SIDE && pixels.len() < width
                * height ==> r == Err::<EncodedImage, Error>(Error::TooFewPixels),
            r matches Ok(img) ==> img.alpha_byte_size == 0,
    {
        proof {
            use_type_invariant(self);
        }
        if width < MIN_WIDTH {
            return Err(Error::ImageTooNarrow);
        }
        let planes = rgb_planes(pixels, self.bit_depth);
        self.encode_raw_planes(width, height, &planes, None, PixelRange::Full, self.bit_depth)
    }
}

/// The settings `convert_bitmap` encodes with.
pub open spec fn conversion_settings(
    quality: u8,
    speed: u8,
    threads: usize,
    depth: u8,
    exif: Seq<u8>,
) -> EncoderSettings {
    EncoderSettings {
        quantizer: spec_quantizer(quality as int) as u8,
        alpha_quantizer: spec_quantizer(quality as int) as u8,
        speed,
        threads,
        bit_depth: depth,
        exif: if exif.len() > 0 {
            Some(exif)
        } else {
            None
        },
    }
}

/// Encodes `image` for a conversion run: `quality` for color and alpha,
/// `speed`, `threads` codec threads, `depth` bits, and the Exif block
/// unless it is empty.
pub fn convert_bitmap(
    image: &SourceBitmap,
    quality: u8,
    speed: u8,
    threads: usize,
    depth: u8,
    exif: Vec<u8>,
) -> (r: Result<EncodedImage, Error>)
    ensures
        !(1 <= quality <= 100) ==> r == Err::<EncodedImage, Error>(Error::QualityOutOfRange),
        1 <= quality <= 100 && !(1 <= speed <= 10) ==> r == Err::<EncodedImage, Error>(
            Error::SpeedOutOfRange,
        ),
        1 <= quality <= 100 && 1 <= speed <= 10 && !valid_depth(depth as int) ==> r == Err::<
            EncodedImage,
            Error,
        >(Error::UnsupportedBitDepth),
        1 <= quality <= 100 && 1 <= speed <= 10 && valid_depth(depth as int) ==> outcome_matches(
            r,
            encode_outcome(conversion_settings(quality, speed, threads, depth, exif@), *image),
            image.width as u32,
            image.height as u32,
            depth,
            conversion_settings(quality, speed, threads, depth, exif@).exif,
        ),
{
    let ghost exif_view = exif@;
    let enc = Encoder::new().with_num_threads(threads);
    let enc = match enc.with_alpha_quality(quality) {
        Ok(e) => e,
        Err(e) => {
            return Err(e);
        },
    };
    let enc = match enc.with_quality(quality) {
        Ok(e) => e,
        Err(e) => {
            return Err(e);
        },
    };
    let enc = match enc.with_speed(speed) {
        Ok(e) => e,
        Err(e) => {
            return Err(e);
        },
    };
    let enc = match enc.with_bit_depth(depth) {
        Ok(e) => e,
        Err(e) => {
            return Err(e);
        },
    };
    let enc = if exif.len() > 0 {
        enc.with_exif_data(exif)
    } else {
        enc
    };
    assert(enc.settings() == conversion_settings(quality, speed, threads, depth, exif_view));
    enc.encode(image)
}

/// Opaque fast path: encoding an RGBA image whose alpha is opaque
/// everywhere gives the same result as encoding its RGB pixels with the
/// same encoder: the same error, or files with the same bytes, the same
/// color payload size and no alpha payload. `from_rgba` and `from_rgb` are
/// any results that `encode(image)` and `encode_rgb` on the stripped pixels
/// may return, as their contracts describe them.
pub proof fn lemma_opaque_fast_path(
    enc: Encoder,
    image: SourceBitmap,
    from_rgba: Result<EncodedImage, Error>,
    from_rgb: Result<EncodedImage, Error>,
)
    requires
        image.has_alpha,
        all_opaque(image.pixels@),
        outcome_matches(
            from_rgba,
            encode_outcome(enc.settings(), image),
            image.width as u32,
            image.height as u32,
            enc.bit_depth(),
            enc.exif(),
        ),
        outcome_matches(
            from_rgb,
            rgb_outcome(enc.settings(), image.width, image.height, strip_alpha(image.pixels@)),
            image.width as u32,
            image.height as u32,
            enc.bit_depth(),
            enc.exif(),
        ),
    ensures
        same_result(from_rgba, from_rgb),
        from_rgba matches Ok(img) ==> img.alpha_byte_size == 0,
{
    let o = rgb_outcome(enc.settings(), image.width, image.height, strip_alpha(image.pixels@));
    assert(encode_outcome(enc.settings(), image) == o);
    lemma_outcome_determines_result(
        from_rgba,
        from_rgb,
        o,
        image.width as u32,
        image.height as u32,
        enc.bit_depth(),
        enc.exif(),
    );
}

} // verus!

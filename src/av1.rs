//! Drives rav1e to encode one still picture: builds its configuration,
//! feeds it the plane samples and collects the key-frame payload.

use vstd::prelude::*;

use rav1e::prelude::{
    ChromaSamplePosition, ChromaSampling, ColorDescription, EncoderConfig, EncoderStatus,
    FrameType, MatrixCoefficients, PixelRange, Rational, Tune,
};
use rav1e::Config;

use crate::error::{CodecStatus, Error};
use crate::speed::{
    lemma_speed_settings_unique, spec_speed_settings, valid_partition_range, SpeedTweaks,
};

verus! {

#[verifier::external_type_specification]
pub struct ExFrameType(FrameType);

#[verifier::external_type_specification]
pub struct ExEncoderStatus(EncoderStatus);

/// How one run of rav1e on a single frame ended.
pub enum Av1Outcome {
    /// `new_context` refused the configuration.
    Refused,
    /// `send_frame` refused the frame, with its status.
    NotSent(EncoderStatus),
    /// The packets `receive_packet` returned after the end of stream (frame
    /// type and data), and the status that ended them.
    Drained(Vec<(FrameType, Vec<u8>)>, EncoderStatus),
}

/// `Av1Outcome` with its vectors as sequences.
pub enum Av1Run {
    Refused,
    NotSent(EncoderStatus),
    Drained(Seq<(FrameType, Seq<u8>)>, EncoderStatus),
}

pub open spec fn run_view(o: Av1Outcome) -> Av1Run {
    match o {
        Av1Outcome::Refused => Av1Run::Refused,
        Av1Outcome::NotSent(e) => Av1Run::NotSent(e),
        Av1Outcome::Drained(ps, st) => Av1Run::Drained(
            ps@.map_values(|p: (FrameType, Vec<u8>)| (p.0, p.1@)),
            st,
        ),
    }
}

pub open spec fn planes_view(planes: Seq<Vec<u8>>) -> Seq<Seq<u8>> {
    planes.map_values(|v: Vec<u8>| v@)
}

/// How rav1e's run on one frame ends for an encoder configuration, a
/// thread count, and plane rows of `stride` bytes of little-endian 16-bit
/// samples. rav1e's output depends on these alone.
pub uninterp spec fn av1_run_of(
    config: EncoderConfig,
    threads: usize,
    planes: Seq<Seq<u8>>,
    stride: usize,
) -> Av1Run;

/// A still-picture configuration that rav1e's `Config::validate` accepts:
/// sides in `1..=65535`, unit aspect ratio and time base, lookahead of at
/// least one frame, no key-frame interval, automatic tile layout, no
/// reservoir, no switch frames, no timing info, no level, and a color
/// description that is not an sRGB triple (whose matrix is Identity).
pub open spec fn still_config_accepted(c: EncoderConfig) -> bool {
    &&& c.still_picture
    &&& 1 <= c.width <= 65535
    &&& 1 <= c.height <= 65535
    &&& c.sample_aspect_ratio.num == 1 && c.sample_aspect_ratio.den == 1
    &&& c.time_base.num == 1 && c.time_base.den == 1
    &&& 1 <= c.speed_settings.rdo_lookahead_frames <= 40
    &&& c.max_key_frame_interval == 0
    &&& c.tile_cols == 0 && c.tile_rows == 0
    &&& c.reservoir_frame_delay is None
    &&& c.switch_frame_interval == 0
    &&& !c.enable_timing_info
    &&& c.level_idx is None
    &&& (c.color_description matches Some(d) ==> d.matrix_coefficients
        != MatrixCoefficients::Identity)
}

/// Relies on rav1e: `Config::new().with_encoder_config(..).with_threads(..)`
/// and `new_context` (which asserts the depth fits 16-bit storage, and whose
/// quantizer tables exist for depths 8, 10 and 12 only; it refuses what
/// `validate` rejects), `new_frame`, v_frame's `copy_from_raw_u8` for each
/// plane given, `send_frame`, `flush`, then `receive_packet` until it
/// returns a status. A new frame's planes are padded, so their strides are
/// never 0.
#[verifier::external_body]
fn av1_encode(
    enc: EncoderConfig,
    threads: usize,
    planes: &Vec<Vec<u8>>,
    stride: usize,
    bytewidth: usize,
) -> (r: Av1Outcome)
    requires
        enc.bit_depth == 8 || enc.bit_depth == 10 || enc.bit_depth == 12,
        stride > 0,
        bytewidth == 2,
    ensures
        run_view(r) == av1_run_of(enc, threads, planes_view(planes@), stride),
        still_config_accepted(enc) ==> !(r is Refused),
{
    let cfg = Config::new().with_encoder_config(enc).with_threads(threads);
    let Ok(mut ctx) = cfg.new_context::<u16>() else { return Av1Outcome::Refused };
    let mut frame = ctx.new_frame();
    for (plane, bytes) in frame.planes.iter_mut().zip(planes) {
        plane.copy_from_raw_u8(bytes, stride, bytewidth);
    }
    if let Err(e) = ctx.send_frame(frame) { return Av1Outcome::NotSent(e) }
    ctx.flush();
    let mut packets = Vec::new();
    loop {
        match ctx.receive_packet() {
            Ok(p) => packets.push((p.frame_type, p.data)),
            Err(e) => return Av1Outcome::Drained(packets, e),
        }
    }
}

/// The library's status for rav1e's.
pub open spec fn spec_codec_status(e: EncoderStatus) -> CodecStatus {
    match e {
        EncoderStatus::NeedMoreData => CodecStatus::NeedMoreData,
        EncoderStatus::EnoughData => CodecStatus::EnoughData,
        EncoderStatus::LimitReached => CodecStatus::LimitReached,
        EncoderStatus::Encoded => CodecStatus::Encoded,
        EncoderStatus::Failure => CodecStatus::Failure,
        EncoderStatus::NotReady => CodecStatus::NotReady,
    }
}

fn codec_status(e: EncoderStatus) -> (s: CodecStatus)
    ensures
        s == spec_codec_status(e),
{
    match e {
        EncoderStatus::NeedMoreData => CodecStatus::NeedMoreData,
        EncoderStatus::EnoughData => CodecStatus::EnoughData,
        EncoderStatus::LimitReached => CodecStatus::LimitReached,
        EncoderStatus::Encoded => CodecStatus::Encoded,
        EncoderStatus::Failure => CodecStatus::Failure,
        EncoderStatus::NotReady => CodecStatus::NotReady,
    }
}

/// Bytes per sample handed to rav1e (16-bit little-endian).
pub const SAMPLE_BYTES: usize = 2;

/// Parameters of one plane-set encode.
pub struct Av1EncodeConfig {
    pub width: usize,
    pub height: usize,
    pub bit_depth: usize,
    pub quantizer: usize,
    pub speed: SpeedTweaks,
    /// Worker threads; 0 lets rav1e use its global pool.
    pub threads: usize,
    pub pixel_range: PixelRange,
    pub chroma_sampling: ChromaSampling,
    pub color_description: Option<ColorDescription>,
}

pub open spec fn spec_tiles(threads: int, area: int, min_tile_size: int) -> int {
    let cap = area / (min_tile_size * min_tile_size);
    if threads < cap {
        threads
    } else {
        cap
    }
}

/// Number of tiles: as many as threads, but none smaller than
/// `min_tile_size` squared.
pub fn tile_count(threads: usize, width: usize, height: usize, min_tile_size: u16) -> (t: usize)
    requires
        min_tile_size > 0,
        width * height <= usize::MAX,
    ensures
        t == spec_tiles(threads as int, width * height, min_tile_size as int),
{
    let side = min_tile_size as usize;
    assert(side * side <= 65535 * 65535) by (nonlinear_arith)
        requires
            side <= 65535,
    ;
    assert(side * side > 0) by (nonlinear_arith)
        requires
            side > 0,
    ;
    let cap = (width * height) / (side * side);
    if threads < cap {
        threads
    } else {
        cap
    }
}

/// The configuration `encoder_config` builds.
pub open spec fn spec_encoder_config(p: Av1EncodeConfig) -> EncoderConfig {
    EncoderConfig {
        width: p.width,
        height: p.height,
        time_base: Rational { num: 1, den: 1 },
        sample_aspect_ratio: Rational { num: 1, den: 1 },
        bit_depth: p.bit_depth,
        chroma_sampling: p.chroma_sampling,
        chroma_sample_position: ChromaSamplePosition::Unknown,
        pixel_range: p.pixel_range,
        color_description: p.color_description,
        mastering_display: None,
        content_light: None,
        enable_timing_info: false,
        still_picture: true,
        error_resilient: false,
        switch_frame_interval: 0,
        min_key_frame_interval: 0,
        max_key_frame_interval: 0,
        reservoir_frame_delay: None,
        low_latency: false,
        quantizer: p.quantizer,
        min_quantizer: p.quantizer as u8,
        bitrate: 0,
        tune: Tune::Psychovisual,
        tile_cols: 0,
        tile_rows: 0,
        tiles: spec_tiles(p.threads as int, p.width * p.height, p.speed.min_tile_size as int) as usize,
        film_grain_params: None,
        level_idx: None,
        speed_settings: spec_speed_settings(p.speed),
    }
}

/// rav1e's encoder configuration for a still picture: key frames only,
/// unit time base and aspect ratio, fixed quantizer (also the minimum),
/// psychovisual tuning, no timing info, no film grain and the tile count
/// of `tile_count`.
pub fn encoder_config(p: &Av1EncodeConfig) -> (c: EncoderConfig)
    requires
        p.width * p.height <= usize::MAX,
        p.speed.min_tile_size > 0,
        p.quantizer <= 255,
        valid_partition_range(p.speed.partition_range),
    ensures
        c == spec_encoder_config(*p),
{
    let tiles = tile_count(p.threads, p.width, p.height, p.speed.min_tile_size);
    let speed_settings = p.speed.speed_settings();
    proof {
        lemma_speed_settings_unique(speed_settings, p.speed);
    }
    EncoderConfig {
        width: p.width,
        height: p.height,
        time_base: Rational { num: 1, den: 1 },
        sample_aspect_ratio: Rational { num: 1, den: 1 },
        bit_depth: p.bit_depth,
        chroma_sampling: p.chroma_sampling,
        chroma_sample_position: ChromaSamplePosition::Unknown,
        pixel_range: p.pixel_range,
        color_description: p.color_description,
        mastering_display: None,
        content_light: None,
        enable_timing_info: false,
        still_picture: true,
        error_resilient: false,
        switch_frame_interval: 0,
        min_key_frame_interval: 0,
        max_key_frame_interval: 0,
        reservoir_frame_delay: None,
        low_latency: false,
        quantizer: p.quantizer,
        min_quantizer: p.quantizer as u8,
        bitrate: 0,
        tune: Tune::Psychovisual,
        tile_cols: 0,
        tile_rows: 0,
        tiles,
        film_grain_params: None,
        level_idx: None,
        speed_settings,
    }
}

/// The concatenated data of the key-frame packets among `packets`.
pub open spec fn key_frame_data(packets: Seq<(FrameType, Seq<u8>)>) -> Seq<u8>
    decreases packets.len(),
{
    if packets.len() == 0 {
        Seq::empty()
    } else {
        key_frame_data(packets.drop_last()) + if packets.last().0 == FrameType::KEY {
            packets.last().1
        } else {
            Seq::empty()
        }
    }
}

/// What the packets and the status that ended them amount to: the key-frame
/// data when the frame was encoded to the end (`Encoded` or `LimitReached`),
/// else the status as an error.
pub open spec fn spec_collect(packets: Seq<(FrameType, Seq<u8>)>, status: EncoderStatus) -> Result<
    Seq<u8>,
    Error,
> {
    if status == EncoderStatus::Encoded || status == EncoderStatus::LimitReached {
        Ok(key_frame_data(packets))
    } else {
        Err(Error::Codec(spec_codec_status(status)))
    }
}

/// What a run of rav1e amounts to.
pub open spec fn spec_av1_result(run: Av1Run) -> Result<Seq<u8>, Error> {
    match run {
        Av1Run::Refused => Err(Error::InvalidConfig),
        Av1Run::NotSent(e) => Err(Error::Codec(spec_codec_status(e))),
        Av1Run::Drained(packets, status) => spec_collect(packets, status),
    }
}

pub open spec fn bytes_result(r: Result<Vec<u8>, Error>) -> Result<Seq<u8>, Error> {
    match r {
        Ok(v) => Ok(v@),
        Err(e) => Err(e),
    }
}

/// Concatenates the data of the key-frame packets, or returns the status
/// as an error.
pub fn collect_key_frames(packets: Vec<(FrameType, Vec<u8>)>, status: EncoderStatus) -> (r: Result<
    Vec<u8>,
    Error,
>)
    ensures
        bytes_result(r) == spec_collect(
            packets@.map_values(|p: (FrameType, Vec<u8>)| (p.0, p.1@)),
            status,
        ),
{
    let ghost ps = packets@.map_values(|p: (FrameType, Vec<u8>)| (p.0, p.1@));
    match status {
        EncoderStatus::Encoded | EncoderStatus::LimitReached => {},
        _ => {
            return Err(Error::Codec(codec_status(status)));
        },
    }
    let mut out: Vec<u8> = Vec::new();
    let mut i: usize = 0;
    while i < packets.len()
        invariant
            i <= packets.len(),
            ps == packets@.map_values(|p: (FrameType, Vec<u8>)| (p.0, p.1@)),
            out@ == key_frame_data(ps.take(i as int)),
        decreases packets.len() - i,
    {
        proof {
            assert(ps.take(i as int + 1).drop_last() =~= ps.take(i as int));
            assert(ps.take(i as int + 1).last() == ps[i as int]);
        }
        match &packets[i] {
            (FrameType::KEY, data) => {
                let mut k: usize = 0;
                while k < data.len()
                    invariant
                        k <= data.len(),
                        out@ == key_frame_data(ps.take(i as int)) + data@.subrange(0, k as int),
                    decreases data.len() - k,
                {
                    out.push(data[k]);
                    k = k + 1;
                    assert(out@ =~= key_frame_data(ps.take(i as int)) + data@.subrange(0, k as int));
                }
                assert(data@.subrange(0, k as int) =~= data@);
            },
            _ => {
                assert(out@ =~= key_frame_data(ps.take(i as int + 1)));
            },
        }
        i = i + 1;
    }
    assert(ps.take(i as int) =~= ps);
    Ok(out)
}

/// Encodes one frame whose planes hold `planes` (little-endian 16-bit
/// samples, rows of `width` samples) with rav1e, and returns the data of
/// its key-frame packets or the error the run ended with.
pub fn encode_to_av1(p: &Av1EncodeConfig, planes: &Vec<Vec<u8>>) -> (r: Result<Vec<u8>, Error>)
    requires
        p.width * p.height <= usize::MAX,
        p.width > 0,
        p.width * 2 <= usize::MAX,
        p.speed.min_tile_size > 0,
        p.quantizer <= 255,
        p.bit_depth == 8 || p.bit_depth == 10 || p.bit_depth == 12,
        valid_partition_range(p.speed.partition_range),
    ensures
        bytes_result(r) == spec_av1_result(
            av1_run_of(spec_encoder_config(*p), p.threads, planes_view(planes@), (p.width * 2) as usize),
        ),
        still_config_accepted(spec_encoder_config(*p)) ==> r != Err::<Vec<u8>, Error>(
            Error::InvalidConfig,
        ),
{
    let enc = encoder_config(p);
    match av1_encode(enc, p.threads, planes, p.width * SAMPLE_BYTES, SAMPLE_BYTES) {
        Av1Outcome::Refused => Err(Error::InvalidConfig),
        Av1Outcome::NotSent(e) => Err(Error::Codec(codec_status(e))),
        Av1Outcome::Drained(packets, status) => collect_key_frames(packets, status),
    }
}

} // verus!

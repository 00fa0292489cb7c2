//! The speed/quality decision table: from the speed dial (0 to 10) and the
//! quantizer it derives the encoder's feature toggles, and maps them onto
//! rav1e's speed settings.

use vstd::prelude::*;

use rav1e::config::SpeedSettings;
use rav1e::prelude::{
    BlockSize, MotionSpeedSettings, PartitionRange, PartitionSpeedSettings,
    PredictionModesSetting, PredictionSpeedSettings, SGRComplexityLevel, SceneDetectionSpeed,
    TransformSpeedSettings,
};

use crate::quality::{quality_to_quantizer, spec_quantizer};
use crate::rav1e_types::{partition_range_of, preset_settings, square_side};

verus! {

/// Feature toggles derived from the speed dial and the quantizer. `None`
/// leaves the preset's own choice in place.
#[derive(Debug, Copy, Clone)]
pub struct SpeedTweaks {
    pub speed_preset: u8,
    pub fast_deblock: Option<bool>,
    pub reduced_tx_set: Option<bool>,
    pub tx_domain_distortion: Option<bool>,
    pub tx_domain_rate: Option<bool>,
    pub encode_bottomup: Option<bool>,
    pub rdo_tx_decision: Option<bool>,
    pub cdef: Option<bool>,
    /// Loop restoration filter.
    pub lrf: Option<bool>,
    pub sgr_complexity_full: Option<bool>,
    pub use_satd_subpel: Option<bool>,
    pub inter_tx_split: Option<bool>,
    pub fine_directional_intra: Option<bool>,
    pub complex_prediction_modes: Option<bool>,
    /// Smallest and largest partition side, in pixels.
    pub partition_range: Option<(u8, u8)>,
    pub min_tile_size: u16,
}

/// A quantizer below that of quality 55: loop restoration and CDEF pay off.
pub open spec fn low_quality(quantizer: int) -> bool {
    quantizer < spec_quantizer(55)
}

/// A quantizer above that of quality 80: large blocks are avoided.
pub open spec fn high_quality(quantizer: int) -> bool {
    quantizer > spec_quantizer(80)
}

pub open spec fn min_int(a: int, b: int) -> int {
    if a < b {
        a
    } else {
        b
    }
}

/// Smallest and largest partition side for a speed and quantizer.
pub open spec fn spec_partition_range(speed: int, quantizer: int) -> (int, int) {
    let max_block = if high_quality(quantizer) {
        16
    } else {
        64
    };
    if speed == 0 {
        (4, min_int(64, max_block))
    } else if speed == 1 && low_quality(quantizer) {
        (4, min_int(64, max_block))
    } else if speed == 2 && low_quality(quantizer) {
        (4, min_int(32, max_block))
    } else if 1 <= speed <= 4 {
        (4, 16)
    } else if 5 <= speed <= 8 {
        (8, 16)
    } else {
        (16, 16)
    }
}

/// Minimum tile side: halves with each speed step from 4096 down to 128,
/// doubled under a high-quality quantizer.
pub open spec fn spec_min_tile_size(speed: int, quantizer: int) -> int {
    let base: int = if speed == 0 {
        4096
    } else if speed == 1 {
        2048
    } else if speed == 2 {
        1024
    } else if speed == 3 {
        512
    } else if speed == 4 {
        256
    } else {
        128
    };
    if high_quality(quantizer) {
        base * 2
    } else {
        base
    }
}

/// The decision table.
pub open spec fn spec_speed_tweaks(speed: u8, quantizer: u8) -> SpeedTweaks {
    let low = low_quality(quantizer as int);
    let high = high_quality(quantizer as int);
    let range = spec_partition_range(speed as int, quantizer as int);
    SpeedTweaks {
        speed_preset: speed,
        partition_range: Some((range.0 as u8, range.1 as u8)),
        complex_prediction_modes: Some(speed <= 1),
        sgr_complexity_full: Some(speed <= 2),
        encode_bottomup: Some(speed <= 2),
        rdo_tx_decision: Some(speed <= 4 && !high),
        reduced_tx_set: Some(speed == 4 || speed >= 9),
        fine_directional_intra: Some(speed <= 6),
        fast_deblock: Some(speed >= 7 && !high),
        lrf: Some(low && speed <= 8),
        cdef: Some(low && speed <= 9),
        inter_tx_split: Some(speed >= 9),
        tx_domain_rate: Some(speed >= 10),
        tx_domain_distortion: None,
        use_satd_subpel: Some(false),
        min_tile_size: spec_min_tile_size(speed as int, quantizer as int) as u16,
    }
}

/// A partition side that names a square block size.
pub open spec fn valid_side(side: int) -> bool {
    side == 4 || side == 8 || side == 16 || side == 32 || side == 64 || side == 128
}

/// Partition range usable by `SpeedTweaks::speed_settings`.
pub open spec fn valid_partition_range(range: Option<(u8, u8)>) -> bool {
    match range {
        Some((lo, hi)) => valid_side(lo as int) && valid_side(hi as int) && lo <= hi,
        None => true,
    }
}

/// The square block size with side `side` (128 for sides not listed).
pub open spec fn spec_block_size(side: int) -> BlockSize {
    if side == 4 {
        BlockSize::BLOCK_4X4
    } else if side == 8 {
        BlockSize::BLOCK_8X8
    } else if side == 16 {
        BlockSize::BLOCK_16X16
    } else if side == 32 {
        BlockSize::BLOCK_32X32
    } else if side == 64 {
        BlockSize::BLOCK_64X64
    } else {
        BlockSize::BLOCK_128X128
    }
}

/// The value of a toggle if it is set, else `current`.
pub open spec fn toggled(toggle: Option<bool>, current: bool) -> bool {
    match toggle {
        Some(v) => v,
        None => current,
    }
}

pub open spec fn sgr_toggled(full: Option<bool>, current: SGRComplexityLevel) -> SGRComplexityLevel {
    match full {
        Some(true) => SGRComplexityLevel::Full,
        Some(false) => SGRComplexityLevel::Reduced,
        None => current,
    }
}

pub open spec fn prediction_toggled(
    complex: Option<bool>,
    current: PredictionModesSetting,
) -> PredictionModesSetting {
    match complex {
        Some(true) => PredictionModesSetting::ComplexAll,
        Some(false) => PredictionModesSetting::Simple,
        None => current,
    }
}

/// The settings of preset `speed`.
pub open spec fn spec_preset(speed: u8) -> SpeedSettings {
    choose|d: SpeedSettings| preset_settings(d, speed)
}

/// `s` is the preset `d` with a single reference frame, one frame of
/// lookahead, no scene detection, no near motion vectors, and each toggle
/// of `t` that is set applied.
pub open spec fn tweaked_settings(s: SpeedSettings, d: SpeedSettings, t: SpeedTweaks) -> bool {
    &&& !s.multiref
    &&& s.rdo_lookahead_frames == 1
    &&& s.scene_detection_mode == SceneDetectionSpeed::None
    &&& !s.motion.include_near_mvs
    &&& s.fast_deblock == toggled(t.fast_deblock, d.fast_deblock)
    &&& s.transform.reduced_tx_set == toggled(t.reduced_tx_set, d.transform.reduced_tx_set)
    &&& s.transform.tx_domain_distortion == toggled(
        t.tx_domain_distortion,
        d.transform.tx_domain_distortion,
    )
    &&& s.transform.tx_domain_rate == toggled(t.tx_domain_rate, d.transform.tx_domain_rate)
    &&& s.partition.encode_bottomup == toggled(t.encode_bottomup, d.partition.encode_bottomup)
    &&& s.transform.rdo_tx_decision == toggled(t.rdo_tx_decision, d.transform.rdo_tx_decision)
    &&& s.cdef == toggled(t.cdef, d.cdef)
    &&& s.lrf == toggled(t.lrf, d.lrf)
    &&& s.transform.enable_inter_tx_split == toggled(
        t.inter_tx_split,
        d.transform.enable_inter_tx_split,
    )
    &&& s.sgr_complexity == sgr_toggled(t.sgr_complexity_full, d.sgr_complexity)
    &&& s.motion.use_satd_subpel == toggled(t.use_satd_subpel, d.motion.use_satd_subpel)
    &&& s.prediction.fine_directional_intra == toggled(
        t.fine_directional_intra,
        d.prediction.fine_directional_intra,
    )
    &&& s.prediction.prediction_modes == prediction_toggled(
        t.complex_prediction_modes,
        d.prediction.prediction_modes,
    )
    &&& s.partition.partition_range == match t.partition_range {
        Some((lo, hi)) => partition_range_of(spec_block_size(lo as int), spec_block_size(hi as int)),
        None => d.partition.partition_range,
    }
    &&& s.lru_on_skip == d.lru_on_skip
    &&& s.segmentation == d.segmentation
    &&& s.partition.non_square_partition_max_threshold
        == d.partition.non_square_partition_max_threshold
    &&& s.motion.me_allow_full_search == d.motion.me_allow_full_search
}

/// The settings `SpeedTweaks::speed_settings` gives for `t`.
pub open spec fn spec_speed_settings(t: SpeedTweaks) -> SpeedSettings {
    choose|s: SpeedSettings| tweaked_settings(s, spec_preset(t.speed_preset), t)
}

/// Settings that agree field by field are equal.
proof fn lemma_settings_ext(a: SpeedSettings, b: SpeedSettings)
    requires
        a.multiref == b.multiref,
        a.fast_deblock == b.fast_deblock,
        a.rdo_lookahead_frames == b.rdo_lookahead_frames,
        a.scene_detection_mode == b.scene_detection_mode,
        a.cdef == b.cdef,
        a.lrf == b.lrf,
        a.lru_on_skip == b.lru_on_skip,
        a.sgr_complexity == b.sgr_complexity,
        a.segmentation == b.segmentation,
        a.partition.encode_bottomup == b.partition.encode_bottomup,
        a.partition.non_square_partition_max_threshold
            == b.partition.non_square_partition_max_threshold,
        a.partition.partition_range == b.partition.partition_range,
        a.transform.reduced_tx_set == b.transform.reduced_tx_set,
        a.transform.tx_domain_distortion == b.transform.tx_domain_distortion,
        a.transform.tx_domain_rate == b.transform.tx_domain_rate,
        a.transform.rdo_tx_decision == b.transform.rdo_tx_decision,
        a.transform.enable_inter_tx_split == b.transform.enable_inter_tx_split,
        a.prediction.prediction_modes == b.prediction.prediction_modes,
        a.prediction.fine_directional_intra == b.prediction.fine_directional_intra,
        a.motion.use_satd_subpel == b.motion.use_satd_subpel,
        a.motion.include_near_mvs == b.motion.include_near_mvs,
        a.motion.me_allow_full_search == b.motion.me_allow_full_search,
    ensures
        a == b,
{
    assert(a.partition == b.partition);
    assert(a.transform == b.transform);
    assert(a.prediction == b.prediction);
    assert(a.motion == b.motion);
}

/// The square block size with side `side`.
pub fn block_size(side: u8) -> (b: BlockSize)
    requires
        valid_side(side as int),
    ensures
        square_side(b) == side,
        b == spec_block_size(side as int),
{
    if side == 4 {
        BlockSize::BLOCK_4X4
    } else if side == 8 {
        BlockSize::BLOCK_8X8
    } else if side == 16 {
        BlockSize::BLOCK_16X16
    } else if side == 32 {
        BlockSize::BLOCK_32X32
    } else if side == 64 {
        BlockSize::BLOCK_64X64
    } else {
        BlockSize::BLOCK_128X128
    }
}

/// The toggle's value if it is set, else `current`.
fn or_keep(toggle: Option<bool>, current: bool) -> (r: bool)
    ensures
        r == match toggle {
            Some(v) => v,
            None => current,
        },
{
    match toggle {
        Some(v) => v,
        None => current,
    }
}

/// Full or reduced self-guided restoration search if the toggle is set,
/// else `current`.
fn sgr_complexity_or_keep(full: Option<bool>, current: SGRComplexityLevel) -> (r:
    SGRComplexityLevel)
    ensures
        r == match full {
            Some(true) => SGRComplexityLevel::Full,
            Some(false) => SGRComplexityLevel::Reduced,
            None => current,
        },
{
    match full {
        Some(true) => SGRComplexityLevel::Full,
        Some(false) => SGRComplexityLevel::Reduced,
        None => current,
    }
}

/// All prediction modes or the simple ones if the toggle is set, else
/// `current`.
fn prediction_modes_or_keep(complex: Option<bool>, current: PredictionModesSetting) -> (r:
    PredictionModesSetting)
    ensures
        r == match complex {
            Some(true) => PredictionModesSetting::ComplexAll,
            Some(false) => PredictionModesSetting::Simple,
            None => current,
        },
{
    match complex {
        Some(true) => PredictionModesSetting::ComplexAll,
        Some(false) => PredictionModesSetting::Simple,
        None => current,
    }
}

impl SpeedTweaks {
    /// Derives the toggles for `speed` (`0..=10`) and `quantizer`.
    pub fn from_my_preset(speed: u8, quantizer: u8) -> (t: Self)
        requires
            speed <= 10,
        ensures
            t == spec_speed_tweaks(speed, quantizer),
            valid_partition_range(t.partition_range),
    {
        let q55 = quality_to_quantizer(55);
        let q80 = quality_to_quantizer(80);
        let low_quality = quantizer < q55;
        let high_quality = quantizer > q80;
        let max_block_size: u8 = if high_quality {
            16
        } else {
            64
        };
        let range: (u8, u8) = if speed == 0 {
            (4, if max_block_size < 64 { max_block_size } else { 64 })
        } else if speed == 1 && low_quality {
            (4, if max_block_size < 64 { max_block_size } else { 64 })
        } else if speed == 2 && low_quality {
            (4, if max_block_size < 32 { max_block_size } else { 32 })
        } else if 1 <= speed && speed <= 4 {
            (4, 16)
        } else if 5 <= speed && speed <= 8 {
            (8, 16)
        } else {
            (16, 16)
        };
        let base_tile: u16 = if speed == 0 {
            4096
        } else if speed == 1 {
            2048
        } else if speed == 2 {
            1024
        } else if speed == 3 {
            512
        } else if speed == 4 {
            256
        } else {
            128
        };
        let min_tile_size: u16 = if high_quality {
            base_tile * 2
        } else {
            base_tile
        };
        SpeedTweaks {
            speed_preset: speed,
            partition_range: Some(range),
            complex_prediction_modes: Some(speed <= 1),
            sgr_complexity_full: Some(speed <= 2),
            encode_bottomup: Some(speed <= 2),
            rdo_tx_decision: Some(speed <= 4 && !high_quality),
            reduced_tx_set: Some(speed == 4 || speed >= 9),
            fine_directional_intra: Some(speed <= 6),
            fast_deblock: Some(speed >= 7 && !high_quality),
            lrf: Some(low_quality && speed <= 8),
            cdef: Some(low_quality && speed <= 9),
            inter_tx_split: Some(speed >= 9),
            tx_domain_rate: Some(speed >= 10),
            tx_domain_distortion: None,
            use_satd_subpel: Some(false),
            min_tile_size,
        }
    }

    /// rav1e's settings for these toggles: the preset's settings with a
    /// single reference frame, one frame of lookahead, no scene detection
    /// and no near motion vectors, then each toggle that is set.
    #[verifier::rlimit(60)]
    pub fn speed_settings(&self) -> (s: SpeedSettings)
        requires
            valid_partition_range(self.partition_range),
        ensures
            tweaked_settings(s, spec_preset(self.speed_preset), *self),
    {
        let mut s = SpeedSettings::from_preset(self.speed_preset);
        let ghost d = s;
        proof {
            let c = spec_preset(self.speed_preset);
            assert(preset_settings(c, self.speed_preset));
            lemma_settings_ext(d, c);
        }
        let partition_range = match self.partition_range {
            Some((lo, hi)) => PartitionRange::new(block_size(lo), block_size(hi)),
            None => s.partition.partition_range,
        };
        let partition = PartitionSpeedSettings {
            encode_bottomup: or_keep(self.encode_bottomup, s.partition.encode_bottomup),
            non_square_partition_max_threshold: s.partition.non_square_partition_max_threshold,
            partition_range,
        };
        let transform = TransformSpeedSettings {
            reduced_tx_set: or_keep(self.reduced_tx_set, s.transform.reduced_tx_set),
            tx_domain_distortion: or_keep(
                self.tx_domain_distortion,
                s.transform.tx_domain_distortion,
            ),
            tx_domain_rate: or_keep(self.tx_domain_rate, s.transform.tx_domain_rate),
            rdo_tx_decision: or_keep(self.rdo_tx_decision, s.transform.rdo_tx_decision),
            enable_inter_tx_split: or_keep(self.inter_tx_split, s.transform.enable_inter_tx_split),
        };
        let prediction = PredictionSpeedSettings {
            prediction_modes: prediction_modes_or_keep(
                self.complex_prediction_modes,
                s.prediction.prediction_modes,
            ),
            fine_directional_intra: or_keep(
                self.fine_directional_intra,
                s.prediction.fine_directional_intra,
            ),
        };
        let motion = MotionSpeedSettings {
            use_satd_subpel: or_keep(self.use_satd_subpel, s.motion.use_satd_subpel),
            include_near_mvs: false,
            me_allow_full_search: s.motion.me_allow_full_search,
        };
        let fast_deblock = or_keep(self.fast_deblock, s.fast_deblock);
        let cdef = or_keep(self.cdef, s.cdef);
        let lrf = or_keep(self.lrf, s.lrf);
        let sgr_complexity = sgr_complexity_or_keep(self.sgr_complexity_full, s.sgr_complexity);
        s.multiref = false;
        s.rdo_lookahead_frames = 1;
        s.scene_detection_mode = SceneDetectionSpeed::None;
        s.fast_deblock = fast_deblock;
        s.cdef = cdef;
        s.lrf = lrf;
        s.sgr_complexity = sgr_complexity;
        s.partition = partition;
        s.transform = transform;
        s.prediction = prediction;
        s.motion = motion;
        s
    }
}

/// `speed_settings` is a function of the toggles.
pub proof fn lemma_speed_settings_unique(s: SpeedSettings, t: SpeedTweaks)
    requires
        tweaked_settings(s, spec_preset(t.speed_preset), t),
    ensures
        s == spec_speed_settings(t),
{
    let c = spec_speed_settings(t);
    assert(tweaked_settings(c, spec_preset(t.speed_preset), t));
    lemma_settings_ext(s, c);
}

} // verus!

//! The types of the AV1 encoder (rav1e) that the library handles.
//!
//! The configuration types are declared with their fields, so that verified
//! code builds the encoder configuration itself. Types whose contents the
//! library never reads (HDR metadata, film grain, the partition range) are
//! declared opaque.

use vstd::prelude::*;

verus! {

use rav1e::config::{GrainTableSegment, SpeedSettings};
use rav1e::prelude::{
    BlockSize, ChromaSamplePosition, ChromaSampling, ColorDescription, ColorPrimaries,
    ContentLight, EncoderConfig, MasteringDisplay, MatrixCoefficients, MotionSpeedSettings,
    PartitionRange, PartitionSpeedSettings, PixelRange, PredictionModesSetting,
    PredictionSpeedSettings, Rational, SGRComplexityLevel, SceneDetectionSpeed,
    SegmentationLevel, TransferCharacteristics, TransformSpeedSettings, Tune,
};

#[verifier::external_type_specification]
pub struct ExSpeedSettings(SpeedSettings);

#[verifier::external_type_specification]
pub struct ExPartitionSpeedSettings(PartitionSpeedSettings);

#[verifier::external_type_specification]
pub struct ExTransformSpeedSettings(TransformSpeedSettings);

#[verifier::external_type_specification]
pub struct ExPredictionSpeedSettings(PredictionSpeedSettings);

#[verifier::external_type_specification]
pub struct ExMotionSpeedSettings(MotionSpeedSettings);

#[verifier::external_type_specification]
#[verifier::external_body]
pub struct ExPartitionRange(PartitionRange);

#[verifier::external_type_specification]
pub struct ExBlockSize(BlockSize);

#[verifier::external_type_specification]
pub struct ExSceneDetectionSpeed(SceneDetectionSpeed);

#[verifier::external_type_specification]
pub struct ExPredictionModesSetting(PredictionModesSetting);

#[verifier::external_type_specification]
pub struct ExSGRComplexityLevel(SGRComplexityLevel);

#[verifier::external_type_specification]
pub struct ExSegmentationLevel(SegmentationLevel);

#[verifier::external_type_specification]
pub struct ExEncoderConfig(EncoderConfig);

#[verifier::external_type_specification]
pub struct ExRational(Rational);

#[verifier::external_type_specification]
pub struct ExChromaSampling(ChromaSampling);

#[verifier::external_type_specification]
pub struct ExChromaSamplePosition(ChromaSamplePosition);

#[verifier::external_type_specification]
pub struct ExPixelRange(PixelRange);

#[verifier::external_type_specification]
pub struct ExColorDescription(ColorDescription);

#[verifier::external_type_specification]
pub struct ExColorPrimaries(ColorPrimaries);

#[verifier::external_type_specification]
pub struct ExTransferCharacteristics(TransferCharacteristics);

#[verifier::external_type_specification]
pub struct ExMatrixCoefficients(MatrixCoefficients);

#[verifier::external_type_specification]
pub struct ExTune(Tune);

#[verifier::external_type_specification]
#[verifier::external_body]
pub struct ExMasteringDisplay(MasteringDisplay);

#[verifier::external_type_specification]
#[verifier::external_body]
pub struct ExContentLight(ContentLight);

#[verifier::external_type_specification]
#[verifier::external_body]
pub struct ExGrainTableSegment(GrainTableSegment);

/// The side of a square block size; 0 for the others.
pub open spec fn square_side(b: BlockSize) -> int {
    match b {
        BlockSize::BLOCK_4X4 => 4,
        BlockSize::BLOCK_8X8 => 8,
        BlockSize::BLOCK_16X16 => 16,
        BlockSize::BLOCK_32X32 => 32,
        BlockSize::BLOCK_64X64 => 64,
        BlockSize::BLOCK_128X128 => 128,
        _ => 0,
    }
}

/// The partition range rav1e's `PartitionRange::new` builds from two sizes.
pub uninterp spec fn partition_range_of(min: BlockSize, max: BlockSize) -> PartitionRange;

/// The settings of a speed preset, as `SpeedSettings::from_preset` sets
/// them: the speed-0 defaults, changed at the thresholds 1 to 10.
pub open spec fn preset_settings(s: SpeedSettings, speed: u8) -> bool {
    &&& s.multiref == (speed < 7)
    &&& s.fast_deblock == (speed >= 7)
    &&& s.rdo_lookahead_frames == if speed >= 8 {
        10usize
    } else if speed >= 6 {
        20usize
    } else if speed >= 3 {
        30usize
    } else {
        40usize
    }
    &&& s.scene_detection_mode == if speed >= 10 {
        SceneDetectionSpeed::Fast
    } else {
        SceneDetectionSpeed::Standard
    }
    &&& s.cdef
    &&& s.lrf == (speed < 8)
    &&& s.lru_on_skip == (speed < 1)
    &&& s.sgr_complexity == if speed >= 5 {
        SGRComplexityLevel::Reduced
    } else {
        SGRComplexityLevel::Full
    }
    &&& s.segmentation == if speed >= 1 {
        SegmentationLevel::Simple
    } else {
        SegmentationLevel::Complex
    }
    &&& s.partition.encode_bottomup == (speed < 4)
    &&& s.partition.non_square_partition_max_threshold == if speed >= 2 {
        BlockSize::BLOCK_8X8
    } else {
        BlockSize::BLOCK_64X64
    }
    &&& s.partition.partition_range == if speed >= 10 {
        partition_range_of(BlockSize::BLOCK_32X32, BlockSize::BLOCK_32X32)
    } else if speed >= 9 {
        partition_range_of(BlockSize::BLOCK_16X16, BlockSize::BLOCK_32X32)
    } else if speed >= 3 {
        partition_range_of(BlockSize::BLOCK_8X8, BlockSize::BLOCK_64X64)
    } else {
        partition_range_of(BlockSize::BLOCK_4X4, BlockSize::BLOCK_64X64)
    }
    &&& s.transform.reduced_tx_set == (speed >= 6)
    &&& s.transform.tx_domain_distortion
    &&& !s.transform.tx_domain_rate
    &&& s.transform.rdo_tx_decision == (speed < 6)
    &&& s.transform.enable_inter_tx_split == (speed >= 9)
    &&& s.prediction.prediction_modes == if speed >= 7 {
        PredictionModesSetting::Simple
    } else if speed >= 2 {
        PredictionModesSetting::ComplexKeyframes
    } else {
        PredictionModesSetting::ComplexAll
    }
    &&& s.prediction.fine_directional_intra
    &&& s.motion.include_near_mvs == (speed < 5)
    &&& s.motion.use_satd_subpel == (speed < 10)
    &&& s.motion.me_allow_full_search == (speed < 6)
}

/// Relies on rav1e's `SpeedSettings::from_preset` (speedsettings.rs): the
/// speed-0 defaults of `SpeedSettings::default`, changed at each speed
/// threshold as `preset_settings` lists; no panic for any `u8`.
pub assume_specification[ SpeedSettings::from_preset ](speed: u8) -> (s: SpeedSettings)
    ensures
        preset_settings(s, speed),
;

/// Relies on rav1e's `PartitionRange::new`, which asserts that both sizes
/// are square and that `max >= min` (for square sizes: the side of `max` is
/// at least that of `min`), and stores the two sizes.
pub assume_specification[ PartitionRange::new ](min: BlockSize, max: BlockSize) -> (r: PartitionRange)
    requires
        square_side(min) > 0,
        square_side(max) > 0,
        square_side(min) <= square_side(max),
    ensures
        r == partition_range_of(min, max),
;

} // verus!

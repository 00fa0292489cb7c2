use vstd::prelude::*;

verus! {

/// What rav1e reported when it could not take or give a frame.
#[derive(Debug, Clone, Copy, PartialEq, Eq, Structural)]
pub enum CodecStatus {
    NeedMoreData,
    EnoughData,
    LimitReached,
    Encoded,
    Failure,
    NotReady,
}

/// Failures of an encode call.
#[derive(Debug, Clone, Copy, PartialEq, Eq, Structural)]
pub enum Error {
    /// A plane was given fewer than `width * height` samples.
    TooFewPixels,
    /// The image is narrower than the encoder accepts.
    ImageTooNarrow,
    /// Quality outside `1..=100`.
    QualityOutOfRange,
    /// Speed outside `1..=10`.
    SpeedOutOfRange,
    /// Bit depth other than 8, 10 or 12.
    UnsupportedBitDepth,
    /// A sample larger than the bit depth can hold.
    SampleOutOfRange,
    /// The encoder refused the configuration (for instance a side above 65535).
    InvalidConfig,
    /// The encoder failed while encoding.
    Codec(CodecStatus),
    /// An Exif block too large for its 32-bit offsets.
    ExifTooLarge,
}

} // verus!

//! Failures of the pipeline, by the stage that detects them.
use vstd::prelude::*;

verus! {

/// Why a resource could not be described or filled.
#[derive(Clone, Copy, Debug, PartialEq, Eq, Structural)]
pub enum ResourceIssue {
    /// The format has no defined texel byte size for copies.
    UnsizedFormat,
    /// The format does not allow a requested usage.
    UnsupportedUsage,
    /// A side of the extent, or the layer count, is zero.
    EmptyExtent,
    /// One mip level or layer holds more bytes than a 32-bit size can count.
    TooLarge,
    /// An upload buffer does not hold exactly one tightly packed mip 0.
    UploadSizeMismatch,
}

/// Why an artifact could not be encoded.
#[derive(Clone, Copy, Debug, PartialEq, Eq, Structural)]
pub enum EncodeIssue {
    /// The mapped buffer does not have the byte length of the padded layout.
    BufferSizeMismatch,
    /// The target does not hold four 32-bit float channels per texel.
    ChannelCountMismatch,
    /// A colour channel holds +infinity, which the radiance format cannot
    /// represent.
    InfiniteChannel,
    /// The radiance encoder refused the pixels.
    EncoderRejected,
    /// The encoded file could not be written.
    WriteFailed,
}

/// Every failure that the pipeline reports.
#[derive(Clone, Copy, Debug, PartialEq, Eq, Structural)]
pub enum PipelineError {
    /// Invalid format, size or upload found while building resources: the
    /// pipeline cannot start.
    ResourceCreation(ResourceIssue),
    /// The device became unusable during an asynchronous operation: all
    /// pending work is abandoned.
    DeviceLost,
    /// The staging buffer map was denied: only that artifact is lost.
    MapFailure,
    /// Encoding or writing one artifact failed: only that artifact is lost.
    Encode(EncodeIssue),
    /// The source panorama could not be decoded.
    SourceDecode,
}

} // verus!

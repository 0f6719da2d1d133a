use vstd::prelude::*;

verus! {

/// Why an untrusted input was refused. Each check has its own reason so that
/// a caller can report exactly what was wrong.
#[derive(Clone, Copy, Debug, PartialEq, Eq, Structural)]
pub enum RejectionReason {
    /// Width or height below one, or row stride below three.
    GeometryTooSmall,
    /// The pixel buffer exceeds the payload ceiling.
    PayloadTooLarge,
    /// Bits per sample other than eight.
    UnsupportedSampleDepth,
    /// The declared channel count disagrees with the alpha flag.
    ChannelCountMismatch,
    /// Width or height above the dimension ceiling.
    DimensionTooLarge,
    /// The buffer holds fewer than `height` rows of `row_stride` bytes.
    BufferTooSmallForHeight,
    /// A row holds fewer than `width` pixels.
    RowStrideTooSmallForWidth,
    /// An expiry timeout below minus one.
    UnsupportedTimeout,
}

} // verus!

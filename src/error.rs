use vstd::prelude::*;

verus! {

/// The failures that end an analysis. Recoverable decode errors and decoder
/// resets are absorbed while decoding and never show up here.
#[derive(Clone, Copy, Debug, PartialEq, Eq, Structural)]
pub enum AnalysisError {
    /// The byte source could not be opened or read.
    SourceUnreadable,
    /// No demuxer recognised the container.
    UnrecognizedContainer,
    /// The container holds no track with a real codec.
    NoUsableTrack,
    /// The decoder reported an error that cannot be skipped.
    FatalDecodeError,
    /// The stream ended without a single decoded sample.
    EmptyDecodedOutput,
    /// A sample rate of zero leaves the low-pass coefficient undefined.
    InvalidSampleRate,
}

} // verus!

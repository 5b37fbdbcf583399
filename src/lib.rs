//! Audio energy profile: the verified parts of the pipeline that turns a
//! decoded sample stream into per-packet energy features.
//!
//! - `packet`: splitting a mono sample sequence into contiguous packets and
//!   applying a per-packet feature to each of them.
//! - `downmix`: collapsing interleaved multi-channel frames into mono.
//! - `decode`: the error-recovery policy that drives an external decoder.
//! - `error`: the failures that reach a caller.

pub mod decode;
pub mod downmix;
pub mod error;
pub mod packet;

pub use decode::{
    first_usable_track, DecodeAction, DecodeEvent, DecodeSession, SessionPhase, StreamSummary,
    DEFAULT_CHANNELS, DEFAULT_SAMPLE_RATE,
};
pub use downmix::downmix;
pub use error::AnalysisError;
pub use packet::{analyze_vectors, packet_features, packet_ranges, PacketRange};

use vstd::prelude::*;

use crate::error::AnalysisError;

verus! {

/// Sample rate assumed when the track does not state one.
pub const DEFAULT_SAMPLE_RATE: u32 = 44100;

/// Channel count assumed when the track does not state one.
pub const DEFAULT_CHANNELS: usize = 1;

/// What happened at one step of driving the demuxer and the decoder.
#[derive(Clone, Copy, Debug, PartialEq, Eq, Structural)]
pub enum DecodeEvent {
    /// A packet of the selected track decoded into `samples` interleaved
    /// samples, at the rate and channel count that this buffer reports.
    Decoded { samples: usize, sample_rate: u32, channels: usize },
    /// A packet that belongs to another track.
    ForeignPacket,
    /// The decoder rejected a packet but can go on with the next one.
    RecoverableError,
    /// The decoder must be rebuilt from the track's codec parameters.
    ResetRequired,
    /// The source is exhausted.
    EndOfStream,
    /// Any other error, including a failure to rebuild the decoder.
    FatalError,
}

/// What the driver does next.
#[derive(Clone, Copy, Debug, PartialEq, Eq, Structural)]
pub enum DecodeAction {
    /// Read the next packet.
    Continue,
    /// Replace the decoder by a new one, then read the next packet.
    RebuildDecoder,
    /// Leave the loop.
    Stop,
}

/// Whether the pass is still running, or how it ended.
#[derive(Clone, Copy, Debug, PartialEq, Eq, Structural)]
pub enum SessionPhase {
    Decoding,
    Finished,
    Failed,
}

/// The state of one pass over a stream: how many interleaved samples have
/// been gathered, and the sample rate and channel count last reported.
#[derive(Clone, Copy, Debug, PartialEq, Eq, Structural)]
pub struct DecodeSession {
    pub phase: SessionPhase,
    pub total_samples: usize,
    pub sample_rate: u32,
    pub channels: usize,
}

/// What a successful pass hands on to the downmixer.
#[derive(Clone, Copy, Debug, PartialEq, Eq, Structural)]
pub struct StreamSummary {
    pub total_samples: usize,
    pub sample_rate: u32,
    pub channels: usize,
}

/// One transition of the recovery policy.
pub open spec fn step(s: DecodeSession, e: DecodeEvent) -> (DecodeSession, DecodeAction) {
    if s.phase != SessionPhase::Decoding {
        (s, DecodeAction::Stop)
    } else {
        match e {
            DecodeEvent::Decoded { samples, sample_rate, channels } => (
                DecodeSession {
                    total_samples: (s.total_samples + samples) as usize,
                    sample_rate,
                    channels,
                    ..s
                },
                DecodeAction::Continue,
            ),
            DecodeEvent::ForeignPacket => (s, DecodeAction::Continue),
            DecodeEvent::RecoverableError => (s, DecodeAction::Continue),
            DecodeEvent::ResetRequired => (s, DecodeAction::RebuildDecoder),
            DecodeEvent::EndOfStream => (
                DecodeSession { phase: SessionPhase::Finished, ..s },
                DecodeAction::Stop,
            ),
            DecodeEvent::FatalError => (
                DecodeSession { phase: SessionPhase::Failed, ..s },
                DecodeAction::Stop,
            ),
        }
    }
}

/// The gathered samples fit in memory, so their count fits in `usize`.
pub open spec fn event_fits(s: DecodeSession, e: DecodeEvent) -> bool {
    match e {
        DecodeEvent::Decoded { samples, .. } => s.total_samples + samples <= usize::MAX,
        _ => true,
    }
}

pub open spec fn session_outcome(s: DecodeSession) -> Result<StreamSummary, AnalysisError> {
    if s.phase == SessionPhase::Failed {
        Err(AnalysisError::FatalDecodeError)
    } else if s.total_samples == 0 {
        Err(AnalysisError::EmptyDecodedOutput)
    } else {
        Ok(
            StreamSummary {
                total_samples: s.total_samples,
                sample_rate: s.sample_rate,
                channels: s.channels,
            },
        )
    }
}

/// A skipped packet, a recoverable error and a decoder reset leave the
/// session as it was: they add no samples and end nothing. Once a session
/// has finished or failed, no event changes it.
pub proof fn lemma_absorbed_events(s: DecodeSession, e: DecodeEvent)
    requires
        s.phase != SessionPhase::Decoding || e == DecodeEvent::ForeignPacket || e
            == DecodeEvent::RecoverableError || e == DecodeEvent::ResetRequired,
    ensures
        step(s, e).0 == s,
        step(s, e).1 != DecodeAction::Stop ==> s.phase == SessionPhase::Decoding,
{
}

impl DecodeSession {
    /// A fresh session, with the track's stated sample rate and channel
    /// count or the defaults where it states none.
    pub fn new(sample_rate: Option<u32>, channels: Option<usize>) -> (r: DecodeSession)
        ensures
            r.phase == SessionPhase::Decoding,
            r.total_samples == 0,
            r.sample_rate == match sample_rate {
                Some(v) => v,
                None => DEFAULT_SAMPLE_RATE,
            },
            r.channels == match channels {
                Some(v) => v,
                None => DEFAULT_CHANNELS,
            },
    {
        DecodeSession {
            phase: SessionPhase::Decoding,
            total_samples: 0,
            sample_rate: match sample_rate {
                Some(v) => v,
                None => DEFAULT_SAMPLE_RATE,
            },
            channels: match channels {
                Some(v) => v,
                None => DEFAULT_CHANNELS,
            },
        }
    }

    /// Applies one event and says what the driver does next. Once the
    /// session has finished or failed, events change nothing.
    pub fn on_event(&mut self, event: DecodeEvent) -> (a: DecodeAction)
        requires
            event_fits(*old(self), event),
        ensures
            (*final(self), a) == step(*old(self), event),
    {
        if self.phase != SessionPhase::Decoding {
            return DecodeAction::Stop;
        }
        match event {
            DecodeEvent::Decoded { samples, sample_rate, channels } => {
                self.total_samples = self.total_samples + samples;
                self.sample_rate = sample_rate;
                self.channels = channels;
                DecodeAction::Continue
            },
            DecodeEvent::ForeignPacket => DecodeAction::Continue,
            DecodeEvent::RecoverableError => DecodeAction::Continue,
            DecodeEvent::ResetRequired => DecodeAction::RebuildDecoder,
            DecodeEvent::EndOfStream => {
                self.phase = SessionPhase::Finished;
                DecodeAction::Stop
            },
            DecodeEvent::FatalError => {
                self.phase = SessionPhase::Failed;
                DecodeAction::Stop
            },
        }
    }

    /// The result of the pass: a fatal error, or no samples at all, fails it.
    pub fn outcome(&self) -> (r: Result<StreamSummary, AnalysisError>)
        ensures
            r == session_outcome(*self),
    {
        if self.phase == SessionPhase::Failed {
            Err(AnalysisError::FatalDecodeError)
        } else if self.total_samples == 0 {
            Err(AnalysisError::EmptyDecodedOutput)
        } else {
            Ok(
                StreamSummary {
                    total_samples: self.total_samples,
                    sample_rate: self.sample_rate,
                    channels: self.channels,
                },
            )
        }
    }
}

/// The first track whose codec is a real one (`is_null[i]` is false).
pub fn first_usable_track(is_null: &Vec<bool>) -> (r: Result<usize, AnalysisError>)
    ensures
        match r {
            Ok(i) => i < is_null@.len() && !is_null@[i as int] && forall|k: int|
                0 <= k < i ==> #[trigger] is_null@[k],
            Err(e) => e == AnalysisError::NoUsableTrack && forall|k: int|
                0 <= k < is_null@.len() ==> #[trigger] is_null@[k],
        },
{
    let mut i: usize = 0;
    while i < is_null.len()
        invariant
            i <= is_null@.len(),
            forall|k: int| 0 <= k < i ==> #[trigger] is_null@[k],
        decreases is_null@.len() - i,
    {
        if !is_null[i] {
            return Ok(i);
        }
        i = i + 1;
    }
    Err(AnalysisError::NoUsableTrack)
}

} // verus!

//! State machine for the voxtype daemon.
//!
//! Defines the states of the push-to-talk workflow:
//! Idle → Recording → Transcribing → Outputting → Idle
//!
//! `S` is the type of an audio sample (mono, 16 kHz).

use std::time::{Duration, Instant};

use vstd::prelude::*;

verus! {

#[verifier::external_type_specification]
#[verifier::external_body]
pub struct ExInstant(Instant);

/// Result from transcribing a single chunk during eager processing
#[derive(Debug, Clone)]
pub struct ChunkResult {
    /// Transcribed text from this chunk
    pub text: String,
    /// Which chunk this result corresponds to (0-indexed)
    pub chunk_index: usize,
}

/// Application state
#[derive(Debug)]
pub enum State<S> {
    /// Waiting for hotkey press
    Idle,
    /// Hotkey held, recording audio
    Recording {
        /// When recording started
        started_at: Instant,
        /// Optional model override for this recording
        model_override: Option<String>,
        /// Whether to enable complex post-processing
        use_complex_post_process: bool,
        /// The edit content to use for this recording (None = no edit)
        edit_content: Option<String>,
    },
    /// Hotkey held, recording audio with eager chunk processing
    EagerRecording {
        /// When recording started
        started_at: Instant,
        /// Optional model override for this recording
        model_override: Option<String>,
        /// Whether to enable complex post-processing
        use_complex_post_process: bool,
        /// The edit content to use for this recording (None = no edit)
        edit_content: Option<String>,
        /// Accumulated audio samples during recording
        accumulated_audio: Vec<S>,
        /// Number of chunks already sent for transcription
        chunks_sent: usize,
        /// Results received from completed chunk transcriptions
        chunk_results: Vec<ChunkResult>,
        /// Number of transcription tasks currently in flight
        tasks_in_flight: usize,
    },
    /// Hotkey released, transcribing audio
    Transcribing {
        /// Recorded audio samples
        audio: Vec<S>,
        /// Whether to enable complex post-processing
        use_complex_post_process: bool,
        /// The edit content to use for this transcription (None = no edit)
        edit_content: Option<String>,
        /// Optional model override for this transcription
        profile_override: Option<String>,
    },
    /// Transcription complete, outputting text
    Outputting {
        /// Transcribed text
        text: String,
    },
}

/// The time elapsed since an instant (`Instant::elapsed`).
///
/// It depends on the clock: nothing is stated of the result.
#[verifier::external_body]
fn elapsed_since(started_at: &Instant) -> Duration {
    started_at.elapsed()
}

impl<S> State<S> {
    /// Create a new idle state
    pub fn new() -> (r: Self)
        ensures
            r is Idle,
    {
        State::Idle
    }

    /// Check if in idle state
    pub fn is_idle(&self) -> (r: bool)
        ensures
            r == (self is Idle),
    {
        matches!(self, State::Idle)
    }

    /// Check if in recording state (normal or eager)
    pub fn is_recording(&self) -> (r: bool)
        ensures
            r == (self is Recording || self is EagerRecording),
    {
        matches!(self, State::Recording { .. } | State::EagerRecording { .. })
    }

    /// Check if in eager recording state specifically
    pub fn is_eager_recording(&self) -> (r: bool)
        ensures
            r == (self is EagerRecording),
    {
        matches!(self, State::EagerRecording { .. })
    }

    /// Get recording duration if currently recording (normal or eager)
    pub fn recording_duration(&self) -> (r: Option<Duration>)
        ensures
            r is Some == (self is Recording || self is EagerRecording),
    {
        match self {
            State::Recording { started_at, .. } => Some(elapsed_since(started_at)),
            State::EagerRecording { started_at, .. } => Some(elapsed_since(started_at)),
            _ => None,
        }
    }

    /// Get the number of chunks sent for transcription (eager mode only)
    pub fn eager_chunks_sent(&self) -> (r: Option<usize>)
        ensures
            r == (match self {
                State::EagerRecording { chunks_sent, .. } => Some(*chunks_sent),
                _ => None,
            }),
    {
        match self {
            State::EagerRecording { chunks_sent, .. } => Some(*chunks_sent),
            _ => None,
        }
    }

    /// Get the number of transcription tasks currently in flight (eager mode only)
    pub fn eager_tasks_in_flight(&self) -> (r: Option<usize>)
        ensures
            r == (match self {
                State::EagerRecording { tasks_in_flight, .. } => Some(*tasks_in_flight),
                _ => None,
            }),
    {
        match self {
            State::EagerRecording { tasks_in_flight, .. } => Some(*tasks_in_flight),
            _ => None,
        }
    }
}

impl<S> Default for State<S> {
    fn default() -> (r: Self)
        ensures
            r is Idle,
    {
        Self::new()
    }
}

} // verus!

//! Error types for voxtype.
//!
//! The user-facing messages of these errors live with the application, which
//! renders them; the library only decides which error occurs.

use vstd::prelude::*;

verus! {

#[verifier::external_type_specification]
#[verifier::external_body]
pub struct ExIoError(std::io::Error);

/// Top-level error type for the voxtype application
#[derive(Debug)]
pub enum VoxtypeError {
    Config(String),
    Hotkey(HotkeyError),
    Audio(AudioError),
    Transcribe(TranscribeError),
    Input(InputError),
    Output(OutputError),
    Meeting(MeetingError),
    Io(std::io::Error),
}

/// Errors related to hotkey detection
#[derive(Debug)]
pub enum HotkeyError {
    DeviceAccess(String),
    UnknownKey(String),
    NoKeyboard,
    Evdev(String),
}

/// Errors related to audio capture
#[derive(Debug)]
pub enum AudioError {
    Connection(String),
    DeviceNotFound(String),
    DeviceNotFoundWithList { requested: String, available: String },
    Timeout(u32),
    EmptyRecording,
    StreamError(String),
}

/// Errors related to speech-to-text transcription
#[derive(Debug)]
pub enum TranscribeError {
    ModelNotFound(String),
    InitFailed(String),
    InferenceFailed(String),
    AudioFormat(String),
    ConfigError(String),
    NetworkError(String),
    RemoteError(String),
}

/// Errors related to Voice Activity Detection
#[derive(Debug)]
pub enum VadError {
    ModelNotFound(String),
    InitFailed(String),
    DetectionFailed(String),
}

/// Errors related to reading input text
#[derive(Debug)]
pub enum InputError {
    WlPasteNotFound,
    ExtractionFailed(String),
}

/// Errors related to text output
#[derive(Debug)]
pub enum OutputError {
    YdotoolNotRunning,
    YdotoolNotFound,
    DotoolNotFound,
    WtypeNotFound,
    EitypeNotFound,
    WlCopyNotFound,
    WlPasteNotFound,
    XclipNotFound,
    InjectionFailed(String),
    CtrlVFailed(String),
    AllMethodsFailed,
}

/// Errors related to meeting transcription
#[derive(Debug)]
pub enum MeetingError {
    AlreadyInProgress,
    NotInProgress,
    NotActive,
    NotPaused,
    TranscriberNotInitialized,
    Storage(String),
}

} // verus!

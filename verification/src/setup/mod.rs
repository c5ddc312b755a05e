//! Setup helpers: choosing between the transcription engine binaries.

pub mod parakeet;

//! Verified core of the voxtype push-to-talk voice-to-text tool.

pub mod config;
pub mod eager;
pub mod error;
pub mod hotkey;
pub mod input;
pub mod output;
pub mod setup;
pub mod state;
pub mod text;

//! The configuration sections that the library's components are built from.

use vstd::prelude::*;

verus! {

/// `[hotkey]` section: the push-to-talk key and its companions, by name.
#[derive(Debug, Clone)]
pub struct HotkeyConfig {
    /// The key to hold while speaking
    pub key: String,
    /// Optional key that starts a recording in edit mode
    pub edit_key: Option<String>,
    /// Modifier keys that must be held together with the key
    pub modifiers: Vec<String>,
    /// Optional key that cancels the recording or transcription
    pub cancel_key: Option<String>,
    /// Optional key that, when held, selects the secondary model
    pub model_modifier: Option<String>,
    /// Optional key that, when held, enables the complex post-processing command
    pub complex_post_process_modifier: Option<String>,
    /// Optional file whose contents switch hotkey detection on and off
    pub hotkey_detection_file: Option<String>,
}

/// `[output.post_process]` section.
#[derive(Debug, Clone)]
pub struct PostProcessConfig {
    /// Shell command that receives the text on stdin
    pub command: String,
    /// Command used when complex post-processing is requested
    pub complex_command: Option<String>,
    /// Command used for edit operations
    pub edit_command: Option<String>,
    /// Time limit for the command in milliseconds
    pub timeout_ms: u64,
}

/// Speech-to-text engines.
#[derive(Debug, Clone, Copy, PartialEq, Eq, Structural)]
pub enum TranscriptionEngine {
    Whisper,
    Parakeet,
    Moonshine,
    SenseVoice,
    Paraformer,
    Dolphin,
    Omnilingual,
}

/// How transcribed text is delivered.
#[derive(Debug, Clone, Copy, PartialEq, Eq, Structural)]
pub enum OutputMode {
    /// Simulate typing, trying the drivers of a fallback chain
    Type,
    /// Copy to the clipboard
    Clipboard,
    /// Copy to the clipboard and paste with a key combination
    Paste,
    /// Write to a file
    File,
}

/// Typing drivers of the fallback chain.
#[derive(Debug, Clone, Copy, PartialEq, Eq, Structural)]
pub enum OutputDriver {
    Wtype,
    Eitype,
    Dotool,
    Ydotool,
    Clipboard,
    Xclip,
}

/// `[output.notification]` section.
#[derive(Debug, Clone, Copy)]
pub struct NotificationConfig {
    /// Show a notification with the text once it has been output
    pub after_post_process: bool,
}

/// `[output]` section.
#[derive(Debug, Clone)]
pub struct OutputConfig {
    pub mode: OutputMode,
    /// Custom order of typing drivers (`None` = default order)
    pub driver_order: Option<Vec<OutputDriver>>,
    /// Add the clipboard as a last resort of the typing chain
    pub fallback_to_clipboard: bool,
    /// Press Enter after the text
    pub auto_submit: bool,
    /// Text appended after each transcription
    pub append_text: Option<String>,
    /// Delay between keystrokes in milliseconds
    pub type_delay_ms: u32,
    /// Delay before typing starts in milliseconds
    pub pre_type_delay_ms: u32,
    /// Former name of `pre_type_delay_ms` (deprecated); used when that one is 0
    pub wtype_delay_ms: Option<u32>,
    /// Type newlines as Shift+Enter
    pub shift_enter_newlines: bool,
    /// Keyboard layout for dotool
    pub dotool_xkb_layout: Option<String>,
    /// Keyboard layout variant for dotool
    pub dotool_xkb_variant: Option<String>,
    /// Key combination used to paste in paste mode
    pub paste_keys: Option<String>,
    /// Restore the previous clipboard contents after pasting
    pub restore_clipboard: bool,
    /// Delay before the clipboard is restored, in milliseconds
    pub restore_clipboard_delay_ms: u32,
    pub notification: NotificationConfig,
}

impl OutputConfig {
    /// The delay before typing: `pre_type_delay_ms` when set (non-zero), else
    /// the deprecated `wtype_delay_ms`, else none.
    pub open spec fn effective_pre_type_delay(self) -> u32 {
        if self.pre_type_delay_ms > 0 {
            self.pre_type_delay_ms
        } else {
            match self.wtype_delay_ms {
                Some(d) => d,
                None => 0,
            }
        }
    }

    /// Get the effective delay before typing (handles the deprecated `wtype_delay_ms`)
    pub fn effective_pre_type_delay_ms(&self) -> (r: u32)
        ensures
            r == self.effective_pre_type_delay(),
    {
        if self.pre_type_delay_ms > 0 {
            self.pre_type_delay_ms
        } else {
            match self.wtype_delay_ms {
                Some(d) => d,
                None => 0,
            }
        }
    }
}

} // verus!

//! Clipboard-based text output (wl-copy).

use vstd::prelude::*;

use crate::text::{append_chars, chars_of, push_str_chars, string_from_chars};

verus! {

/// Clipboard-based text output
#[derive(Debug, Clone)]
pub struct ClipboardOutput {
    /// Whether to show a desktop notification
    pub notify: bool,
    /// Text to append after transcription
    pub append_text: Option<String>,
}

/// The text placed on the clipboard: nothing for an empty transcription,
/// otherwise the transcription followed by the appended text, if any.
pub open spec fn clipboard_payload(append_text: Option<String>, text: Seq<char>) -> Option<Seq<char>> {
    if text.len() == 0 {
        None
    } else {
        match append_text {
            Some(a) => Some(text + a@),
            None => Some(text),
        }
    }
}

impl ClipboardOutput {
    /// Create a new clipboard output
    pub fn new(notify: bool, append_text: Option<String>) -> (r: Self)
        ensures
            r == (ClipboardOutput { notify, append_text }),
    {
        ClipboardOutput { notify, append_text }
    }

    /// The text to copy for a transcription (`None`: nothing to copy).
    pub fn payload(&self, text: &str) -> (r: Option<String>)
        ensures
            match clipboard_payload(self.append_text, text@) {
                Some(p) => r matches Some(s) && s@ == p,
                None => r is None,
            },
    {
        if text.is_empty() {
            return None;
        }
        let mut buf = chars_of(text);
        match &self.append_text {
            Some(append) => {
                push_str_chars(&mut buf, append.as_str());
            },
            None => {},
        }
        Some(string_from_chars(&buf))
    }
}

} // verus!

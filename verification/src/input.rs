//! Text input sources: the clipboard (wl-paste) or a file.

use vstd::prelude::*;

use crate::error::InputError;
use crate::text::{chars_of, string_from_chars};

verus! {

/// Clipboard-based text input
#[derive(Debug, Default, Clone, Copy)]
pub struct ClipboardInput;

/// File-based text input
#[derive(Debug, Clone)]
pub struct FileInput {
    /// Path of the file to read
    pub file_path: String,
}

/// Where input text comes from.
#[derive(Debug, Clone)]
pub enum InputSource {
    Clipboard(ClipboardInput),
    File(FileInput),
}

impl ClipboardInput {
    /// Create a new clipboard input
    pub fn new() -> (r: Self)
        ensures
            r == ClipboardInput,
    {
        ClipboardInput
    }
}

impl FileInput {
    /// Create a new file input
    pub fn new(file_path: String) -> (r: Self)
        ensures
            r.file_path == file_path,
    {
        FileInput { file_path }
    }
}

/// The input for a source: the given file, or the clipboard when none is given.
pub fn get_input(source: Option<String>) -> (r: Result<InputSource, InputError>)
    ensures
        match source {
            Some(path) => r matches Ok(InputSource::File(f)) && f.file_path == path,
            None => r matches Ok(InputSource::Clipboard(_)),
        },
{
    match source {
        Some(input_file) => Ok(InputSource::File(FileInput::new(input_file))),
        None => Ok(InputSource::Clipboard(ClipboardInput::new())),
    }
}

/// `trim_end_matches('\n')`: drops every trailing newline.
pub open spec fn without_trailing_newlines(s: Seq<char>) -> Seq<char>
    decreases s.len(),
{
    if s.len() > 0 && s.last() == '\n' {
        without_trailing_newlines(s.drop_last())
    } else {
        s
    }
}

/// Remove the trailing newlines that wl-paste often adds.
pub fn strip_trailing_newlines(text: &str) -> (r: String)
    ensures
        r@ == without_trailing_newlines(text@),
{
    let mut chars = chars_of(text);
    while chars.len() > 0 && chars[chars.len() - 1] == '\n'
        invariant
            without_trailing_newlines(chars@) == without_trailing_newlines(text@),
        decreases chars.len(),
    {
        let ghost before = chars@;
        chars.pop();
        assert(chars@ =~= before.drop_last());
    }
    string_from_chars(&chars)
}

} // verus!

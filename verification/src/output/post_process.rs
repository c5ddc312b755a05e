//! Post-processing of transcribed text through an external command.
//!
//! The command receives the transcribed text on stdin and should output the
//! processed text on stdout. On any failure, the original text is used.
//! Running the command is left to the caller; this module decides which
//! command runs, what its run amounts to, and which text comes out.

use vstd::prelude::*;

use crate::config::PostProcessConfig;
use crate::text::{
    append_chars, chars_of, decimal, decimal_chars, push_str_chars, string_from_chars, trim,
    trim_chars,
};

verus! {

/// Post-processor that runs an external command on transcribed text
#[derive(Debug, Clone)]
pub struct PostProcessor {
    /// Default command
    pub command: String,
    /// Command for complex post-processing
    pub complex_command: Option<String>,
    /// Command for edit operations
    pub edit_command: Option<String>,
    /// Time limit in milliseconds
    pub timeout_ms: u64,
}

/// Input of an edit operation, serialized as JSON for the edit command
#[derive(Debug, Clone)]
pub struct EditInput<'a> {
    pub origin_text: String,
    pub instruction: &'a str,
}

/// Errors that can occur during post-processing
#[derive(Debug)]
pub enum PostProcessError {
    /// Failed to spawn the command process
    SpawnFailed(String),
    /// Failed to write text to stdin
    WriteFailed(String),
    /// Command timed out (seconds)
    Timeout(u64),
    /// Failed to wait for command completion
    WaitFailed(String),
    /// Command exited with non-zero status
    NonZeroExit { code: Option<i32>, stderr: String },
    /// Command output was not valid UTF-8
    InvalidUtf8(String),
}

/// Which command a post-processing run uses, and what it reads.
#[derive(Debug, Clone)]
pub struct PostProcessPlan {
    /// The shell command to run
    pub command: String,
    /// For an edit run, the text being edited: the command then reads an
    /// [`EditInput`] (this text and the spoken instruction) as JSON instead of
    /// the transcription.
    pub edit_origin: Option<String>,
}

/// The run is an edit when edit content is given and an edit command is configured.
pub open spec fn is_edit_run(p: PostProcessor, edit_content: Option<String>) -> bool {
    edit_content is Some && p.edit_command is Some
}

/// The command of a run: edit command, else complex command when requested
/// and configured, else the default command.
pub open spec fn chosen_command(p: PostProcessor, use_complex_post_process: bool, edit_content: Option<String>) -> Seq<char> {
    if is_edit_run(p, edit_content) {
        p.edit_command.unwrap()@
    } else if use_complex_post_process && p.complex_command is Some {
        p.complex_command.unwrap()@
    } else {
        p.command@
    }
}

/// What a finished command amounts to: its trimmed output when it succeeded
/// with UTF-8 output; otherwise the error.
pub open spec fn command_outcome(
    success: bool,
    code: Option<i32>,
    stderr: Seq<char>,
    stdout: Result<String, String>,
) -> Result<Seq<char>, (Option<i32>, Seq<char>)> {
    if !success {
        Err((code, trim(stderr)))
    } else {
        match stdout {
            Ok(s) => Ok(trim(s@)),
            Err(e) => Err((None, e@)),
        }
    }
}

/// The text coming out of post-processing: the processed text when the command
/// succeeded with non-empty output, the original text otherwise.
pub open spec fn post_processed_text(text: Seq<char>, result: Result<String, PostProcessError>) -> Seq<
    char,
> {
    match result {
        Ok(p) => if p@.len() == 0 {
            text
        } else {
            p@
        },
        Err(_) => text,
    }
}

fn clone_string(s: &String) -> (r: String)
    ensures
        r@ == s@,
{
    s.clone()
}

impl PostProcessor {
    /// Create a new post-processor from configuration
    pub fn new(config: &PostProcessConfig) -> (r: Self)
        ensures
            r.command@ == config.command@,
            r.complex_command == config.complex_command,
            r.edit_command == config.edit_command,
            r.timeout_ms == config.timeout_ms,
    {
        PostProcessor {
            command: clone_string(&config.command),
            complex_command: config.complex_command.clone(),
            edit_command: config.edit_command.clone(),
            timeout_ms: config.timeout_ms,
        }
    }

    /// Decide which command a run uses and whether it is an edit run.
    pub fn plan(&self, use_complex_post_process: bool, edit_content: Option<String>) -> (r:
        PostProcessPlan)
        ensures
            r.command@ == chosen_command(*self, use_complex_post_process, edit_content),
            r.edit_origin == (if is_edit_run(*self, edit_content) {
                edit_content
            } else {
                None
            }),
    {
        let is_edit = edit_content.is_some() && self.edit_command.is_some();
        let use_complex = !is_edit && use_complex_post_process && self.complex_command.is_some();
        let command = match (&self.edit_command, &self.complex_command) {
            (Some(edit), _) if is_edit => clone_string(edit),
            (_, Some(complex)) if use_complex => clone_string(complex),
            _ => clone_string(&self.command),
        };
        let edit_origin = if is_edit {
            edit_content
        } else {
            None
        };
        PostProcessPlan { command, edit_origin }
    }
}

/// The result of a finished post-processing command: `NonZeroExit` (with the
/// trimmed error output) when it failed, `InvalidUtf8` when its output is not
/// text, and otherwise its output with surrounding whitespace trimmed.
pub fn finish_command(success: bool, code: Option<i32>, stderr: &str, stdout: Result<String, String>) -> (r:
    Result<String, PostProcessError>)
    ensures
        match command_outcome(success, code, stderr@, stdout) {
            Ok(s) => r matches Ok(out) && out@ == s,
            Err((c, m)) => if !success {
                r matches Err(PostProcessError::NonZeroExit { code: rc, stderr: e }) && rc == c && e@ == m
            } else {
                r matches Err(PostProcessError::InvalidUtf8(e)) && e@ == m
            },
        },
{
    if !success {
        let err = trim_chars(&chars_of(stderr));
        return Err(PostProcessError::NonZeroExit { code, stderr: string_from_chars(&err) });
    }
    match stdout {
        Ok(s) => {
            let t = trim_chars(&chars_of(s.as_str()));
            Ok(string_from_chars(&t))
        },
        Err(e) => Err(PostProcessError::InvalidUtf8(e)),
    }
}

/// Process text through the external command's result: returns the processed
/// text on success, or the original text on any failure or empty output, so
/// that voice-to-text always produces output.
pub fn post_process_result(text: &str, result: Result<String, PostProcessError>) -> (r: String)
    ensures
        r@ == post_processed_text(text@, result),
        text@.len() > 0 ==> r@.len() > 0,
{
    match result {
        Ok(processed) => {
            if processed.as_str().is_empty() {
                String::from_str(text)
            } else {
                processed
            }
        },
        Err(_) => String::from_str(text),
    }
}

/// `{:?}` of an optional exit code: `Some(<code>)` or `None`.
pub open spec fn debug_exit_code(code: Option<i32>) -> Seq<char> {
    match code {
        Some(c) => "Some("@ + (if c < 0 {
            "-"@ + decimal((-c) as nat)
        } else {
            decimal(c as nat)
        }) + ")"@,
        None => "None"@,
    }
}

/// The description of a post-processing error.
pub open spec fn error_description(e: PostProcessError) -> Seq<char> {
    match e {
        PostProcessError::SpawnFailed(m) => "failed to spawn command: "@ + m@,
        PostProcessError::WriteFailed(m) => "failed to write to stdin: "@ + m@,
        PostProcessError::Timeout(secs) => "command timed out after "@ + decimal(secs as nat) + "s"@,
        PostProcessError::WaitFailed(m) => "failed to wait for command: "@ + m@,
        PostProcessError::NonZeroExit { code, stderr } => if stderr@.len() == 0 {
            "command exited with code "@ + debug_exit_code(code)
        } else {
            "command exited with code "@ + debug_exit_code(code) + ": "@ + stderr@
        },
        PostProcessError::InvalidUtf8(m) => "output is not valid UTF-8: "@ + m@,
    }
}

fn exit_code_chars(code: Option<i32>) -> (r: Vec<char>)
    ensures
        r@ == debug_exit_code(code),
{
    match code {
        Some(c) => {
            let mut r = chars_of("Some(");
            if c < 0 {
                push_str_chars(&mut r, "-");
                let magnitude: u64 = (-(c as i64)) as u64;
                let d = decimal_chars(magnitude);
                append_chars(&mut r, &d);
            } else {
                let d = decimal_chars(c as u64);
                append_chars(&mut r, &d);
            }
            push_str_chars(&mut r, ")");
            r
        },
        None => chars_of("None"),
    }
}

impl PostProcessError {
    /// Describe the error for the log.
    pub fn describe(&self) -> (r: String)
        ensures
            r@ == error_description(*self),
    {
        let mut buf: Vec<char> = Vec::new();
        match self {
            PostProcessError::SpawnFailed(m) => {
                push_str_chars(&mut buf, "failed to spawn command: ");
                push_str_chars(&mut buf, m.as_str());
            },
            PostProcessError::WriteFailed(m) => {
                push_str_chars(&mut buf, "failed to write to stdin: ");
                push_str_chars(&mut buf, m.as_str());
            },
            PostProcessError::Timeout(secs) => {
                push_str_chars(&mut buf, "command timed out after ");
                let d = decimal_chars(*secs);
                append_chars(&mut buf, &d);
                push_str_chars(&mut buf, "s");
            },
            PostProcessError::WaitFailed(m) => {
                push_str_chars(&mut buf, "failed to wait for command: ");
                push_str_chars(&mut buf, m.as_str());
            },
            PostProcessError::NonZeroExit { code, stderr } => {
                push_str_chars(&mut buf, "command exited with code ");
                let c = exit_code_chars(*code);
                append_chars(&mut buf, &c);
                if !stderr.as_str().is_empty() {
                    push_str_chars(&mut buf, ": ");
                    push_str_chars(&mut buf, stderr.as_str());
                }
            },
            PostProcessError::InvalidUtf8(m) => {
                push_str_chars(&mut buf, "output is not valid UTF-8: ");
                push_str_chars(&mut buf, m.as_str());
            },
        }
        string_from_chars(&buf)
    }
}

} // verus!

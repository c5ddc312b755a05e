//! dotool-based text output.
//!
//! dotool simulates keyboard input with keyboard layout support; it reads
//! commands such as `type <text>` on its standard input.

use vstd::prelude::*;

use crate::error::OutputError;
use crate::text::{
    append_chars, chars_of, contains_chars, contains_text, decimal, decimal_chars, push_str_chars,
    string_from_chars,
};

verus! {

/// dotool-based text output with keyboard layout support
#[derive(Debug, Clone)]
pub struct DotoolOutput {
    /// Delay between keypresses in milliseconds
    pub type_delay_ms: u32,
    /// Delay before typing starts in milliseconds
    pub pre_type_delay_ms: u32,
    /// Whether to show a desktop notification
    pub notify: bool,
    /// Whether to send Enter key after output
    pub auto_submit: bool,
    /// Text to append after transcription (before auto_submit)
    pub append_text: Option<String>,
    /// Keyboard layout (e.g., "de" for German, "fr" for French)
    pub xkb_layout: Option<String>,
    /// Keyboard layout variant (e.g., "nodeadkeys")
    pub xkb_variant: Option<String>,
}

/// The commands sent to dotool to type `text`: the delays (when set), the
/// text, the appended text (when configured), and Enter (when auto-submitting).
pub open spec fn dotool_commands(o: DotoolOutput, text: Seq<char>) -> Seq<char> {
    let delays = if o.type_delay_ms > 0 {
        "typedelay "@ + decimal(o.type_delay_ms as nat) + "\n"@ + "typehold "@ + decimal(
            o.type_delay_ms as nat,
        ) + "\n"@
    } else {
        seq![]
    };
    let append = match o.append_text {
        Some(a) => "type "@ + a@ + "\n"@,
        None => seq![],
    };
    let enter = if o.auto_submit {
        "key enter\n"@
    } else {
        seq![]
    };
    delays + "type "@ + text + "\n"@ + append + enter
}

/// The error reported when dotool exits unsuccessfully with the given error output.
pub open spec fn dotool_failure_message(stderr: Seq<char>) -> Seq<char> {
    if contains_text(stderr, "uinput"@) || contains_text(stderr, "permission"@) {
        "dotool: uinput permission denied. Is user in 'input' group?"@
    } else {
        "dotool exited with error: "@ + stderr
    }
}

impl DotoolOutput {
    /// Create a new dotool output
    pub fn new(
        type_delay_ms: u32,
        pre_type_delay_ms: u32,
        notify: bool,
        auto_submit: bool,
        append_text: Option<String>,
        xkb_layout: Option<String>,
        xkb_variant: Option<String>,
    ) -> (r: Self)
        ensures
            r == (DotoolOutput {
                type_delay_ms,
                pre_type_delay_ms,
                notify,
                auto_submit,
                append_text,
                xkb_layout,
                xkb_variant,
            }),
    {
        DotoolOutput {
            type_delay_ms,
            pre_type_delay_ms,
            notify,
            auto_submit,
            append_text,
            xkb_layout,
            xkb_variant,
        }
    }

    /// The commands that type a transcription; an empty text types nothing
    /// and needs no dotool run.
    pub fn commands_for(&self, text: &str) -> (r: Option<String>)
        ensures
            text@.len() == 0 ==> r is None,
            text@.len() > 0 ==> (r matches Some(c) && c@ == dotool_commands(*self, text@)),
    {
        if text.is_empty() {
            None
        } else {
            Some(self.build_commands(text))
        }
    }

    /// Build the dotool command string to send via stdin
    pub fn build_commands(&self, text: &str) -> (r: String)
        ensures
            r@ == dotool_commands(*self, text@),
    {
        let mut commands: Vec<char> = Vec::new();
        if self.type_delay_ms > 0 {
            let delay = decimal_chars(self.type_delay_ms as u64);
            push_str_chars(&mut commands, "typedelay ");
            append_chars(&mut commands, &delay);
            push_str_chars(&mut commands, "\n");
            push_str_chars(&mut commands, "typehold ");
            append_chars(&mut commands, &delay);
            push_str_chars(&mut commands, "\n");
        }
        let ghost delays = commands@;
        push_str_chars(&mut commands, "type ");
        push_str_chars(&mut commands, text);
        push_str_chars(&mut commands, "\n");
        let ghost typed = commands@;
        match &self.append_text {
            Some(append) => {
                push_str_chars(&mut commands, "type ");
                push_str_chars(&mut commands, append.as_str());
                push_str_chars(&mut commands, "\n");
            },
            None => {},
        }
        let ghost appended = commands@;
        if self.auto_submit {
            push_str_chars(&mut commands, "key enter\n");
        }
        proof {
            let append_part: Seq<char> = match &self.append_text {
                Some(a) => "type "@ + a@ + "\n"@,
                None => seq![],
            };
            let enter_part = if self.auto_submit {
                "key enter\n"@
            } else {
                seq![]
            };
            assert(typed =~= delays + "type "@ + text@ + "\n"@);
            assert(appended =~= typed + append_part);
            assert(commands@ =~= appended + enter_part);
            assert(commands@ =~= dotool_commands(*self, text@));
        }
        string_from_chars(&commands)
    }
}

/// The error for an unsuccessful dotool run: a permission hint when its error
/// output mentions `uinput` or `permission`, otherwise the error output itself.
pub fn dotool_failure(stderr: &str) -> (e: OutputError)
    ensures
        e matches OutputError::InjectionFailed(m) && m@ == dotool_failure_message(stderr@),
{
    let err = chars_of(stderr);
    let uinput = chars_of("uinput");
    let permission = chars_of("permission");
    if contains_chars(&err, &uinput) || contains_chars(&err, &permission) {
        OutputError::InjectionFailed(
            string_from_chars(&chars_of("dotool: uinput permission denied. Is user in 'input' group?")),
        )
    } else {
        let mut m = chars_of("dotool exited with error: ");
        append_chars(&mut m, &err);
        OutputError::InjectionFailed(string_from_chars(&m))
    }
}

/// The notification preview for dotool: the first 100 characters, followed by
/// `...` when the text is longer than 100 bytes of UTF-8.
pub open spec fn dotool_preview_text(text: &str) -> Seq<char> {
    let head = if text@.len() > 100 {
        text@.take(100)
    } else {
        text@
    };
    if text.len() > 100 {
        head + "..."@
    } else {
        head
    }
}

pub fn dotool_notification_preview(text: &str) -> (r: String)
    ensures
        r@ == dotool_preview_text(text),
{
    let chars = chars_of(text);
    let mut head: Vec<char> = Vec::new();
    let mut i: usize = 0;
    while i < chars.len() && i < 100
        invariant
            chars@ == text@,
            i <= chars@.len(),
            i <= 100,
            head@ == text@.take(i as int),
        decreases chars.len() - i,
    {
        head.push(chars[i]);
        i += 1;
        assert(head@ =~= text@.take(i as int));
    }
    assert(text@.len() <= 100 ==> text@.take(i as int) =~= text@);
    assert(text@.len() > 100 ==> i == 100);
    if text.len() > 100 {
        push_str_chars(&mut head, "...");
    }
    string_from_chars(&head)
}

} // verus!

//! Text output: which outputs to try, in which order, and the text they receive.
//!
//! Fallback chain for `mode = "type"`:
//! 1. wtype - Wayland-native via virtual-keyboard protocol
//! 2. eitype - Wayland via libei/EI protocol
//! 3. dotool - X11/Wayland/TTY, supports keyboard layouts
//! 4. ydotool - X11/Wayland/TTY, requires daemon
//! 5. clipboard (wl-copy) - Wayland clipboard fallback
//! 6. xclip - X11 clipboard fallback

pub mod clipboard;
pub mod dotool;
pub mod drivers;
pub mod post_process;

use std::borrow::Cow;

use vstd::prelude::*;

use crate::config::{OutputConfig, OutputDriver, OutputMode, TranscriptionEngine};
use crate::text::{append_chars, chars_of, push_str_chars, string_from_chars};
use clipboard::ClipboardOutput;
use dotool::DotoolOutput;
use drivers::{EitypeOutput, PasteOutput, WtypeOutput, XclipOutput, YdotoolOutput};

verus! {

// ---------------------------------------------------------------------------
// Quote normalization
// ---------------------------------------------------------------------------

/// Curly single quotes and primes, typed as an ASCII apostrophe.
pub open spec fn is_curly_single(c: char) -> bool {
    c == '\u{2018}' || c == '\u{2019}' || c == '\u{201B}' || c == '\u{2032}'
}

/// Curly double quotes and double primes, typed as an ASCII double quote.
pub open spec fn is_curly_double(c: char) -> bool {
    c == '\u{201C}' || c == '\u{201D}' || c == '\u{201F}' || c == '\u{2033}'
}

pub open spec fn straight_quote(c: char) -> char {
    if is_curly_single(c) {
        '\''
    } else if is_curly_double(c) {
        '"'
    } else {
        c
    }
}

pub open spec fn has_curly_quote(s: Seq<char>) -> bool {
    exists|i: int| 0 <= i < s.len() && (is_curly_single(#[trigger] s[i]) || is_curly_double(s[i]))
}

/// The text with every curly quote replaced by its ASCII counterpart.
pub open spec fn straightened(s: Seq<char>) -> Seq<char> {
    Seq::new(s.len(), |i: int| straight_quote(s[i]))
}

/// Normalize Unicode curly quotes to ASCII equivalents.
///
/// Keyboard simulation tools can mistype curly quotes, so they are replaced by
/// `'` and `"`. A text without curly quotes is returned borrowed, unchanged.
pub fn normalize_quotes(text: &str) -> (r: Cow<'_, str>)
    ensures
        r@ == straightened(text@),
        (r matches Cow::Borrowed(_)) == !has_curly_quote(text@),
{
    let chars = chars_of(text);
    let mut needs_normalization = false;
    let mut i: usize = 0;
    while i < chars.len()
        invariant
            chars@ == text@,
            i <= chars.len(),
            needs_normalization == exists|j: int|
                0 <= j < i && (is_curly_single(#[trigger] chars@[j]) || is_curly_double(chars@[j])),
        decreases chars.len() - i,
    {
        let c = chars[i];
        if c == '\u{2018}' || c == '\u{2019}' || c == '\u{201B}' || c == '\u{2032}' || c == '\u{201C}'
            || c == '\u{201D}' || c == '\u{201F}' || c == '\u{2033}' {
            needs_normalization = true;
        }
        i += 1;
    }
    if !needs_normalization {
        assert(text@ =~= straightened(text@));
        return Cow::Borrowed(text);
    }
    let mut out: Vec<char> = Vec::new();
    let mut k: usize = 0;
    while k < chars.len()
        invariant
            chars@ == text@,
            k <= chars.len(),
            out@ == straightened(text@).take(k as int),
        decreases chars.len() - k,
    {
        let c = chars[k];
        let m = if c == '\u{2018}' || c == '\u{2019}' || c == '\u{201B}' || c == '\u{2032}' {
            '\''
        } else if c == '\u{201C}' || c == '\u{201D}' || c == '\u{201F}' || c == '\u{2033}' {
            '"'
        } else {
            c
        };
        out.push(m);
        k += 1;
        assert(out@ =~= straightened(text@).take(k as int));
    }
    assert(straightened(text@).take(k as int) =~= straightened(text@));
    Cow::Owned(string_from_chars(&out))
}

/// Normalized text holds no curly quote, keeps every position (one character
/// for one character), and normalizing it again changes nothing.
pub proof fn lemma_normalized_text_is_straight(s: Seq<char>)
    ensures
        !has_curly_quote(straightened(s)),
        straightened(s).len() == s.len(),
        forall|i: int|
            0 <= i < s.len() && !is_curly_single(s[i]) && !is_curly_double(s[i]) ==> #[trigger] straightened(s)[i]
                == s[i],
        straightened(straightened(s)) == straightened(s),
{
    assert(straightened(straightened(s)) =~= straightened(s));
}

// ---------------------------------------------------------------------------
// Notifications
// ---------------------------------------------------------------------------

/// The icon shown for each transcription engine.
pub open spec fn engine_icon_text(engine: TranscriptionEngine) -> Seq<char> {
    match engine {
        TranscriptionEngine::Parakeet => "\u{1F99C}"@,
        TranscriptionEngine::Whisper => "\u{1F5E3}\u{FE0F}"@,
        TranscriptionEngine::Moonshine => "\u{1F319}"@,
        TranscriptionEngine::SenseVoice => "\u{1F442}"@,
        TranscriptionEngine::Paraformer => "\u{1F4AC}"@,
        TranscriptionEngine::Dolphin => "\u{1F42C}"@,
        TranscriptionEngine::Omnilingual => "\u{1F30D}"@,
    }
}

/// Get the engine icon for notifications based on configured engine
pub fn engine_icon(engine: TranscriptionEngine) -> (r: &'static str)
    ensures
        r@ == engine_icon_text(engine),
{
    match engine {
        TranscriptionEngine::Parakeet => "\u{1F99C}",
        TranscriptionEngine::Whisper => "\u{1F5E3}\u{FE0F}",
        TranscriptionEngine::Moonshine => "\u{1F319}",
        TranscriptionEngine::SenseVoice => "\u{1F442}",
        TranscriptionEngine::Paraformer => "\u{1F4AC}",
        TranscriptionEngine::Dolphin => "\u{1F42C}",
        TranscriptionEngine::Omnilingual => "\u{1F30D}",
    }
}

/// A notification preview: texts longer than `max` characters are cut to
/// their first `max` characters followed by `...`.
pub open spec fn preview_text(text: Seq<char>, max: nat) -> Seq<char> {
    if text.len() > max {
        text.take(max as int) + "..."@
    } else {
        text
    }
}

/// The preview of a text for a notification, at most `max_chars` characters
/// (plus `...` when cut).
pub fn notification_preview(text: &str, max_chars: usize) -> (r: String)
    ensures
        r@ == preview_text(text@, max_chars as nat),
{
    let chars = chars_of(text);
    if chars.len() > max_chars {
        let mut out: Vec<char> = Vec::new();
        let mut i: usize = 0;
        while i < max_chars
            invariant
                chars@ == text@,
                max_chars < chars.len(),
                i <= max_chars,
                out@ == text@.take(i as int),
            decreases max_chars - i,
        {
            out.push(chars[i]);
            i += 1;
            assert(out@ =~= text@.take(i as int));
        }
        push_str_chars(&mut out, "...");
        string_from_chars(&out)
    } else {
        string_from_chars(&chars)
    }
}

/// The title of a transcription notification.
pub open spec fn transcription_title(show_engine_icon: bool, engine: TranscriptionEngine) -> Seq<
    char,
> {
    if show_engine_icon {
        engine_icon_text(engine) + " Transcribed"@
    } else {
        "Transcribed"@
    }
}

/// The title and body of the notification shown after a transcription: the
/// title carries the engine icon when asked to, the body previews the text
/// (80 characters).
pub fn transcription_notification(text: &str, show_engine_icon: bool, engine: TranscriptionEngine) -> (r:
    (String, String))
    ensures
        r.0@ == transcription_title(show_engine_icon, engine),
        r.1@ == preview_text(text@, 80),
{
    let preview = notification_preview(text, 80);
    let title = if show_engine_icon {
        let mut t = chars_of(engine_icon(engine));
        push_str_chars(&mut t, " Transcribed");
        string_from_chars(&t)
    } else {
        string_from_chars(&chars_of("Transcribed"))
    };
    (title, preview)
}

// ---------------------------------------------------------------------------
// The output chain
// ---------------------------------------------------------------------------

/// One way of delivering text, with its settings.
#[derive(Debug, Clone)]
pub enum OutputMethod {
    Wtype(WtypeOutput),
    Eitype(EitypeOutput),
    Dotool(DotoolOutput),
    Ydotool(YdotoolOutput),
    Clipboard(ClipboardOutput),
    Xclip(XclipOutput),
    Paste(PasteOutput),
}

/// Output configuration for the fallback chain
pub struct OutputOptions<'a> {
    pub pre_output_command: Option<&'a str>,
    pub post_output_command: Option<&'a str>,
}

/// Default driver order for type mode
pub open spec fn default_driver_order() -> Seq<OutputDriver> {
    seq![
        OutputDriver::Wtype,
        OutputDriver::Eitype,
        OutputDriver::Dotool,
        OutputDriver::Ydotool,
        OutputDriver::Clipboard,
        OutputDriver::Xclip,
    ]
}

/// The output for one driver; only the first driver of the chain may notify.
pub open spec fn driver_output(
    driver: OutputDriver,
    config: OutputConfig,
    pre_type_delay_ms: u32,
    is_first: bool,
) -> OutputMethod {
    let show_notification = is_first && config.notification.after_post_process;
    match driver {
        OutputDriver::Wtype => OutputMethod::Wtype(
            WtypeOutput {
                auto_submit: config.auto_submit,
                append_text: config.append_text,
                type_delay_ms: config.type_delay_ms,
                pre_type_delay_ms,
                shift_enter_newlines: config.shift_enter_newlines,
            },
        ),
        OutputDriver::Eitype => OutputMethod::Eitype(
            EitypeOutput {
                auto_submit: config.auto_submit,
                append_text: config.append_text,
                type_delay_ms: config.type_delay_ms,
                pre_type_delay_ms,
                shift_enter_newlines: config.shift_enter_newlines,
            },
        ),
        OutputDriver::Dotool => OutputMethod::Dotool(
            DotoolOutput {
                type_delay_ms: config.type_delay_ms,
                pre_type_delay_ms,
                notify: show_notification,
                auto_submit: config.auto_submit,
                append_text: config.append_text,
                xkb_layout: config.dotool_xkb_layout,
                xkb_variant: config.dotool_xkb_variant,
            },
        ),
        OutputDriver::Ydotool => OutputMethod::Ydotool(
            YdotoolOutput {
                type_delay_ms: config.type_delay_ms,
                pre_type_delay_ms,
                notify: show_notification,
                auto_submit: config.auto_submit,
                append_text: config.append_text,
            },
        ),
        OutputDriver::Clipboard => OutputMethod::Clipboard(
            ClipboardOutput { notify: show_notification, append_text: config.append_text },
        ),
        OutputDriver::Xclip => OutputMethod::Xclip(
            XclipOutput { notify: show_notification, append_text: config.append_text },
        ),
    }
}

/// Whether driver `i` of `order` is used: the clipboard is skipped in the
/// middle of the order unless clipboard fallback is enabled.
pub open spec fn driver_kept(order: Seq<OutputDriver>, i: int, fallback_to_clipboard: bool) -> bool {
    !(order[i] == OutputDriver::Clipboard && i != order.len() - 1 && !fallback_to_clipboard)
}

/// The outputs for the first `n` drivers of `order`.
pub open spec fn typing_chain(order: Seq<OutputDriver>, config: OutputConfig, n: int) -> Seq<
    OutputMethod,
>
    decreases n,
{
    if n <= 0 {
        seq![]
    } else {
        let prev = typing_chain(order, config, n - 1);
        if driver_kept(order, n - 1, config.fallback_to_clipboard) {
            prev.push(driver_output(order[n - 1], config, config.effective_pre_type_delay(), n - 1 == 0))
        } else {
            prev
        }
    }
}

/// The driver order in effect: the override, else the configured order, else the default.
pub open spec fn effective_driver_order(config: OutputConfig, driver_override: Option<Seq<OutputDriver>>) -> Seq<
    OutputDriver,
> {
    match driver_override {
        Some(o) => o,
        None => match config.driver_order {
            Some(o) => o@,
            None => default_driver_order(),
        },
    }
}

/// The fallback chain of outputs for a configuration.
pub open spec fn output_chain(config: OutputConfig, driver_override: Option<Seq<OutputDriver>>) -> Seq<
    OutputMethod,
> {
    match config.mode {
        OutputMode::Type => {
            let order = effective_driver_order(config, driver_override);
            let trailing = if config.fallback_to_clipboard && config.driver_order is Some
                && !order.contains(OutputDriver::Clipboard) {
                seq![
                    OutputMethod::Clipboard(
                        ClipboardOutput { notify: false, append_text: config.append_text },
                    ),
                ]
            } else {
                seq![]
            };
            typing_chain(order, config, order.len() as int) + trailing
        },
        OutputMode::Paste => seq![
            OutputMethod::Paste(
                PasteOutput {
                    auto_submit: config.auto_submit,
                    append_text: config.append_text,
                    paste_keys: config.paste_keys,
                    type_delay_ms: config.type_delay_ms,
                    pre_type_delay_ms: config.effective_pre_type_delay(),
                    restore_clipboard: config.restore_clipboard,
                    restore_clipboard_delay_ms: config.restore_clipboard_delay_ms,
                },
            ),
        ],
        // Clipboard mode, and file mode without a file (which falls back to the clipboard)
        _ => seq![
            OutputMethod::Clipboard(
                ClipboardOutput {
                    notify: config.notification.after_post_process,
                    append_text: config.append_text,
                },
            ),
        ],
    }
}

/// Whether an output shows a desktop notification after delivering.
pub open spec fn notifies(m: OutputMethod) -> bool {
    match m {
        OutputMethod::Dotool(o) => o.notify,
        OutputMethod::Ydotool(o) => o.notify,
        OutputMethod::Clipboard(o) => o.notify,
        OutputMethod::Xclip(o) => o.notify,
        _ => false,
    }
}

proof fn lemma_typing_chain_notifies_first(order: Seq<OutputDriver>, config: OutputConfig, n: int)
    requires
        0 <= n <= order.len(),
    ensures
        forall|j: int|
            0 < j < typing_chain(order, config, n).len() ==> !notifies(
                #[trigger] typing_chain(order, config, n)[j],
            ),
    decreases n,
{
    if n > 0 {
        lemma_typing_chain_notifies_first(order, config, n - 1);
        let prev = typing_chain(order, config, n - 1);
        let added = driver_output(order[n - 1], config, config.effective_pre_type_delay(), n - 1 == 0);
        if n - 1 > 0 {
            assert(!notifies(added));
        } else {
            assert(prev.len() == 0);
        }
        if driver_kept(order, n - 1, config.fallback_to_clipboard) {
            assert forall|j: int| 0 < j < prev.push(added).len() implies !notifies(
                #[trigger] prev.push(added)[j],
            ) by {
                if j < prev.len() {
                    assert(prev.push(added)[j] == prev[j]);
                }
            }
        }
    }
}

/// Only the first output of a chain may notify: a notification is shown once,
/// whichever output ends up delivering the text.
pub proof fn lemma_only_first_output_notifies(
    config: OutputConfig,
    driver_override: Option<Seq<OutputDriver>>,
)
    ensures
        forall|j: int|
            0 < j < output_chain(config, driver_override).len() ==> !notifies(
                #[trigger] output_chain(config, driver_override)[j],
            ),
{
    if config.mode == OutputMode::Type {
        let order = effective_driver_order(config, driver_override);
        lemma_typing_chain_notifies_first(order, config, order.len() as int);
    }
}

/// An output carries the configured settings: every setting it has is the
/// one of the configuration (the delay before typing being the effective one).
pub open spec fn carries_settings(m: OutputMethod, config: OutputConfig) -> bool {
    let delay = config.effective_pre_type_delay();
    match m {
        OutputMethod::Wtype(o) => {
            &&& o.auto_submit == config.auto_submit
            &&& o.append_text == config.append_text
            &&& o.type_delay_ms == config.type_delay_ms
            &&& o.pre_type_delay_ms == delay
            &&& o.shift_enter_newlines == config.shift_enter_newlines
        },
        OutputMethod::Eitype(o) => {
            &&& o.auto_submit == config.auto_submit
            &&& o.append_text == config.append_text
            &&& o.type_delay_ms == config.type_delay_ms
            &&& o.pre_type_delay_ms == delay
            &&& o.shift_enter_newlines == config.shift_enter_newlines
        },
        OutputMethod::Dotool(o) => {
            &&& o.auto_submit == config.auto_submit
            &&& o.append_text == config.append_text
            &&& o.type_delay_ms == config.type_delay_ms
            &&& o.pre_type_delay_ms == delay
            &&& o.xkb_layout == config.dotool_xkb_layout
            &&& o.xkb_variant == config.dotool_xkb_variant
        },
        OutputMethod::Ydotool(o) => {
            &&& o.auto_submit == config.auto_submit
            &&& o.append_text == config.append_text
            &&& o.type_delay_ms == config.type_delay_ms
            &&& o.pre_type_delay_ms == delay
        },
        OutputMethod::Clipboard(o) => o.append_text == config.append_text,
        OutputMethod::Xclip(o) => o.append_text == config.append_text,
        OutputMethod::Paste(o) => {
            &&& o.auto_submit == config.auto_submit
            &&& o.append_text == config.append_text
            &&& o.paste_keys == config.paste_keys
            &&& o.type_delay_ms == config.type_delay_ms
            &&& o.pre_type_delay_ms == delay
            &&& o.restore_clipboard == config.restore_clipboard
            &&& o.restore_clipboard_delay_ms == config.restore_clipboard_delay_ms
        },
    }
}

proof fn lemma_typing_chain_carries_settings(order: Seq<OutputDriver>, config: OutputConfig, n: int)
    requires
        0 <= n <= order.len(),
    ensures
        forall|j: int|
            0 <= j < typing_chain(order, config, n).len() ==> carries_settings(
                #[trigger] typing_chain(order, config, n)[j],
                config,
            ),
    decreases n,
{
    if n > 0 {
        lemma_typing_chain_carries_settings(order, config, n - 1);
        let prev = typing_chain(order, config, n - 1);
        let added = driver_output(order[n - 1], config, config.effective_pre_type_delay(), n - 1 == 0);
        assert(carries_settings(added, config));
        if driver_kept(order, n - 1, config.fallback_to_clipboard) {
            assert forall|j: int| 0 <= j < prev.push(added).len() implies carries_settings(
                #[trigger] prev.push(added)[j],
                config,
            ) by {
                if j < prev.len() {
                    assert(prev.push(added)[j] == prev[j]);
                }
            }
        }
    }
}

/// Every output of a chain carries the configured settings: whether Enter
/// is pressed, the appended text, the typing delays, Shift+Enter newlines,
/// the dotool keyboard layout and the paste settings.
pub proof fn lemma_chain_carries_configured_settings(
    config: OutputConfig,
    driver_override: Option<Seq<OutputDriver>>,
)
    ensures
        forall|j: int|
            0 <= j < output_chain(config, driver_override).len() ==> carries_settings(
                #[trigger] output_chain(config, driver_override)[j],
                config,
            ),
{
    if config.mode == OutputMode::Type {
        let order = effective_driver_order(config, driver_override);
        lemma_typing_chain_carries_settings(order, config, order.len() as int);
        let t = typing_chain(order, config, order.len() as int);
        let chain = output_chain(config, driver_override);
        assert forall|j: int| 0 <= j < chain.len() implies carries_settings(#[trigger] chain[j], config) by {
            if j < t.len() {
                assert(chain[j] == t[j]);
            }
        }
    }
}

fn default_drivers() -> (r: Vec<OutputDriver>)
    ensures
        r@ == default_driver_order(),
{
    let mut r: Vec<OutputDriver> = Vec::new();
    r.push(OutputDriver::Wtype);
    r.push(OutputDriver::Eitype);
    r.push(OutputDriver::Dotool);
    r.push(OutputDriver::Ydotool);
    r.push(OutputDriver::Clipboard);
    r.push(OutputDriver::Xclip);
    assert(r@ =~= default_driver_order());
    r
}

fn copy_drivers(o: &[OutputDriver]) -> (r: Vec<OutputDriver>)
    ensures
        r@ == o@,
{
    let mut r: Vec<OutputDriver> = Vec::new();
    let mut i: usize = 0;
    while i < o.len()
        invariant
            i <= o@.len(),
            r@ == o@.take(i as int),
        decreases o.len() - i,
    {
        r.push(o[i]);
        i += 1;
        assert(r@ =~= o@.take(i as int));
    }
    assert(o@.take(i as int) =~= o@);
    r
}

fn contains_driver(order: &Vec<OutputDriver>, driver: OutputDriver) -> (r: bool)
    ensures
        r == order@.contains(driver),
{
    let mut i: usize = 0;
    while i < order.len()
        invariant
            i <= order@.len(),
            forall|j: int| 0 <= j < i ==> order@[j] != driver,
        decreases order.len() - i,
    {
        if order[i] == driver {
            return true;
        }
        i += 1;
    }
    false
}

/// Create the output for a specific driver
fn create_driver_output(
    driver: OutputDriver,
    config: &OutputConfig,
    pre_type_delay_ms: u32,
    is_first: bool,
) -> (r: OutputMethod)
    ensures
        r == driver_output(driver, *config, pre_type_delay_ms, is_first),
{
    // Only the first driver in the chain should show notifications
    let show_notification = is_first && config.notification.after_post_process;
    match driver {
        OutputDriver::Wtype => OutputMethod::Wtype(
            WtypeOutput {
                auto_submit: config.auto_submit,
                append_text: config.append_text.clone(),
                type_delay_ms: config.type_delay_ms,
                pre_type_delay_ms,
                shift_enter_newlines: config.shift_enter_newlines,
            },
        ),
        OutputDriver::Eitype => OutputMethod::Eitype(
            EitypeOutput {
                auto_submit: config.auto_submit,
                append_text: config.append_text.clone(),
                type_delay_ms: config.type_delay_ms,
                pre_type_delay_ms,
                shift_enter_newlines: config.shift_enter_newlines,
            },
        ),
        OutputDriver::Dotool => OutputMethod::Dotool(
            DotoolOutput::new(
                config.type_delay_ms,
                pre_type_delay_ms,
                show_notification,
                config.auto_submit,
                config.append_text.clone(),
                config.dotool_xkb_layout.clone(),
                config.dotool_xkb_variant.clone(),
            ),
        ),
        OutputDriver::Ydotool => OutputMethod::Ydotool(
            YdotoolOutput {
                type_delay_ms: config.type_delay_ms,
                pre_type_delay_ms,
                notify: show_notification,
                auto_submit: config.auto_submit,
                append_text: config.append_text.clone(),
            },
        ),
        OutputDriver::Clipboard => OutputMethod::Clipboard(
            ClipboardOutput::new(show_notification, config.append_text.clone()),
        ),
        OutputDriver::Xclip => OutputMethod::Xclip(
            XclipOutput { notify: show_notification, append_text: config.append_text.clone() },
        ),
    }
}

/// Factory function that returns a fallback chain of output methods
pub fn create_output_chain(config: &OutputConfig) -> (r: Vec<OutputMethod>)
    ensures
        r@ == output_chain(*config, None),
{
    create_output_chain_with_override(config, None)
}

/// Factory function that returns a fallback chain of output methods with an
/// optional driver order override.
pub fn create_output_chain_with_override(
    config: &OutputConfig,
    driver_override: Option<&[OutputDriver]>,
) -> (r: Vec<OutputMethod>)
    ensures
        r@ == output_chain(
            *config,
            match driver_override {
                Some(o) => Some(o@),
                None => None,
            },
        ),
{
    let mut chain: Vec<OutputMethod> = Vec::new();
    // The delay before typing, with the deprecated `wtype_delay_ms` as fallback
    let pre_type_delay_ms = config.effective_pre_type_delay_ms();
    match config.mode {
        OutputMode::Type => {
            // Determine driver order: CLI override > config > default
            let order: Vec<OutputDriver> = match driver_override {
                Some(o) => copy_drivers(o),
                None => match &config.driver_order {
                    Some(o) => copy_drivers(o.as_slice()),
                    None => default_drivers(),
                },
            };
            let ghost spec_override = match driver_override {
                Some(o) => Some(o@),
                None => None,
            };
            assert(order@ == effective_driver_order(*config, spec_override));
            let mut i: usize = 0;
            while i < order.len()
                invariant
                    i <= order@.len(),
                    pre_type_delay_ms == config.effective_pre_type_delay(),
                    chain@ == typing_chain(order@, *config, i as int),
                decreases order.len() - i,
            {
                let driver = order[i];
                // Skip clipboard in the middle when fallback_to_clipboard is false
                let is_last = i == order.len() - 1;
                if !(driver == OutputDriver::Clipboard && !is_last && !config.fallback_to_clipboard) {
                    chain.push(create_driver_output(driver, config, pre_type_delay_ms, i == 0));
                }
                i += 1;
            }
            // If fallback_to_clipboard is true but clipboard wasn't in the custom order, add it
            if config.fallback_to_clipboard && config.driver_order.is_some() && !contains_driver(
                &order,
                OutputDriver::Clipboard,
            ) {
                chain.push(
                    OutputMethod::Clipboard(ClipboardOutput::new(false, config.append_text.clone())),
                );
            }
            assert(chain@ =~= output_chain(*config, spec_override));
        },
        OutputMode::Clipboard | OutputMode::File => {
            chain.push(
                OutputMethod::Clipboard(
                    ClipboardOutput::new(
                        config.notification.after_post_process,
                        config.append_text.clone(),
                    ),
                ),
            );
        },
        OutputMode::Paste => {
            chain.push(
                OutputMethod::Paste(
                    PasteOutput {
                        auto_submit: config.auto_submit,
                        append_text: config.append_text.clone(),
                        paste_keys: config.paste_keys.clone(),
                        type_delay_ms: config.type_delay_ms,
                        pre_type_delay_ms,
                        restore_clipboard: config.restore_clipboard,
                        restore_clipboard_delay_ms: config.restore_clipboard_delay_ms,
                    },
                ),
            );
        },
    }
    chain
}

// ---------------------------------------------------------------------------
// Running the fallback chain
// ---------------------------------------------------------------------------

/// The next thing to do while delivering text through a fallback chain.
#[derive(Debug, Clone, Copy, PartialEq, Eq, Structural)]
pub enum FallbackAction {
    /// Check whether output `i` is available
    Probe(usize),
    /// Deliver the text through output `i`
    Deliver(usize),
    /// Stop: `true` when an output delivered the text
    Finish(bool),
}

/// After output `i` was skipped or failed: the next output, or the end.
pub open spec fn next_in_chain(chain_len: nat, i: nat) -> FallbackAction {
    if i + 1 < chain_len {
        FallbackAction::Probe((i + 1) as usize)
    } else {
        FallbackAction::Finish(false)
    }
}

/// The first step: probe the first output, or finish at once for an empty chain.
pub fn start_fallback(chain_len: usize) -> (r: FallbackAction)
    ensures
        r == (if chain_len == 0 {
            FallbackAction::Finish(false)
        } else {
            FallbackAction::Probe(0)
        }),
{
    if chain_len == 0 {
        FallbackAction::Finish(false)
    } else {
        FallbackAction::Probe(0)
    }
}

fn next_output(chain_len: usize, index: usize) -> (r: FallbackAction)
    requires
        index < chain_len,
    ensures
        r == next_in_chain(chain_len as nat, index as nat),
{
    if index + 1 < chain_len {
        FallbackAction::Probe(index + 1)
    } else {
        FallbackAction::Finish(false)
    }
}

/// After probing output `index`: deliver through it when available, otherwise
/// move on (an unavailable output is never used).
pub fn after_probe(chain_len: usize, index: usize, available: bool) -> (r: FallbackAction)
    requires
        index < chain_len,
    ensures
        r == (if available {
            FallbackAction::Deliver(index)
        } else {
            next_in_chain(chain_len as nat, index as nat)
        }),
{
    if available {
        FallbackAction::Deliver(index)
    } else {
        next_output(chain_len, index)
    }
}

/// After delivering through output `index`: stop on success, otherwise try
/// the next output.
pub fn after_delivery(chain_len: usize, index: usize, delivered: bool) -> (r: FallbackAction)
    requires
        index < chain_len,
    ensures
        r == (if delivered {
            FallbackAction::Finish(true)
        } else {
            next_in_chain(chain_len as nat, index as nat)
        }),
{
    if delivered {
        FallbackAction::Finish(true)
    } else {
        next_output(chain_len, index)
    }
}

/// The outcome of a finished run: success, or `AllMethodsFailed`.
pub fn fallback_result(delivered: bool) -> (r: Result<(), crate::error::OutputError>)
    ensures
        delivered ==> r is Ok,
        !delivered ==> r matches Err(crate::error::OutputError::AllMethodsFailed),
{
    if delivered {
        Ok(())
    } else {
        Err(crate::error::OutputError::AllMethodsFailed)
    }
}

/// One step of a fallback run, as `after_probe` and `after_delivery` take it,
/// when output `i` is available exactly if `available[i]` and delivers
/// exactly if `delivered[i]`.
pub open spec fn fallback_step(
    chain_len: nat,
    action: FallbackAction,
    available: Seq<bool>,
    delivered: Seq<bool>,
) -> FallbackAction {
    match action {
        FallbackAction::Probe(i) => if available[i as int] {
            FallbackAction::Deliver(i)
        } else {
            next_in_chain(chain_len, i as nat)
        },
        FallbackAction::Deliver(i) => if delivered[i as int] {
            FallbackAction::Finish(true)
        } else {
            next_in_chain(chain_len, i as nat)
        },
        FallbackAction::Finish(b) => FallbackAction::Finish(b),
    }
}

/// Where a fallback run stands after `steps` steps from `action`.
pub open spec fn fallback_run(
    chain_len: nat,
    action: FallbackAction,
    available: Seq<bool>,
    delivered: Seq<bool>,
    steps: nat,
) -> FallbackAction
    decreases steps,
{
    if steps == 0 {
        action
    } else {
        fallback_run(
            chain_len,
            fallback_step(chain_len, action, available, delivered),
            available,
            delivered,
            (steps - 1) as nat,
        )
    }
}

/// Some output from `from` on is available and delivers.
pub open spec fn some_output_delivers(from: int, available: Seq<bool>, delivered: Seq<bool>) -> bool {
    exists|i: int| from <= i < available.len() && available[i] && #[trigger] delivered[i]
}

proof fn lemma_finished_run_stays(
    chain_len: nat,
    b: bool,
    available: Seq<bool>,
    delivered: Seq<bool>,
    steps: nat,
)
    ensures
        fallback_run(chain_len, FallbackAction::Finish(b), available, delivered, steps)
            == FallbackAction::Finish(b),
    decreases steps,
{
    if steps > 0 {
        lemma_finished_run_stays(chain_len, b, available, delivered, (steps - 1) as nat);
    }
}

proof fn lemma_run_from_probe(
    chain_len: nat,
    i: nat,
    available: Seq<bool>,
    delivered: Seq<bool>,
    steps: nat,
)
    requires
        available.len() == chain_len,
        delivered.len() == chain_len,
        i < chain_len,
        chain_len <= usize::MAX,
        steps >= 2 * (chain_len - i),
    ensures
        fallback_run(chain_len, FallbackAction::Probe(i as usize), available, delivered, steps)
            == FallbackAction::Finish(some_output_delivers(i as int, available, delivered)),
    decreases chain_len - i,
{
    let probe = FallbackAction::Probe(i as usize);
    let s1 = fallback_step(chain_len, probe, available, delivered);
    let rest = (steps - 1) as nat;
    if available[i as int] {
        let s2 = fallback_step(chain_len, s1, available, delivered);
        let rest2 = (steps - 2) as nat;
        assert(fallback_run(chain_len, probe, available, delivered, steps) == fallback_run(
            chain_len,
            s2,
            available,
            delivered,
            rest2,
        ));
        if delivered[i as int] {
            lemma_finished_run_stays(chain_len, true, available, delivered, rest2);
        } else if i + 1 < chain_len {
            lemma_run_from_probe(chain_len, i + 1, available, delivered, rest2);
            assert(some_output_delivers(i as int, available, delivered) == some_output_delivers(
                (i + 1) as int,
                available,
                delivered,
            ));
        } else {
            lemma_finished_run_stays(chain_len, false, available, delivered, rest2);
        }
    } else {
        if i + 1 < chain_len {
            lemma_run_from_probe(chain_len, i + 1, available, delivered, rest);
            assert(some_output_delivers(i as int, available, delivered) == some_output_delivers(
                (i + 1) as int,
                available,
                delivered,
            ));
        } else {
            lemma_finished_run_stays(chain_len, false, available, delivered, rest);
        }
    }
}

/// Running the fallback chain from `start_fallback` (at most two steps per
/// output) ends in success exactly when some output is available and
/// delivers the text; an unavailable output is never delivered through.
pub proof fn lemma_fallback_succeeds_iff_some_output_delivers(
    chain_len: usize,
    available: Seq<bool>,
    delivered: Seq<bool>,
)
    requires
        available.len() == chain_len,
        delivered.len() == chain_len,
    ensures
        fallback_run(
            chain_len as nat,
            (if chain_len == 0 {
                FallbackAction::Finish(false)
            } else {
                FallbackAction::Probe(0)
            }),
            available,
            delivered,
            2 * chain_len as nat,
        ) == FallbackAction::Finish(some_output_delivers(0, available, delivered)),
{
    if chain_len == 0 {
        lemma_finished_run_stays(0, false, available, delivered, 0);
    } else {
        lemma_run_from_probe(chain_len as nat, 0, available, delivered, 2 * chain_len as nat);
    }
}

} // verus!

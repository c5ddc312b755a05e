use std::borrow::Cow;

use voxtype::config::{NotificationConfig, OutputConfig, OutputDriver, OutputMode, TranscriptionEngine};
use voxtype::error::OutputError;
use voxtype::output::clipboard::ClipboardOutput;
use voxtype::output::dotool::{dotool_failure, DotoolOutput};
use voxtype::output::{
    after_delivery, after_probe, create_output_chain, create_output_chain_with_override,
    engine_icon, fallback_result, normalize_quotes, notification_preview, start_fallback,
    transcription_notification, FallbackAction, OutputMethod,
};

#[test]
fn clipboard_test_new() {
    let output = ClipboardOutput::new(true, None);
    assert!(output.notify);

    let output = ClipboardOutput::new(false, None);
    assert!(!output.notify);
}

#[test]
fn dotool_test_new() {
    let output = DotoolOutput::new(10, 0, true, false, None, Some("de".to_string()), None);
    assert_eq!(output.type_delay_ms, 10);
    assert_eq!(output.pre_type_delay_ms, 0);
    assert!(output.notify);
    assert!(!output.auto_submit);
    assert_eq!(output.xkb_layout, Some("de".to_string()));
}

#[test]
fn test_build_commands_simple() {
    let output = DotoolOutput::new(0, 0, false, false, None, None, None);
    let cmds = output.build_commands("Hello world");
    assert_eq!(cmds, "type Hello world\n");
}

#[test]
fn test_build_commands_with_delay() {
    let output = DotoolOutput::new(10, 0, false, false, None, None, None);
    let cmds = output.build_commands("Test");
    assert!(cmds.contains("typedelay 10"));
    assert!(cmds.contains("typehold 10"));
    assert!(cmds.contains("type Test"));
}

#[test]
fn test_build_commands_with_enter() {
    let output = DotoolOutput::new(0, 0, false, true, None, None, None);
    let cmds = output.build_commands("Test");
    assert!(cmds.contains("type Test"));
    assert!(cmds.contains("key enter"));
}

#[test]
fn build_commands_full_sequence() {
    let output = DotoolOutput::new(250, 0, false, true, Some(" ".to_string()), None, None);
    assert_eq!(
        output.build_commands("Hi"),
        "typedelay 250\ntypehold 250\ntype Hi\ntype  \nkey enter\n"
    );
}

#[test]
fn dotool_failure_hints_at_permissions() {
    match dotool_failure("cannot open /dev/uinput") {
        OutputError::InjectionFailed(m) => {
            assert_eq!(m, "dotool: uinput permission denied. Is user in 'input' group?")
        }
        other => panic!("unexpected {:?}", other),
    }
    match dotool_failure("boom") {
        OutputError::InjectionFailed(m) => assert_eq!(m, "dotool exited with error: boom"),
        other => panic!("unexpected {:?}", other),
    }
}

#[test]
fn clipboard_payload_appends_text() {
    let output = ClipboardOutput::new(false, Some("!".to_string()));
    assert_eq!(output.payload("hey"), Some("hey!".to_string()));
    assert_eq!(output.payload(""), None);
}

#[test]
fn test_normalize_quotes_no_change() {
    let text = "Hello, world! It's a test.";
    let result = normalize_quotes(text);
    assert!(matches!(result, Cow::Borrowed(_)));
    assert_eq!(result, text);
}

#[test]
fn test_normalize_quotes_curly_apostrophe() {
    let text = "It\u{2019}s a test";
    let result = normalize_quotes(text);
    assert!(matches!(result, Cow::Owned(_)));
    assert_eq!(result, "It's a test");
}

#[test]
fn test_normalize_quotes_all_single() {
    let text = "\u{2018}hello\u{2019} \u{201B}world\u{2032}";
    let result = normalize_quotes(text);
    assert_eq!(result, "'hello' 'world'");
}

#[test]
fn test_normalize_quotes_all_double() {
    let text = "\u{201C}hello\u{201D} \u{201F}world\u{2033}";
    let result = normalize_quotes(text);
    assert_eq!(result, "\"hello\" \"world\"");
}

#[test]
fn test_normalize_quotes_mixed() {
    let text = "\u{201C}Don\u{2019}t worry,\u{201D} she said.";
    let result = normalize_quotes(text);
    assert_eq!(result, "\"Don't worry,\" she said.");
}

#[test]
fn test_normalize_quotes_empty() {
    let text = "";
    let result = normalize_quotes(text);
    assert!(matches!(result, Cow::Borrowed(_)));
    assert_eq!(result, "");
}

#[test]
fn test_normalize_quotes_unicode_preserved() {
    let text = "Café \u{2019} emoji 😀";
    let result = normalize_quotes(text);
    assert_eq!(result, "Café ' emoji 😀");
}

#[test]
fn engine_icons() {
    assert_eq!(engine_icon(TranscriptionEngine::Parakeet), "\u{1F99C}");
    assert_eq!(engine_icon(TranscriptionEngine::Whisper), "\u{1F5E3}\u{FE0F}");
    assert_eq!(engine_icon(TranscriptionEngine::Omnilingual), "\u{1F30D}");
}

#[test]
fn notification_previews() {
    assert_eq!(notification_preview("short", 80), "short");
    let long: String = "é".repeat(85);
    let expected = format!("{}...", "é".repeat(80));
    assert_eq!(notification_preview(&long, 80), expected);
    let (title, body) = transcription_notification("hello", true, TranscriptionEngine::Moonshine);
    assert_eq!(title, "\u{1F319} Transcribed");
    assert_eq!(body, "hello");
    let (title, _) = transcription_notification("hello", false, TranscriptionEngine::Moonshine);
    assert_eq!(title, "Transcribed");
}

fn config(mode: OutputMode) -> OutputConfig {
    OutputConfig {
        mode,
        driver_order: None,
        fallback_to_clipboard: false,
        auto_submit: false,
        append_text: None,
        type_delay_ms: 0,
        pre_type_delay_ms: 0,
        wtype_delay_ms: None,
        shift_enter_newlines: false,
        dotool_xkb_layout: None,
        dotool_xkb_variant: None,
        paste_keys: None,
        restore_clipboard: false,
        restore_clipboard_delay_ms: 0,
        notification: NotificationConfig { after_post_process: true },
    }
}

fn kinds(chain: &[OutputMethod]) -> Vec<&'static str> {
    chain
        .iter()
        .map(|m| match m {
            OutputMethod::Wtype(_) => "wtype",
            OutputMethod::Eitype(_) => "eitype",
            OutputMethod::Dotool(_) => "dotool",
            OutputMethod::Ydotool(_) => "ydotool",
            OutputMethod::Clipboard(_) => "clipboard",
            OutputMethod::Xclip(_) => "xclip",
            OutputMethod::Paste(_) => "paste",
        })
        .collect()
}

#[test]
fn default_chain_skips_middle_clipboard_without_fallback() {
    let chain = create_output_chain(&config(OutputMode::Type));
    assert_eq!(kinds(&chain), vec!["wtype", "eitype", "dotool", "ydotool", "xclip"]);
}

#[test]
fn default_chain_keeps_clipboard_with_fallback() {
    let mut c = config(OutputMode::Type);
    c.fallback_to_clipboard = true;
    let chain = create_output_chain(&c);
    assert_eq!(
        kinds(&chain),
        vec!["wtype", "eitype", "dotool", "ydotool", "clipboard", "xclip"]
    );
}

#[test]
fn only_first_driver_notifies() {
    let mut c = config(OutputMode::Type);
    c.driver_order = Some(vec![OutputDriver::Dotool, OutputDriver::Ydotool]);
    c.fallback_to_clipboard = true;
    let chain = create_output_chain(&c);
    assert_eq!(kinds(&chain), vec!["dotool", "ydotool", "clipboard"]);
    match &chain[0] {
        OutputMethod::Dotool(d) => assert!(d.notify),
        _ => panic!(),
    }
    match &chain[1] {
        OutputMethod::Ydotool(y) => assert!(!y.notify),
        _ => panic!(),
    }
    match &chain[2] {
        OutputMethod::Clipboard(cl) => assert!(!cl.notify),
        _ => panic!(),
    }
}

#[test]
fn override_order_wins() {
    let mut c = config(OutputMode::Type);
    c.driver_order = Some(vec![OutputDriver::Dotool]);
    let chain = create_output_chain_with_override(&c, Some(&[OutputDriver::Clipboard]));
    assert_eq!(kinds(&chain), vec!["clipboard"]);
}

#[test]
fn clipboard_and_file_modes_use_clipboard() {
    assert_eq!(kinds(&create_output_chain(&config(OutputMode::Clipboard))), vec!["clipboard"]);
    assert_eq!(kinds(&create_output_chain(&config(OutputMode::File))), vec!["clipboard"]);
    assert_eq!(kinds(&create_output_chain(&config(OutputMode::Paste))), vec!["paste"]);
}

#[test]
fn normalizing_twice_changes_nothing() {
    let once = normalize_quotes("\u{201C}Don\u{2019}t\u{201D} \u{2032}x\u{2033}").into_owned();
    assert_eq!(once, "\"Don't\" 'x\"");
    let twice = normalize_quotes(&once);
    assert!(matches!(twice, Cow::Borrowed(_)));
    assert_eq!(twice, once);
}

/// Runs the fallback steps over given outcomes; returns the outputs delivered
/// through and whether the run succeeded.
fn run_fallback(available: &[bool], delivers: &[bool]) -> (Vec<usize>, bool) {
    let len = available.len();
    let mut tried = Vec::new();
    let mut step = start_fallback(len);
    loop {
        match step {
            FallbackAction::Probe(i) => step = after_probe(len, i, available[i]),
            FallbackAction::Deliver(i) => {
                tried.push(i);
                step = after_delivery(len, i, delivers[i]);
            }
            FallbackAction::Finish(ok) => return (tried, ok),
        }
    }
}

#[test]
fn fallback_tries_available_outputs_until_one_delivers() {
    assert_eq!(run_fallback(&[], &[]), (vec![], false));
    assert_eq!(run_fallback(&[false, true, true, true], &[true, false, true, true]), (vec![1, 2], true));
    assert_eq!(run_fallback(&[true, false, true], &[false, true, false]), (vec![0, 2], false));
    assert_eq!(run_fallback(&[false, false], &[true, true]), (vec![], false));
}

#[test]
fn fallback_outcome_is_all_methods_failed_when_nothing_delivered() {
    assert!(fallback_result(true).is_ok());
    assert!(matches!(fallback_result(false), Err(OutputError::AllMethodsFailed)));
}

#[test]
fn pre_type_delay_falls_back_to_deprecated_wtype_delay() {
    let mut c = config(OutputMode::Type);
    assert_eq!(c.effective_pre_type_delay_ms(), 0);
    c.wtype_delay_ms = Some(40);
    assert_eq!(c.effective_pre_type_delay_ms(), 40);
    c.driver_order = Some(vec![OutputDriver::Wtype, OutputDriver::Dotool]);
    let chain = create_output_chain(&c);
    match (&chain[0], &chain[1]) {
        (OutputMethod::Wtype(w), OutputMethod::Dotool(d)) => {
            assert_eq!(w.pre_type_delay_ms, 40);
            assert_eq!(d.pre_type_delay_ms, 40);
        }
        _ => panic!(),
    }
    c.pre_type_delay_ms = 15;
    assert_eq!(c.effective_pre_type_delay_ms(), 15);
    let paste = create_output_chain(&OutputConfig { mode: OutputMode::Paste, ..c.clone() });
    match &paste[0] {
        OutputMethod::Paste(p) => assert_eq!(p.pre_type_delay_ms, 15),
        _ => panic!(),
    }
}

#[test]
fn dotool_types_nothing_for_empty_text() {
    let output = DotoolOutput::new(0, 0, false, true, None, None, None);
    assert_eq!(output.commands_for(""), None);
    assert_eq!(output.commands_for("Hi"), Some("type Hi\nkey enter\n".to_string()));
}

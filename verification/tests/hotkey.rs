use evdev::Key;

use voxtype::config::HotkeyConfig;
use voxtype::error::HotkeyError;
use voxtype::hotkey::keys::{parse_key_name, KeyCode};
use voxtype::hotkey::tracker::KeyTracker;
use voxtype::hotkey::{hotkey_detection_enabled, HotkeyBindings, HotkeyEvent};

fn key(name: &str) -> Key {
    Key::new(parse_key_name(name).unwrap().code)
}

#[test]
fn test_parse_key_name() {
    assert_eq!(key("SCROLLLOCK"), Key::KEY_SCROLLLOCK);
    assert_eq!(key("ScrollLock"), Key::KEY_SCROLLLOCK);
    assert_eq!(key("KEY_SCROLLLOCK"), Key::KEY_SCROLLLOCK);
    assert_eq!(key("F13"), Key::KEY_F13);
    assert_eq!(key("LEFTALT"), Key::KEY_LEFTALT);
    assert_eq!(key("LALT"), Key::KEY_LEFTALT);
}

#[test]
fn test_parse_media_keys() {
    assert_eq!(key("MEDIA"), Key::KEY_MEDIA);
    assert_eq!(key("KEY_MEDIA"), Key::KEY_MEDIA);
    assert_eq!(key("RECORD"), Key::KEY_RECORD);
    assert_eq!(key("FASTFORWARD"), Key::KEY_FASTFORWARD);
    assert_eq!(key("REWIND"), Key::KEY_REWIND);
}

#[test]
fn test_parse_wev_keycode() {
    assert_eq!(key("wev_234"), Key::KEY_MEDIA);
    assert_eq!(key("WEV_234"), Key::KEY_MEDIA);
    assert_eq!(key("x11_234"), Key::KEY_MEDIA);
    assert_eq!(key("xev_234"), Key::KEY_MEDIA);
}

#[test]
fn test_parse_evtest_keycode() {
    assert_eq!(key("evtest_226"), Key::KEY_MEDIA);
    assert_eq!(key("EVTEST_226"), Key::KEY_MEDIA);
    assert_eq!(key("evtest_70"), Key::KEY_SCROLLLOCK);
    assert_eq!(key("evtest_0xe2"), Key::KEY_MEDIA);
    assert_eq!(key("EVTEST_0xE2"), Key::KEY_MEDIA);
}

#[test]
fn test_parse_wev_keycode_hex() {
    assert_eq!(key("wev_0xEA"), Key::KEY_MEDIA);
    assert_eq!(key("WEV_0xea"), Key::KEY_MEDIA);
}

#[test]
fn test_bare_numeric_keycode_rejected() {
    assert!(parse_key_name("226").is_err());
    assert!(parse_key_name("234").is_err());
    assert!(parse_key_name("0x226").is_err());
}

#[test]
fn test_parse_key_name_error() {
    assert!(parse_key_name("INVALID_KEY_NAME").is_err());
}

#[test]
fn every_named_key_matches_evdev() {
    let names: &[(&str, Key)] = &[
        ("PAUSE", Key::KEY_PAUSE),
        ("CAPSLOCK", Key::KEY_CAPSLOCK),
        ("NUMLOCK", Key::KEY_NUMLOCK),
        ("INSERT", Key::KEY_INSERT),
        ("RALT", Key::KEY_RIGHTALT),
        ("LCTRL", Key::KEY_LEFTCTRL),
        ("RCTRL", Key::KEY_RIGHTCTRL),
        ("LSHIFT", Key::KEY_LEFTSHIFT),
        ("RSHIFT", Key::KEY_RIGHTSHIFT),
        ("SUPER", Key::KEY_LEFTMETA),
        ("RMETA", Key::KEY_RIGHTMETA),
        ("F1", Key::KEY_F1),
        ("F10", Key::KEY_F10),
        ("F11", Key::KEY_F11),
        ("F12", Key::KEY_F12),
        ("F24", Key::KEY_F24),
        ("HOME", Key::KEY_HOME),
        ("END", Key::KEY_END),
        ("PAGEUP", Key::KEY_PAGEUP),
        ("PAGEDOWN", Key::KEY_PAGEDOWN),
        ("DELETE", Key::KEY_DELETE),
        ("SPACE", Key::KEY_SPACE),
        ("ENTER", Key::KEY_ENTER),
        ("TAB", Key::KEY_TAB),
        ("BACKSPACE", Key::KEY_BACKSPACE),
        ("ESCAPE", Key::KEY_ESC),
        ("BACKTICK", Key::KEY_GRAVE),
        ("MUTE", Key::KEY_MUTE),
        ("VOLUMEDOWN", Key::KEY_VOLUMEDOWN),
        ("VOLUMEUP", Key::KEY_VOLUMEUP),
        ("PLAYPAUSE", Key::KEY_PLAYPAUSE),
        ("NEXTSONG", Key::KEY_NEXTSONG),
        ("PREVIOUSSONG", Key::KEY_PREVIOUSSONG),
        ("  key-f13 ", Key::KEY_F13),
        ("scroll lock", Key::KEY_SCROLLLOCK),
    ];
    for (name, expected) in names {
        if *name == "scroll lock" {
            // normalizes to KEY_SCROLL_LOCK, which is not a key name
            assert!(parse_key_name(name).is_err());
        } else {
            assert_eq!(key(name), *expected, "{}", name);
        }
    }
}

#[test]
fn key_name_errors_carry_messages() {
    match parse_key_name("wev_5") {
        Err(HotkeyError::UnknownKey(m)) => {
            assert_eq!(m, "wev_5. XKB keycode must be >= 8 (the XKB offset)")
        }
        other => panic!("unexpected {:?}", other),
    }
    match parse_key_name(" evtest_zz ") {
        Err(HotkeyError::UnknownKey(m)) => assert_eq!(
            m,
            "evtest_zz. The value after the prefix must be a decimal or 0x-prefixed hex number"
        ),
        other => panic!("unexpected {:?}", other),
    }
    match parse_key_name("evtest_70000") {
        Err(HotkeyError::UnknownKey(m)) => assert!(m.starts_with("evtest_70000. The value")),
        other => panic!("unexpected {:?}", other),
    }
    match parse_key_name("NOPE") {
        Err(HotkeyError::UnknownKey(m)) => assert!(m.starts_with("NOPE. Try: SCROLLLOCK")),
        other => panic!("unexpected {:?}", other),
    }
    match parse_key_name("226") {
        Err(HotkeyError::UnknownKey(m)) => {
            assert!(m.starts_with("226. Bare numeric keycodes are ambiguous"))
        }
        other => panic!("unexpected {:?}", other),
    }
    assert_eq!(parse_key_name("evtest_+42").unwrap().code, 42);
}

fn config() -> HotkeyConfig {
    HotkeyConfig {
        key: "SCROLLLOCK".to_string(),
        edit_key: Some("PAUSE".to_string()),
        modifiers: vec!["LEFTCTRL".to_string()],
        cancel_key: Some("ESC".to_string()),
        model_modifier: Some("LEFTSHIFT".to_string()),
        complex_post_process_modifier: Some("LEFTALT".to_string()),
        hotkey_detection_file: None,
    }
}

const SCROLL: KeyCode = KeyCode { code: 70 };
const PAUSE: KeyCode = KeyCode { code: 119 };
const CTRL: KeyCode = KeyCode { code: 29 };
const SHIFT: KeyCode = KeyCode { code: 42 };
const ALT: KeyCode = KeyCode { code: 56 };
const ESC: KeyCode = KeyCode { code: 1 };

#[test]
fn bindings_from_config() {
    let b = HotkeyBindings::from_config(&config()).unwrap();
    assert_eq!(b.target_key, SCROLL);
    assert_eq!(b.edit_key, Some(PAUSE));
    assert_eq!(b.modifier_keys, vec![CTRL]);
    assert_eq!(b.cancel_key, Some(ESC));
    assert_eq!(b.model_modifier, Some(SHIFT));
    assert_eq!(b.complex_post_process_modifier, Some(ALT));
    assert_eq!(b.secondary_model, None);

    let mut bad = config();
    bad.modifiers = vec!["LEFTCTRL".to_string(), "BOGUS".to_string()];
    bad.cancel_key = Some("ALSO_BOGUS".to_string());
    match HotkeyBindings::from_config(&bad) {
        Err(HotkeyError::UnknownKey(m)) => assert!(m.starts_with("BOGUS.")),
        other => panic!("unexpected {:?}", other.map(|_| ())),
    }
}

#[test]
fn tracker_press_release_with_modifiers() {
    let mut b = HotkeyBindings::from_config(&config()).unwrap();
    b.set_secondary_model(Some("large".to_string()));
    let mut t = KeyTracker::new(b);

    // without the modifier, nothing happens
    assert_eq!(t.handle_key_event(SCROLL, 1), None);
    assert_eq!(t.handle_key_event(SCROLL, 0), None);

    assert_eq!(t.handle_key_event(CTRL, 1), None);
    assert_eq!(
        t.handle_key_event(SCROLL, 1),
        Some(HotkeyEvent::Pressed {
            is_edit: false,
            model_override: None,
            complex_process_override: Some(false),
        })
    );
    // repeats and a second press are ignored
    assert_eq!(t.handle_key_event(SCROLL, 2), None);
    assert_eq!(t.handle_key_event(SCROLL, 1), None);
    assert_eq!(t.handle_key_event(SCROLL, 0), Some(HotkeyEvent::Released));
    assert_eq!(t.handle_key_event(SCROLL, 0), None);

    // edit key with both model and complex modifiers held
    assert_eq!(t.handle_key_event(SHIFT, 1), None);
    assert_eq!(t.handle_key_event(ALT, 1), None);
    assert_eq!(
        t.handle_key_event(PAUSE, 1),
        Some(HotkeyEvent::Pressed {
            is_edit: true,
            model_override: Some("large".to_string()),
            complex_process_override: Some(true),
        })
    );
    assert_eq!(t.handle_key_event(ESC, 1), Some(HotkeyEvent::Cancel));
    assert_eq!(t.handle_key_event(ESC, 0), None);
    assert_eq!(t.handle_key_event(PAUSE, 0), Some(HotkeyEvent::Released));

    t.reset();
    assert!(!t.is_pressed());
    assert_eq!(t.handle_key_event(SCROLL, 1), None); // ctrl forgotten
}

#[test]
fn tracker_without_complex_modifier_reports_none() {
    let mut c = config();
    c.complex_post_process_modifier = None;
    c.modifiers = vec![];
    c.edit_key = Some("SCROLLLOCK".to_string());
    let b = HotkeyBindings::from_config(&c).unwrap();
    let mut t = KeyTracker::new(b);
    assert_eq!(
        t.handle_key_event(SCROLL, 1),
        Some(HotkeyEvent::Pressed {
            is_edit: false,
            model_override: None,
            complex_process_override: None,
        })
    );
}

#[test]
fn detection_toggle_contents() {
    assert!(hotkey_detection_enabled(None));
    assert!(hotkey_detection_enabled(Some("1\n")));
    assert!(hotkey_detection_enabled(Some("  TRUE ")));
    assert!(hotkey_detection_enabled(Some("Enabled")));
    assert!(hotkey_detection_enabled(Some("enable")));
    assert!(!hotkey_detection_enabled(Some("0")));
    assert!(!hotkey_detection_enabled(Some("disabled")));
    assert!(!hotkey_detection_enabled(Some("")));
}

fn code_of(name: &str) -> Option<u16> {
    parse_key_name(name).ok().map(|k| k.code)
}

#[test]
fn key_names_ignore_case_whitespace_prefix_and_dashes() {
    for name in ["ScrollLock", "f13", "lalt", "Escape", "scroll_lock", "Play-Pause", "nosuchkey"] {
        let expected = code_of(name);
        assert_eq!(code_of(&name.to_ascii_lowercase()), expected);
        assert_eq!(code_of(&name.to_ascii_uppercase()), expected);
        assert_eq!(code_of(&format!(" {} ", name)), expected);
        assert_eq!(code_of(&format!("\t{}\n", name)), expected);
        assert_eq!(code_of(&format!("KEY_{}", name)), expected);
        assert_eq!(code_of(&name.replace('_', "-")), expected);
    }
    assert_eq!(code_of("pageup"), Some(Key::KEY_PAGEUP.code()));
    assert_eq!(code_of("key-pageup"), Some(Key::KEY_PAGEUP.code()));
    assert_eq!(code_of("KEY_key-pageup"), None);
    assert_eq!(code_of("key-nope"), None);
    assert_eq!(code_of("KEY_key-nope"), None);
    assert_eq!(code_of("wev_234"), Some(226));
    assert_eq!(code_of("wev-234"), None);
}

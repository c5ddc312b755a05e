//! Hotkey detection: key-name parsing and the push-to-talk key state machine.
//!
//! The listener that reads kernel input devices lives with the application; it
//! feeds each key event to a [`tracker::KeyTracker`] and forwards the
//! [`HotkeyEvent`]s it returns.

pub mod keys;
pub mod tracker;

use vstd::prelude::*;

use crate::config::HotkeyConfig;
use crate::error::HotkeyError;
use crate::text::{chars_of, lower_ascii, lower_ascii_text, trim, trim_chars};
use keys::{parse_key_name, parsed_key, KeyCode};

verus! {

/// Events emitted by the hotkey listener
#[derive(Debug, Clone, PartialEq, Eq)]
pub enum HotkeyEvent {
    /// The hotkey was pressed, optionally with a model override and/or complex post-processing override
    Pressed {
        /// Whether to use edit mode for this recording
        is_edit: bool,
        /// Model to use for this transcription (None = use default)
        model_override: Option<String>,
        /// Whether to enable complex post-processing for this transcription (None = use default behavior)
        complex_process_override: Option<bool>,
    },
    /// The hotkey was released
    Released,
    /// The cancel key was pressed (abort recording/transcription)
    Cancel,
}

/// The keys the listener reacts to, parsed from the configuration.
#[derive(Debug, Clone)]
pub struct HotkeyBindings {
    /// The key to listen for
    pub target_key: KeyCode,
    /// The key to treat as "edit mode" (Optional)
    pub edit_key: Option<KeyCode>,
    /// Modifier keys that must be held
    pub modifier_keys: Vec<KeyCode>,
    /// Optional cancel key
    pub cancel_key: Option<KeyCode>,
    /// Optional model modifier key (when held, use secondary model)
    pub model_modifier: Option<KeyCode>,
    /// Secondary model to use when model_modifier is held
    pub secondary_model: Option<String>,
    /// Optional complex post-processing modifier key
    pub complex_post_process_modifier: Option<KeyCode>,
    /// File path for hotkey detection toggle
    pub hotkey_detection_file: Option<String>,
}

pub open spec fn optional_name(o: Option<String>) -> Seq<Seq<char>> {
    match o {
        Some(s) => seq![s@],
        None => seq![],
    }
}

/// Every key name of a hotkey configuration, in the order they are parsed:
/// key, edit key, modifiers, cancel key, model modifier, complex post-process modifier.
pub open spec fn configured_key_names(c: HotkeyConfig) -> Seq<Seq<char>> {
    seq![c.key@] + optional_name(c.edit_key) + Seq::new(
        c.modifiers@.len(),
        |i: int| c.modifiers@[i]@,
    ) + optional_name(c.cancel_key) + optional_name(c.model_modifier) + optional_name(
        c.complex_post_process_modifier,
    )
}

/// The error message of the first name that is not a key, if any.
pub open spec fn first_key_error(names: Seq<Seq<char>>) -> Option<Seq<char>>
    decreases names.len(),
{
    if names.len() == 0 {
        None
    } else {
        match parsed_key(names[0]) {
            Err(m) => Some(m),
            Ok(_) => first_key_error(names.drop_first()),
        }
    }
}

/// The key named by a configuration entry that parses.
pub open spec fn named_key(name: Seq<char>) -> KeyCode {
    KeyCode { code: parsed_key(name)->Ok_0 }
}

pub open spec fn optional_key(o: Option<String>) -> Option<KeyCode> {
    match o {
        Some(s) => Some(named_key(s@)),
        None => None,
    }
}

proof fn lemma_first_key_error_prefix(names: Seq<Seq<char>>, k: int)
    requires
        0 <= k <= names.len(),
        forall|j: int| 0 <= j < k ==> parsed_key(#[trigger] names[j]) is Ok,
    ensures
        first_key_error(names) == first_key_error(names.skip(k)),
    decreases k,
{
    if k == 0 {
        assert(names.skip(0) =~= names);
    } else {
        let t = names.drop_first();
        assert forall|j: int| 0 <= j < k - 1 implies parsed_key(#[trigger] t[j]) is Ok by {
            assert(t[j] == names[j + 1]);
        }
        lemma_first_key_error_prefix(t, k - 1);
        assert(t.skip(k - 1) =~= names.skip(k));
    }
}

fn optional_str(o: &Option<String>) -> (r: Option<&str>)
    ensures
        match o {
            Some(s) => r matches Some(t) && t@ == s@,
            None => r is None,
        },
{
    match o {
        Some(s) => Some(s.as_str()),
        None => None,
    }
}

impl HotkeyBindings {
    /// Parse every key name of the configuration; the first name that is not a
    /// key (in the order key, edit key, modifiers, cancel key, model modifier,
    /// complex post-process modifier) gives the error.
    pub fn from_config(config: &HotkeyConfig) -> (r: Result<HotkeyBindings, HotkeyError>)
        ensures
            match r {
                Ok(b) => {
                    &&& first_key_error(configured_key_names(*config)) is None
                    &&& b.target_key == named_key(config.key@)
                    &&& b.edit_key == optional_key(config.edit_key)
                    &&& b.modifier_keys@.len() == config.modifiers@.len()
                    &&& forall|i: int|
                        0 <= i < config.modifiers@.len() ==> #[trigger] b.modifier_keys@[i]
                            == named_key(config.modifiers@[i]@)
                    &&& b.cancel_key == optional_key(config.cancel_key)
                    &&& b.model_modifier == optional_key(config.model_modifier)
                    &&& b.complex_post_process_modifier == optional_key(
                        config.complex_post_process_modifier,
                    )
                    &&& b.secondary_model is None
                    &&& b.hotkey_detection_file == config.hotkey_detection_file
                },
                Err(e) => first_key_error(configured_key_names(*config)) matches Some(m) && e matches HotkeyError::UnknownKey(msg) && msg@ == m,
            },
    {
        let ghost names = configured_key_names(*config);
        let mut list: Vec<&str> = Vec::new();
        list.push(config.key.as_str());
        let edit = optional_str(&config.edit_key);
        if let Some(e) = edit {
            list.push(e);
        }
        let first_modifier = list.len();
        let mut m: usize = 0;
        while m < config.modifiers.len()
            invariant
                m <= config.modifiers@.len(),
                first_modifier == 1 + optional_name(config.edit_key).len(),
                list@.len() == first_modifier + m,
                forall|j: int| 0 <= j < list@.len() ==> #[trigger] list@[j]@ == names[j],
                names == configured_key_names(*config),
            decreases config.modifiers.len() - m,
        {
            list.push(config.modifiers[m].as_str());
            m += 1;
        }
        let after_modifiers = list.len();
        let cancel = optional_str(&config.cancel_key);
        if let Some(c) = cancel {
            list.push(c);
        }
        let model = optional_str(&config.model_modifier);
        if let Some(c) = model {
            list.push(c);
        }
        let complex = optional_str(&config.complex_post_process_modifier);
        if let Some(c) = complex {
            list.push(c);
        }
        assert(list@.len() == names.len());
        let mut codes: Vec<KeyCode> = Vec::new();
        let mut i: usize = 0;
        while i < list.len()
            invariant
                i <= list@.len(),
                list@.len() == names.len(),
                forall|j: int| 0 <= j < list@.len() ==> #[trigger] list@[j]@ == names[j],
                codes@.len() == i,
                names == configured_key_names(*config),
                forall|j: int| 0 <= j < i ==> parsed_key(#[trigger] names[j]) is Ok,
                forall|j: int| 0 <= j < i ==> #[trigger] codes@[j] == named_key(names[j]),
            decreases list.len() - i,
        {
            match parse_key_name(list[i]) {
                Ok(code) => {
                    codes.push(code);
                },
                Err(e) => {
                    proof {
                        lemma_first_key_error_prefix(names, i as int);
                        let rest = names.skip(i as int);
                        assert(rest.len() > 0);
                        assert(rest[0] == names[i as int]);
                        assert(list@[i as int]@ == names[i as int]);
                        assert(parsed_key(names[i as int]) is Err);
                        assert(first_key_error(rest) == Some(parsed_key(names[i as int])->Err_0));
                        assert(first_key_error(configured_key_names(*config)) == Some(parsed_key(names[i as int])->Err_0));
                        assert(e matches HotkeyError::UnknownKey(msg) && msg@ == parsed_key(names[i as int])->Err_0);
                    }
                    return Err(e);
                },
            }
            i += 1;
        }
        proof {
            lemma_first_key_error_prefix(names, names.len() as int);
        }
        let target_key = codes[0];
        let mut pos: usize = 1;
        let edit_key = if edit.is_some() {
            pos += 1;
            Some(codes[1])
        } else {
            None
        };
        assert(pos == first_modifier);
        let mut modifier_keys: Vec<KeyCode> = Vec::new();
        while pos < after_modifiers
            invariant
                first_modifier <= pos <= after_modifiers,
                after_modifiers == first_modifier + config.modifiers@.len(),
                after_modifiers <= codes@.len(),
                codes@.len() == names.len(),
                modifier_keys@.len() == pos - first_modifier,
                forall|j: int| 0 <= j < codes@.len() ==> #[trigger] codes@[j] == named_key(names[j]),
                forall|j: int|
                    0 <= j < modifier_keys@.len() ==> #[trigger] modifier_keys@[j] == codes@[first_modifier + j],
            decreases after_modifiers - pos,
        {
            modifier_keys.push(codes[pos]);
            pos += 1;
        }
        let cancel_key = if cancel.is_some() {
            pos += 1;
            Some(codes[pos - 1])
        } else {
            None
        };
        let model_modifier = if model.is_some() {
            pos += 1;
            Some(codes[pos - 1])
        } else {
            None
        };
        let complex_post_process_modifier = if complex.is_some() {
            pos += 1;
            Some(codes[pos - 1])
        } else {
            None
        };
        proof {
            assert forall|j: int| 0 <= j < config.modifiers@.len() implies #[trigger] modifier_keys@[j]
                == named_key(config.modifiers@[j]@) by {
                assert(names[first_modifier + j] == config.modifiers@[j]@);
            }
        }
        Ok(
            HotkeyBindings {
                target_key,
                edit_key,
                modifier_keys,
                cancel_key,
                model_modifier,
                secondary_model: None,
                complex_post_process_modifier,
                hotkey_detection_file: config.hotkey_detection_file.clone(),
            },
        )
    }

    /// Set the secondary model to use when model_modifier is held
    pub fn set_secondary_model(&mut self, model: Option<String>)
        ensures
            final(self).secondary_model == model,
            final(self).target_key == old(self).target_key,
            final(self).edit_key == old(self).edit_key,
            final(self).modifier_keys@ == old(self).modifier_keys@,
            final(self).cancel_key == old(self).cancel_key,
            final(self).model_modifier == old(self).model_modifier,
            final(self).complex_post_process_modifier == old(self).complex_post_process_modifier,
            final(self).hotkey_detection_file == old(self).hotkey_detection_file,
    {
        self.secondary_model = model;
    }
}

/// Whether the contents of the hotkey detection toggle file enable detection:
/// `1`, `true`, `enable` or `enabled` in any ASCII case, surrounded by any whitespace.
pub open spec fn toggle_enables(contents: Seq<char>) -> bool {
    let t = trim(lower_ascii_text(contents));
    t == "1"@ || t == "true"@ || t == "enable"@ || t == "enabled"@
}

/// Whether hotkey detection is enabled, given the contents of the toggle file.
/// `None` (no file configured, or it could not be read) leaves detection enabled.
///
/// Lower-casing only ASCII letters gives the same answer as full Unicode
/// lower-casing here: no other character lower-cases into one of the accepted words.
pub fn hotkey_detection_enabled(contents: Option<&str>) -> (r: bool)
    ensures
        r == match contents {
            Some(c) => toggle_enables(c@),
            None => true,
        },
{
    match contents {
        None => true,
        Some(c) => {
            let chars = chars_of(c);
            let lower = lower_ascii(&chars);
            let t = trim_chars(&lower);
            let one = chars_of("1");
            let tru = chars_of("true");
            let enable = chars_of("enable");
            let enabled = chars_of("enabled");
            crate::text::chars_equal(&t, &one) || crate::text::chars_equal(&t, &tru)
                || crate::text::chars_equal(&t, &enable) || crate::text::chars_equal(&t, &enabled)
        },
    }
}

} // verus!

//! Parsing of hotkey names into Linux input key codes.
//!
//! A key is identified by its kernel key code (the `KEY_*` numbers of
//! `linux/input-event-codes.h`); the evdev listener turns codes into device keys.

use vstd::prelude::*;

use crate::error::HotkeyError;
use crate::text::{
    append_chars, decimal, ascii_lower, ascii_upper, chars_equal, chars_of, has_prefix, is_white_space,
    is_whitespace, lemma_trim_map, lemma_trim_padded, lemma_trimmed_ends, lower_ascii_text,
    push_str_chars, starts_with_chars, string_from_chars, to_ascii_upper, trim, trim_chars,
    trim_end, trim_start, upper_ascii, upper_ascii_text,
};

verus! {

/// A Linux input key code.
#[derive(Debug, Clone, Copy, PartialEq, Eq, Hash, Structural)]
pub struct KeyCode {
    pub code: u16,
}

/// XKB keycodes are offset by 8 from Linux kernel keycodes
pub const XKB_OFFSET: u16 = 8;

// ---------------------------------------------------------------------------
// Unsigned numbers, as `u16::from_str_radix` reads them
// ---------------------------------------------------------------------------

/// The value of a digit character in bases up to 36, if it is one.
pub open spec fn digit_value(c: char) -> Option<nat> {
    if '0' <= c && c <= '9' {
        Some((c as u32 - '0' as u32) as nat)
    } else if 'a' <= c && c <= 'z' {
        Some((c as u32 - 'a' as u32 + 10) as nat)
    } else if 'A' <= c && c <= 'Z' {
        Some((c as u32 - 'A' as u32 + 10) as nat)
    } else {
        None
    }
}

pub open spec fn is_digit_in(c: char, radix: nat) -> bool {
    digit_value(c) is Some && digit_value(c).unwrap() < radix
}

/// The number written by a run of digits, most significant first.
pub open spec fn digits_number(s: Seq<char>, radix: nat) -> nat
    decreases s.len(),
{
    if s.len() == 0 {
        0
    } else {
        digits_number(s.drop_last(), radix) * radix + digit_value(s.last()).unwrap()
    }
}

/// Every character is a digit of the radix.
pub open spec fn all_digits(d: Seq<char>, radix: nat) -> bool {
    forall|i: int| 0 <= i < d.len() ==> is_digit_in(#[trigger] d[i], radix)
}

/// A non-empty run of digits whose value fits in 16 bits.
pub open spec fn digits_to_u16(d: Seq<char>, radix: nat) -> Option<u16> {
    if d.len() > 0 && all_digits(d, radix) && digits_number(d, radix) <= u16::MAX {
        Some(digits_number(d, radix) as u16)
    } else {
        None
    }
}

/// `u16::from_str_radix(s, radix)`: an optional `+`, then at least one digit
/// of the radix, and a value that fits in 16 bits.
pub open spec fn parse_u16_radix(s: Seq<char>, radix: nat) -> Option<u16> {
    if s.len() > 0 && s[0] == '+' {
        digits_to_u16(s.drop_first(), radix)
    } else {
        digits_to_u16(s, radix)
    }
}

fn digit_of(c: char) -> (r: Option<u32>)
    ensures
        match digit_value(c) {
            Some(v) => r == Some(v as u32),
            None => r is None,
        },
{
    if '0' <= c && c <= '9' {
        Some(c as u32 - '0' as u32)
    } else if 'a' <= c && c <= 'z' {
        Some(c as u32 - 'a' as u32 + 10)
    } else if 'A' <= c && c <= 'Z' {
        Some(c as u32 - 'A' as u32 + 10)
    } else {
        None
    }
}

proof fn lemma_digits_number_grows(s: Seq<char>, radix: nat, k: int)
    requires
        radix >= 1,
        0 <= k <= s.len(),
        all_digits(s, radix),
    ensures
        digits_number(s.take(k), radix) <= digits_number(s, radix),
    decreases s.len() - k,
{
    if k < s.len() {
        let t = s.drop_last();
        assert forall|i: int| 0 <= i < t.len() implies is_digit_in(#[trigger] t[i], radix) by {
            assert(t[i] == s[i]);
        }
        lemma_digits_number_grows(t, radix, k);
        assert(t.take(k) =~= s.take(k));
        let a = digits_number(t, radix);
        assert(a * radix >= a) by (nonlinear_arith)
            requires
                radix >= 1,
        ;
    } else {
        assert(s.take(k) =~= s);
    }
}

fn parse_digits(d: &Vec<char>, radix: u32) -> (r: Option<u16>)
    requires
        radix == 10 || radix == 16,
    ensures
        r == digits_to_u16(d@, radix as nat),
{
    if d.len() == 0 {
        return None;
    }
    let mut value: u32 = 0;
    let mut i: usize = 0;
    while i < d.len()
        invariant
            i <= d.len(),
            d@.len() > 0,
            radix == 10 || radix == 16,
            all_digits(d@.take(i as int), radix as nat),
            value as nat == digits_number(d@.take(i as int), radix as nat),
            value <= u16::MAX,
        decreases d.len() - i,
    {
        let c = d[i];
        let ghost pre = d@.take(i as int);
        let ghost next = d@.take(i + 1);
        assert(next.drop_last() =~= pre);
        assert(next.last() == c);
        let dv = match digit_of(c) {
            None => {
                assert(!all_digits(d@, radix as nat)) by {
                    assert(!is_digit_in(d@[i as int], radix as nat));
                }
                return None;
            },
            Some(dv) => dv,
        };
        if dv >= radix {
            assert(!all_digits(d@, radix as nat)) by {
                assert(!is_digit_in(d@[i as int], radix as nat));
            }
            return None;
        }
        let nv = value * radix + dv;
        assert(all_digits(next, radix as nat)) by {
            assert forall|j: int| 0 <= j < next.len() implies is_digit_in(#[trigger] next[j], radix as nat) by {
                if j < i {
                    assert(next[j] == pre[j]);
                }
            }
        }
        if nv > 65535 {
            proof {
                if all_digits(d@, radix as nat) {
                    lemma_digits_number_grows(d@, radix as nat, i + 1);
                }
            }
            return None;
        }
        value = nv;
        i += 1;
    }
    assert(d@.take(i as int) =~= d@);
    Some(value as u16)
}

/// `u16::from_str_radix` for radix 10 or 16.
pub fn parse_u16(s: &Vec<char>, radix: u32) -> (r: Option<u16>)
    requires
        radix == 10 || radix == 16,
    ensures
        r == parse_u16_radix(s@, radix as nat),
{
    if s.len() > 0 && s[0] == '+' {
        let rest = skip_chars(s, 1);
        assert(rest@ =~= s@.drop_first());
        parse_digits(&rest, radix)
    } else {
        parse_digits(s, radix)
    }
}

// ---------------------------------------------------------------------------
// Prefixed numeric keycodes
// ---------------------------------------------------------------------------

/// How a key name written with a numeric prefix (`WEV_234`, `EVTEST_226`, ...) reads.
pub enum PrefixedKeycode {
    /// The name carries no numeric prefix
    NotPrefixed,
    /// The kernel key code it denotes
    Code(u16),
    /// A prefix followed by something that is not a 16-bit number
    BadNumber,
    /// An XKB prefix with a number below the XKB offset
    BelowXkbOffset,
}

/// The number following a known prefix of an (upper-cased) name, and whether
/// it is an XKB keycode (`WEV_`, `X11_`, `XEV_`) rather than a kernel one (`EVTEST_`).
pub open spec fn keycode_prefix(u: Seq<char>) -> Option<(Seq<char>, bool)> {
    if has_prefix(u, "WEV_"@) {
        Some((u.skip(4), true))
    } else if has_prefix(u, "X11_"@) {
        Some((u.skip(4), true))
    } else if has_prefix(u, "XEV_"@) {
        Some((u.skip(4), true))
    } else if has_prefix(u, "EVTEST_"@) {
        Some((u.skip(7), false))
    } else {
        None
    }
}

/// The number after a prefix: `0X` followed by hexadecimal digits, or decimal.
pub open spec fn prefixed_number(n: Seq<char>) -> Option<u16> {
    if has_prefix(n, "0X"@) {
        parse_u16_radix(n.skip(2), 16)
    } else {
        parse_u16_radix(n, 10)
    }
}

pub open spec fn classify_prefixed(s: Seq<char>) -> PrefixedKeycode {
    match keycode_prefix(upper_ascii_text(s)) {
        None => PrefixedKeycode::NotPrefixed,
        Some((n, is_xkb)) => match prefixed_number(n) {
            None => PrefixedKeycode::BadNumber,
            Some(code) => if !is_xkb {
                PrefixedKeycode::Code(code)
            } else if code >= XKB_OFFSET {
                PrefixedKeycode::Code((code - XKB_OFFSET) as u16)
            } else {
                PrefixedKeycode::BelowXkbOffset
            },
        },
    }
}

pub open spec fn bad_number_message(s: Seq<char>) -> Seq<char> {
    s + ". The value after the prefix must be a decimal or 0x-prefixed hex number"@
}

pub open spec fn below_offset_message(s: Seq<char>) -> Seq<char> {
    s + ". XKB keycode must be >= 8 (the XKB offset)"@
}

fn has_literal_prefix(s: &Vec<char>, prefix: &str) -> (r: bool)
    ensures
        r == has_prefix(s@, prefix@),
        r ==> prefix@.len() <= s@.len(),
{
    let p = chars_of(prefix);
    starts_with_chars(s, &p)
}

fn skip_chars(s: &Vec<char>, k: usize) -> (r: Vec<char>)
    requires
        k <= s.len(),
    ensures
        r@ == s@.skip(k as int),
{
    let mut r: Vec<char> = Vec::new();
    let mut i: usize = k;
    while i < s.len()
        invariant
            k <= i <= s.len(),
            r@ == s@.subrange(k as int, i as int),
        decreases s.len() - i,
    {
        r.push(s[i]);
        i += 1;
        assert(r@ =~= s@.subrange(k as int, i as int));
    }
    r
}

fn message_with(s: &Vec<char>, suffix: &str) -> (m: String)
    ensures
        m@ == s@ + suffix@,
{
    let mut buf: Vec<char> = Vec::new();
    append_chars(&mut buf, s);
    push_str_chars(&mut buf, suffix);
    assert(buf@ =~= s@ + suffix@);
    string_from_chars(&buf)
}

/// Try to parse a prefixed numeric keycode.
///
/// Supported prefixes (any ASCII case):
/// - `wev_`, `x11_`, `xev_` — XKB keycode (8 is subtracted to get the kernel keycode)
/// - `evtest_` — raw kernel keycode (used directly)
///
/// Returns `Ok(None)` if the string doesn't match any prefix, `Ok(Some(key))`
/// on a successful parse, and an error if the prefix is recognized but the
/// number is invalid.
pub fn parse_prefixed_keycode(s: &Vec<char>) -> (r: Result<Option<KeyCode>, HotkeyError>)
    ensures
        match classify_prefixed(s@) {
            PrefixedKeycode::NotPrefixed => r == Ok::<Option<KeyCode>, HotkeyError>(None),
            PrefixedKeycode::Code(c) => r == Ok::<Option<KeyCode>, HotkeyError>(
                Some(KeyCode { code: c }),
            ),
            PrefixedKeycode::BadNumber => r matches Err(HotkeyError::UnknownKey(m))
                && m@ == bad_number_message(s@),
            PrefixedKeycode::BelowXkbOffset => r matches Err(HotkeyError::UnknownKey(m))
                && m@ == below_offset_message(s@),
        },
{
    let normalized = upper_ascii(s);
    proof {
        reveal_strlit("WEV_");
        reveal_strlit("X11_");
        reveal_strlit("XEV_");
        reveal_strlit("EVTEST_");
        reveal_strlit("0X");
    }
    let (number, is_xkb) = if has_literal_prefix(&normalized, "WEV_") {
        (skip_chars(&normalized, 4), true)
    } else if has_literal_prefix(&normalized, "X11_") {
        (skip_chars(&normalized, 4), true)
    } else if has_literal_prefix(&normalized, "XEV_") {
        (skip_chars(&normalized, 4), true)
    } else if has_literal_prefix(&normalized, "EVTEST_") {
        (skip_chars(&normalized, 7), false)
    } else {
        return Ok(None);
    };
    let parsed = if has_literal_prefix(&number, "0X") {
        let hex = skip_chars(&number, 2);
        parse_u16(&hex, 16)
    } else {
        parse_u16(&number, 10)
    };
    match parsed {
        None => Err(
            HotkeyError::UnknownKey(
                message_with(s, ". The value after the prefix must be a decimal or 0x-prefixed hex number"),
            ),
        ),
        Some(code) => {
            if is_xkb {
                if code >= XKB_OFFSET {
                    Ok(Some(KeyCode { code: code - XKB_OFFSET }))
                } else {
                    Err(
                        HotkeyError::UnknownKey(
                            message_with(s, ". XKB keycode must be >= 8 (the XKB offset)"),
                        ),
                    )
                }
            } else {
                Ok(Some(KeyCode { code }))
            }
        },
    }
}

// ---------------------------------------------------------------------------
// Key names
// ---------------------------------------------------------------------------

fn eq_literal(name: &Vec<char>, lit: &str) -> (r: bool)
    ensures
        r == (name@ == lit@),
{
    let l = chars_of(lit);
    chars_equal(name, &l)
}

/// The kernel key code of each key name the configuration accepts.
pub open spec fn named_key_code(name: Seq<char>) -> Option<u16> {
    if name == "KEY_SCROLLLOCK"@ {
        Some(70)
    } else if name == "KEY_PAUSE"@ {
        Some(119)
    } else if name == "KEY_CAPSLOCK"@ {
        Some(58)
    } else if name == "KEY_NUMLOCK"@ {
        Some(69)
    } else if name == "KEY_INSERT"@ {
        Some(110)
    } else if name == "KEY_LEFTALT"@ || name == "KEY_LALT"@ {
        Some(56)
    } else if name == "KEY_RIGHTALT"@ || name == "KEY_RALT"@ {
        Some(100)
    } else if name == "KEY_LEFTCTRL"@ || name == "KEY_LCTRL"@ {
        Some(29)
    } else if name == "KEY_RIGHTCTRL"@ || name == "KEY_RCTRL"@ {
        Some(97)
    } else if name == "KEY_LEFTSHIFT"@ || name == "KEY_LSHIFT"@ {
        Some(42)
    } else if name == "KEY_RIGHTSHIFT"@ || name == "KEY_RSHIFT"@ {
        Some(54)
    } else if name == "KEY_LEFTMETA"@ || name == "KEY_LMETA"@ || name == "KEY_SUPER"@ {
        Some(125)
    } else if name == "KEY_RIGHTMETA"@ || name == "KEY_RMETA"@ {
        Some(126)
    } else if name == "KEY_F1"@ {
        Some(59)
    } else if name == "KEY_F2"@ {
        Some(60)
    } else if name == "KEY_F3"@ {
        Some(61)
    } else if name == "KEY_F4"@ {
        Some(62)
    } else if name == "KEY_F5"@ {
        Some(63)
    } else if name == "KEY_F6"@ {
        Some(64)
    } else if name == "KEY_F7"@ {
        Some(65)
    } else if name == "KEY_F8"@ {
        Some(66)
    } else if name == "KEY_F9"@ {
        Some(67)
    } else if name == "KEY_F10"@ {
        Some(68)
    } else if name == "KEY_F11"@ {
        Some(87)
    } else if name == "KEY_F12"@ {
        Some(88)
    } else if name == "KEY_F13"@ {
        Some(183)
    } else if name == "KEY_F14"@ {
        Some(184)
    } else if name == "KEY_F15"@ {
        Some(185)
    } else if name == "KEY_F16"@ {
        Some(186)
    } else if name == "KEY_F17"@ {
        Some(187)
    } else if name == "KEY_F18"@ {
        Some(188)
    } else if name == "KEY_F19"@ {
        Some(189)
    } else if name == "KEY_F20"@ {
        Some(190)
    } else if name == "KEY_F21"@ {
        Some(191)
    } else if name == "KEY_F22"@ {
        Some(192)
    } else if name == "KEY_F23"@ {
        Some(193)
    } else if name == "KEY_F24"@ {
        Some(194)
    } else if name == "KEY_HOME"@ {
        Some(102)
    } else if name == "KEY_END"@ {
        Some(107)
    } else if name == "KEY_PAGEUP"@ {
        Some(104)
    } else if name == "KEY_PAGEDOWN"@ {
        Some(109)
    } else if name == "KEY_DELETE"@ {
        Some(111)
    } else if name == "KEY_SPACE"@ {
        Some(57)
    } else if name == "KEY_ENTER"@ {
        Some(28)
    } else if name == "KEY_TAB"@ {
        Some(15)
    } else if name == "KEY_BACKSPACE"@ {
        Some(14)
    } else if name == "KEY_ESC"@ || name == "KEY_ESCAPE"@ {
        Some(1)
    } else if name == "KEY_GRAVE"@ || name == "KEY_BACKTICK"@ {
        Some(41)
    } else if name == "KEY_MUTE"@ {
        Some(113)
    } else if name == "KEY_VOLUMEDOWN"@ {
        Some(114)
    } else if name == "KEY_VOLUMEUP"@ {
        Some(115)
    } else if name == "KEY_PLAYPAUSE"@ {
        Some(164)
    } else if name == "KEY_NEXTSONG"@ {
        Some(163)
    } else if name == "KEY_PREVIOUSSONG"@ {
        Some(165)
    } else if name == "KEY_RECORD"@ {
        Some(167)
    } else if name == "KEY_REWIND"@ {
        Some(168)
    } else if name == "KEY_FASTFORWARD"@ {
        Some(208)
    } else if name == "KEY_MEDIA"@ {
        Some(226)
    } else {
        None
    }
}

/// `KEY_F` followed by the decimal number of a function key.
pub open spec fn function_key_name(n: nat) -> Seq<char> {
    "KEY_F"@ + decimal(n)
}

/// The key names of each kernel key code, as `linux/input-event-codes.h`
/// numbers the keys (aliases included); function keys F1-F10 are codes
/// 59-68, F11-F12 are 87-88 and F13-F24 are 183-194.
pub open spec fn is_name_of_code(c: u16, x: Seq<char>) -> bool {
    ||| c == 1 && (x == "KEY_ESC"@ || x == "KEY_ESCAPE"@)
    ||| c == 14 && x == "KEY_BACKSPACE"@
    ||| c == 15 && x == "KEY_TAB"@
    ||| c == 28 && x == "KEY_ENTER"@
    ||| c == 29 && (x == "KEY_LEFTCTRL"@ || x == "KEY_LCTRL"@)
    ||| c == 41 && (x == "KEY_GRAVE"@ || x == "KEY_BACKTICK"@)
    ||| c == 42 && (x == "KEY_LEFTSHIFT"@ || x == "KEY_LSHIFT"@)
    ||| c == 54 && (x == "KEY_RIGHTSHIFT"@ || x == "KEY_RSHIFT"@)
    ||| c == 56 && (x == "KEY_LEFTALT"@ || x == "KEY_LALT"@)
    ||| c == 57 && x == "KEY_SPACE"@
    ||| c == 58 && x == "KEY_CAPSLOCK"@
    ||| c == 69 && x == "KEY_NUMLOCK"@
    ||| c == 70 && x == "KEY_SCROLLLOCK"@
    ||| c == 97 && (x == "KEY_RIGHTCTRL"@ || x == "KEY_RCTRL"@)
    ||| c == 100 && (x == "KEY_RIGHTALT"@ || x == "KEY_RALT"@)
    ||| c == 102 && x == "KEY_HOME"@
    ||| c == 104 && x == "KEY_PAGEUP"@
    ||| c == 107 && x == "KEY_END"@
    ||| c == 109 && x == "KEY_PAGEDOWN"@
    ||| c == 110 && x == "KEY_INSERT"@
    ||| c == 111 && x == "KEY_DELETE"@
    ||| c == 113 && x == "KEY_MUTE"@
    ||| c == 114 && x == "KEY_VOLUMEDOWN"@
    ||| c == 115 && x == "KEY_VOLUMEUP"@
    ||| c == 119 && x == "KEY_PAUSE"@
    ||| c == 125 && (x == "KEY_LEFTMETA"@ || x == "KEY_LMETA"@ || x == "KEY_SUPER"@)
    ||| c == 126 && (x == "KEY_RIGHTMETA"@ || x == "KEY_RMETA"@)
    ||| c == 163 && x == "KEY_NEXTSONG"@
    ||| c == 164 && x == "KEY_PLAYPAUSE"@
    ||| c == 165 && x == "KEY_PREVIOUSSONG"@
    ||| c == 167 && x == "KEY_RECORD"@
    ||| c == 168 && x == "KEY_REWIND"@
    ||| c == 208 && x == "KEY_FASTFORWARD"@
    ||| c == 226 && x == "KEY_MEDIA"@
    ||| 59 <= c <= 68 && x == function_key_name((c - 58) as nat)
    ||| 87 <= c <= 88 && x == function_key_name((c - 76) as nat)
    ||| 183 <= c <= 194 && x == function_key_name((c - 170) as nat)
}

proof fn lemma_function_key_names()
    ensures
        function_key_name(1) == "KEY_F1"@,
        function_key_name(2) == "KEY_F2"@,
        function_key_name(3) == "KEY_F3"@,
        function_key_name(4) == "KEY_F4"@,
        function_key_name(5) == "KEY_F5"@,
        function_key_name(6) == "KEY_F6"@,
        function_key_name(7) == "KEY_F7"@,
        function_key_name(8) == "KEY_F8"@,
        function_key_name(9) == "KEY_F9"@,
        function_key_name(10) == "KEY_F10"@,
        function_key_name(11) == "KEY_F11"@,
        function_key_name(12) == "KEY_F12"@,
        function_key_name(13) == "KEY_F13"@,
        function_key_name(14) == "KEY_F14"@,
        function_key_name(15) == "KEY_F15"@,
        function_key_name(16) == "KEY_F16"@,
        function_key_name(17) == "KEY_F17"@,
        function_key_name(18) == "KEY_F18"@,
        function_key_name(19) == "KEY_F19"@,
        function_key_name(20) == "KEY_F20"@,
        function_key_name(21) == "KEY_F21"@,
        function_key_name(22) == "KEY_F22"@,
        function_key_name(23) == "KEY_F23"@,
        function_key_name(24) == "KEY_F24"@,
{
    reveal_strlit("KEY_F");
    reveal_strlit("KEY_F1");
    reveal_strlit("KEY_F2");
    reveal_strlit("KEY_F3");
    reveal_strlit("KEY_F4");
    reveal_strlit("KEY_F5");
    reveal_strlit("KEY_F6");
    reveal_strlit("KEY_F7");
    reveal_strlit("KEY_F8");
    reveal_strlit("KEY_F9");
    reveal_strlit("KEY_F10");
    reveal_strlit("KEY_F11");
    reveal_strlit("KEY_F12");
    reveal_strlit("KEY_F13");
    reveal_strlit("KEY_F14");
    reveal_strlit("KEY_F15");
    reveal_strlit("KEY_F16");
    reveal_strlit("KEY_F17");
    reveal_strlit("KEY_F18");
    reveal_strlit("KEY_F19");
    reveal_strlit("KEY_F20");
    reveal_strlit("KEY_F21");
    reveal_strlit("KEY_F22");
    reveal_strlit("KEY_F23");
    reveal_strlit("KEY_F24");
    assert(function_key_name(1) =~= "KEY_F1"@);
    assert(function_key_name(2) =~= "KEY_F2"@);
    assert(function_key_name(3) =~= "KEY_F3"@);
    assert(function_key_name(4) =~= "KEY_F4"@);
    assert(function_key_name(5) =~= "KEY_F5"@);
    assert(function_key_name(6) =~= "KEY_F6"@);
    assert(function_key_name(7) =~= "KEY_F7"@);
    assert(function_key_name(8) =~= "KEY_F8"@);
    assert(function_key_name(9) =~= "KEY_F9"@);
    assert(function_key_name(10) =~= "KEY_F10"@);
    assert(function_key_name(11) =~= "KEY_F11"@);
    assert(function_key_name(12) =~= "KEY_F12"@);
    assert(function_key_name(13) =~= "KEY_F13"@);
    assert(function_key_name(14) =~= "KEY_F14"@);
    assert(function_key_name(15) =~= "KEY_F15"@);
    assert(function_key_name(16) =~= "KEY_F16"@);
    assert(function_key_name(17) =~= "KEY_F17"@);
    assert(function_key_name(18) =~= "KEY_F18"@);
    assert(function_key_name(19) =~= "KEY_F19"@);
    assert(function_key_name(20) =~= "KEY_F20"@);
    assert(function_key_name(21) =~= "KEY_F21"@);
    assert(function_key_name(22) =~= "KEY_F22"@);
    assert(function_key_name(23) =~= "KEY_F23"@);
    assert(function_key_name(24) =~= "KEY_F24"@);
}

/// Every key name resolves to a kernel key code that it names, and every
/// name of a code resolves to that code: the key table agrees with the
/// kernel's numbering, and distinct keys never share a code.
pub proof fn lemma_named_keys_match_kernel_codes(x: Seq<char>, c: u16)
    ensures
        named_key_code(x) == Some(c) <==> is_name_of_code(c, x),
{
    lemma_named_key_is_name_of_its_code(x, c);
    lemma_name_of_code_is_named(x, c);
}

proof fn lemma_named_key_is_name_of_its_code(x: Seq<char>, c: u16)
    ensures
        named_key_code(x) == Some(c) ==> is_name_of_code(c, x),
{
    reveal_strlit("KEY_BACKSPACE");
    reveal_strlit("KEY_BACKTICK");
    reveal_strlit("KEY_CAPSLOCK");
    reveal_strlit("KEY_DELETE");
    reveal_strlit("KEY_END");
    reveal_strlit("KEY_ENTER");
    reveal_strlit("KEY_ESC");
    reveal_strlit("KEY_ESCAPE");
    reveal_strlit("KEY_F1");
    reveal_strlit("KEY_F10");
    reveal_strlit("KEY_F11");
    reveal_strlit("KEY_F12");
    reveal_strlit("KEY_F13");
    reveal_strlit("KEY_F14");
    reveal_strlit("KEY_F15");
    reveal_strlit("KEY_F16");
    reveal_strlit("KEY_F17");
    reveal_strlit("KEY_F18");
    reveal_strlit("KEY_F19");
    reveal_strlit("KEY_F2");
    reveal_strlit("KEY_F20");
    reveal_strlit("KEY_F21");
    reveal_strlit("KEY_F22");
    reveal_strlit("KEY_F23");
    reveal_strlit("KEY_F24");
    reveal_strlit("KEY_F3");
    reveal_strlit("KEY_F4");
    reveal_strlit("KEY_F5");
    reveal_strlit("KEY_F6");
    reveal_strlit("KEY_F7");
    reveal_strlit("KEY_F8");
    reveal_strlit("KEY_F9");
    reveal_strlit("KEY_FASTFORWARD");
    reveal_strlit("KEY_GRAVE");
    reveal_strlit("KEY_HOME");
    reveal_strlit("KEY_INSERT");
    reveal_strlit("KEY_LALT");
    reveal_strlit("KEY_LCTRL");
    reveal_strlit("KEY_LEFTALT");
    reveal_strlit("KEY_LEFTCTRL");
    reveal_strlit("KEY_LEFTMETA");
    reveal_strlit("KEY_LEFTSHIFT");
    reveal_strlit("KEY_LMETA");
    reveal_strlit("KEY_LSHIFT");
    reveal_strlit("KEY_MEDIA");
    reveal_strlit("KEY_MUTE");
    reveal_strlit("KEY_NEXTSONG");
    reveal_strlit("KEY_NUMLOCK");
    reveal_strlit("KEY_PAGEDOWN");
    reveal_strlit("KEY_PAGEUP");
    reveal_strlit("KEY_PAUSE");
    reveal_strlit("KEY_PLAYPAUSE");
    reveal_strlit("KEY_PREVIOUSSONG");
    reveal_strlit("KEY_RALT");
    reveal_strlit("KEY_RCTRL");
    reveal_strlit("KEY_RECORD");
    reveal_strlit("KEY_REWIND");
    reveal_strlit("KEY_RIGHTALT");
    reveal_strlit("KEY_RIGHTCTRL");
    reveal_strlit("KEY_RIGHTMETA");
    reveal_strlit("KEY_RIGHTSHIFT");
    reveal_strlit("KEY_RMETA");
    reveal_strlit("KEY_RSHIFT");
    reveal_strlit("KEY_SCROLLLOCK");
    reveal_strlit("KEY_SPACE");
    reveal_strlit("KEY_SUPER");
    reveal_strlit("KEY_TAB");
    reveal_strlit("KEY_VOLUMEDOWN");
    reveal_strlit("KEY_VOLUMEUP");
    lemma_function_key_names();
}

proof fn lemma_name_of_code_is_named(x: Seq<char>, c: u16)
    ensures
        is_name_of_code(c, x) ==> named_key_code(x) == Some(c),
{
    reveal_strlit("KEY_BACKSPACE");
    reveal_strlit("KEY_BACKTICK");
    reveal_strlit("KEY_CAPSLOCK");
    reveal_strlit("KEY_DELETE");
    reveal_strlit("KEY_END");
    reveal_strlit("KEY_ENTER");
    reveal_strlit("KEY_ESC");
    reveal_strlit("KEY_ESCAPE");
    reveal_strlit("KEY_F1");
    reveal_strlit("KEY_F10");
    reveal_strlit("KEY_F11");
    reveal_strlit("KEY_F12");
    reveal_strlit("KEY_F13");
    reveal_strlit("KEY_F14");
    reveal_strlit("KEY_F15");
    reveal_strlit("KEY_F16");
    reveal_strlit("KEY_F17");
    reveal_strlit("KEY_F18");
    reveal_strlit("KEY_F19");
    reveal_strlit("KEY_F2");
    reveal_strlit("KEY_F20");
    reveal_strlit("KEY_F21");
    reveal_strlit("KEY_F22");
    reveal_strlit("KEY_F23");
    reveal_strlit("KEY_F24");
    reveal_strlit("KEY_F3");
    reveal_strlit("KEY_F4");
    reveal_strlit("KEY_F5");
    reveal_strlit("KEY_F6");
    reveal_strlit("KEY_F7");
    reveal_strlit("KEY_F8");
    reveal_strlit("KEY_F9");
    reveal_strlit("KEY_FASTFORWARD");
    reveal_strlit("KEY_GRAVE");
    reveal_strlit("KEY_HOME");
    reveal_strlit("KEY_INSERT");
    reveal_strlit("KEY_LALT");
    reveal_strlit("KEY_LCTRL");
    reveal_strlit("KEY_LEFTALT");
    reveal_strlit("KEY_LEFTCTRL");
    reveal_strlit("KEY_LEFTMETA");
    reveal_strlit("KEY_LEFTSHIFT");
    reveal_strlit("KEY_LMETA");
    reveal_strlit("KEY_LSHIFT");
    reveal_strlit("KEY_MEDIA");
    reveal_strlit("KEY_MUTE");
    reveal_strlit("KEY_NEXTSONG");
    reveal_strlit("KEY_NUMLOCK");
    reveal_strlit("KEY_PAGEDOWN");
    reveal_strlit("KEY_PAGEUP");
    reveal_strlit("KEY_PAUSE");
    reveal_strlit("KEY_PLAYPAUSE");
    reveal_strlit("KEY_PREVIOUSSONG");
    reveal_strlit("KEY_RALT");
    reveal_strlit("KEY_RCTRL");
    reveal_strlit("KEY_RECORD");
    reveal_strlit("KEY_REWIND");
    reveal_strlit("KEY_RIGHTALT");
    reveal_strlit("KEY_RIGHTCTRL");
    reveal_strlit("KEY_RIGHTMETA");
    reveal_strlit("KEY_RIGHTSHIFT");
    reveal_strlit("KEY_RMETA");
    reveal_strlit("KEY_RSHIFT");
    reveal_strlit("KEY_SCROLLLOCK");
    reveal_strlit("KEY_SPACE");
    reveal_strlit("KEY_SUPER");
    reveal_strlit("KEY_TAB");
    reveal_strlit("KEY_VOLUMEDOWN");
    reveal_strlit("KEY_VOLUMEUP");
    lemma_function_key_names();
    // The names differ: by length, or at a character for names of equal length
    assert("KEY_BACKSPACE"@.len() == 13);
    assert("KEY_BACKTICK"@.len() == 12);
    assert("KEY_CAPSLOCK"@.len() == 12);
    assert("KEY_DELETE"@.len() == 10);
    assert("KEY_END"@.len() == 7);
    assert("KEY_ENTER"@.len() == 9);
    assert("KEY_ESC"@.len() == 7);
    assert("KEY_ESCAPE"@.len() == 10);
    assert("KEY_F1"@.len() == 6);
    assert("KEY_F10"@.len() == 7);
    assert("KEY_F11"@.len() == 7);
    assert("KEY_F12"@.len() == 7);
    assert("KEY_F13"@.len() == 7);
    assert("KEY_F14"@.len() == 7);
    assert("KEY_F15"@.len() == 7);
    assert("KEY_F16"@.len() == 7);
    assert("KEY_F17"@.len() == 7);
    assert("KEY_F18"@.len() == 7);
    assert("KEY_F19"@.len() == 7);
    assert("KEY_F2"@.len() == 6);
    assert("KEY_F20"@.len() == 7);
    assert("KEY_F21"@.len() == 7);
    assert("KEY_F22"@.len() == 7);
    assert("KEY_F23"@.len() == 7);
    assert("KEY_F24"@.len() == 7);
    assert("KEY_F3"@.len() == 6);
    assert("KEY_F4"@.len() == 6);
    assert("KEY_F5"@.len() == 6);
    assert("KEY_F6"@.len() == 6);
    assert("KEY_F7"@.len() == 6);
    assert("KEY_F8"@.len() == 6);
    assert("KEY_F9"@.len() == 6);
    assert("KEY_FASTFORWARD"@.len() == 15);
    assert("KEY_GRAVE"@.len() == 9);
    assert("KEY_HOME"@.len() == 8);
    assert("KEY_INSERT"@.len() == 10);
    assert("KEY_LALT"@.len() == 8);
    assert("KEY_LCTRL"@.len() == 9);
    assert("KEY_LEFTALT"@.len() == 11);
    assert("KEY_LEFTCTRL"@.len() == 12);
    assert("KEY_LEFTMETA"@.len() == 12);
    assert("KEY_LEFTSHIFT"@.len() == 13);
    assert("KEY_LMETA"@.len() == 9);
    assert("KEY_LSHIFT"@.len() == 10);
    assert("KEY_MEDIA"@.len() == 9);
    assert("KEY_MUTE"@.len() == 8);
    assert("KEY_NEXTSONG"@.len() == 12);
    assert("KEY_NUMLOCK"@.len() == 11);
    assert("KEY_PAGEDOWN"@.len() == 12);
    assert("KEY_PAGEUP"@.len() == 10);
    assert("KEY_PAUSE"@.len() == 9);
    assert("KEY_PLAYPAUSE"@.len() == 13);
    assert("KEY_PREVIOUSSONG"@.len() == 16);
    assert("KEY_RALT"@.len() == 8);
    assert("KEY_RCTRL"@.len() == 9);
    assert("KEY_RECORD"@.len() == 10);
    assert("KEY_REWIND"@.len() == 10);
    assert("KEY_RIGHTALT"@.len() == 12);
    assert("KEY_RIGHTCTRL"@.len() == 13);
    assert("KEY_RIGHTMETA"@.len() == 13);
    assert("KEY_RIGHTSHIFT"@.len() == 14);
    assert("KEY_RMETA"@.len() == 9);
    assert("KEY_RSHIFT"@.len() == 10);
    assert("KEY_SCROLLLOCK"@.len() == 14);
    assert("KEY_SPACE"@.len() == 9);
    assert("KEY_SUPER"@.len() == 9);
    assert("KEY_TAB"@.len() == 7);
    assert("KEY_VOLUMEDOWN"@.len() == 14);
    assert("KEY_VOLUMEUP"@.len() == 12);
    assert("KEY_LEFTALT"@[4] != "KEY_NUMLOCK"@[4]);
    assert("KEY_RIGHTALT"@[4] != "KEY_CAPSLOCK"@[4]);
    assert("KEY_RALT"@[4] != "KEY_LALT"@[4]);
    assert("KEY_LEFTCTRL"@[4] != "KEY_CAPSLOCK"@[4]);
    assert("KEY_LEFTCTRL"@[4] != "KEY_RIGHTALT"@[4]);
    assert("KEY_LCTRL"@[4] != "KEY_PAUSE"@[4]);
    assert("KEY_RCTRL"@[4] != "KEY_PAUSE"@[4]);
    assert("KEY_RCTRL"@[4] != "KEY_LCTRL"@[4]);
    assert("KEY_LEFTSHIFT"@[4] != "KEY_RIGHTCTRL"@[4]);
    assert("KEY_LSHIFT"@[4] != "KEY_INSERT"@[4]);
    assert("KEY_RIGHTSHIFT"@[4] != "KEY_SCROLLLOCK"@[4]);
    assert("KEY_RSHIFT"@[4] != "KEY_INSERT"@[4]);
    assert("KEY_RSHIFT"@[4] != "KEY_LSHIFT"@[4]);
    assert("KEY_LEFTMETA"@[4] != "KEY_CAPSLOCK"@[4]);
    assert("KEY_LEFTMETA"@[4] != "KEY_RIGHTALT"@[4]);
    assert("KEY_LEFTMETA"@[8] != "KEY_LEFTCTRL"@[8]);
    assert("KEY_LMETA"@[4] != "KEY_PAUSE"@[4]);
    assert("KEY_LMETA"@[5] != "KEY_LCTRL"@[5]);
    assert("KEY_LMETA"@[4] != "KEY_RCTRL"@[4]);
    assert("KEY_SUPER"@[4] != "KEY_PAUSE"@[4]);
    assert("KEY_SUPER"@[4] != "KEY_LCTRL"@[4]);
    assert("KEY_SUPER"@[4] != "KEY_RCTRL"@[4]);
    assert("KEY_SUPER"@[4] != "KEY_LMETA"@[4]);
    assert("KEY_RIGHTMETA"@[9] != "KEY_RIGHTCTRL"@[9]);
    assert("KEY_RIGHTMETA"@[4] != "KEY_LEFTSHIFT"@[4]);
    assert("KEY_RMETA"@[4] != "KEY_PAUSE"@[4]);
    assert("KEY_RMETA"@[4] != "KEY_LCTRL"@[4]);
    assert("KEY_RMETA"@[5] != "KEY_RCTRL"@[5]);
    assert("KEY_RMETA"@[4] != "KEY_LMETA"@[4]);
    assert("KEY_RMETA"@[4] != "KEY_SUPER"@[4]);
    assert("KEY_F2"@[5] != "KEY_F1"@[5]);
    assert("KEY_F3"@[5] != "KEY_F1"@[5]);
    assert("KEY_F3"@[5] != "KEY_F2"@[5]);
    assert("KEY_F4"@[5] != "KEY_F1"@[5]);
    assert("KEY_F4"@[5] != "KEY_F2"@[5]);
    assert("KEY_F4"@[5] != "KEY_F3"@[5]);
    assert("KEY_F5"@[5] != "KEY_F1"@[5]);
    assert("KEY_F5"@[5] != "KEY_F2"@[5]);
    assert("KEY_F5"@[5] != "KEY_F3"@[5]);
    assert("KEY_F5"@[5] != "KEY_F4"@[5]);
    assert("KEY_F6"@[5] != "KEY_F1"@[5]);
    assert("KEY_F6"@[5] != "KEY_F2"@[5]);
    assert("KEY_F6"@[5] != "KEY_F3"@[5]);
    assert("KEY_F6"@[5] != "KEY_F4"@[5]);
    assert("KEY_F6"@[5] != "KEY_F5"@[5]);
    assert("KEY_F7"@[5] != "KEY_F1"@[5]);
    assert("KEY_F7"@[5] != "KEY_F2"@[5]);
    assert("KEY_F7"@[5] != "KEY_F3"@[5]);
    assert("KEY_F7"@[5] != "KEY_F4"@[5]);
    assert("KEY_F7"@[5] != "KEY_F5"@[5]);
    assert("KEY_F7"@[5] != "KEY_F6"@[5]);
    assert("KEY_F8"@[5] != "KEY_F1"@[5]);
    assert("KEY_F8"@[5] != "KEY_F2"@[5]);
    assert("KEY_F8"@[5] != "KEY_F3"@[5]);
    assert("KEY_F8"@[5] != "KEY_F4"@[5]);
    assert("KEY_F8"@[5] != "KEY_F5"@[5]);
    assert("KEY_F8"@[5] != "KEY_F6"@[5]);
    assert("KEY_F8"@[5] != "KEY_F7"@[5]);
    assert("KEY_F9"@[5] != "KEY_F1"@[5]);
    assert("KEY_F9"@[5] != "KEY_F2"@[5]);
    assert("KEY_F9"@[5] != "KEY_F3"@[5]);
    assert("KEY_F9"@[5] != "KEY_F4"@[5]);
    assert("KEY_F9"@[5] != "KEY_F5"@[5]);
    assert("KEY_F9"@[5] != "KEY_F6"@[5]);
    assert("KEY_F9"@[5] != "KEY_F7"@[5]);
    assert("KEY_F9"@[5] != "KEY_F8"@[5]);
    assert("KEY_F11"@[6] != "KEY_F10"@[6]);
    assert("KEY_F12"@[6] != "KEY_F10"@[6]);
    assert("KEY_F12"@[6] != "KEY_F11"@[6]);
    assert("KEY_F13"@[6] != "KEY_F10"@[6]);
    assert("KEY_F13"@[6] != "KEY_F11"@[6]);
    assert("KEY_F13"@[6] != "KEY_F12"@[6]);
    assert("KEY_F14"@[6] != "KEY_F10"@[6]);
    assert("KEY_F14"@[6] != "KEY_F11"@[6]);
    assert("KEY_F14"@[6] != "KEY_F12"@[6]);
    assert("KEY_F14"@[6] != "KEY_F13"@[6]);
    assert("KEY_F15"@[6] != "KEY_F10"@[6]);
    assert("KEY_F15"@[6] != "KEY_F11"@[6]);
    assert("KEY_F15"@[6] != "KEY_F12"@[6]);
    assert("KEY_F15"@[6] != "KEY_F13"@[6]);
    assert("KEY_F15"@[6] != "KEY_F14"@[6]);
    assert("KEY_F16"@[6] != "KEY_F10"@[6]);
    assert("KEY_F16"@[6] != "KEY_F11"@[6]);
    assert("KEY_F16"@[6] != "KEY_F12"@[6]);
    assert("KEY_F16"@[6] != "KEY_F13"@[6]);
    assert("KEY_F16"@[6] != "KEY_F14"@[6]);
    assert("KEY_F16"@[6] != "KEY_F15"@[6]);
    assert("KEY_F17"@[6] != "KEY_F10"@[6]);
    assert("KEY_F17"@[6] != "KEY_F11"@[6]);
    assert("KEY_F17"@[6] != "KEY_F12"@[6]);
    assert("KEY_F17"@[6] != "KEY_F13"@[6]);
    assert("KEY_F17"@[6] != "KEY_F14"@[6]);
    assert("KEY_F17"@[6] != "KEY_F15"@[6]);
    assert("KEY_F17"@[6] != "KEY_F16"@[6]);
    assert("KEY_F18"@[6] != "KEY_F10"@[6]);
    assert("KEY_F18"@[6] != "KEY_F11"@[6]);
    assert("KEY_F18"@[6] != "KEY_F12"@[6]);
    assert("KEY_F18"@[6] != "KEY_F13"@[6]);
    assert("KEY_F18"@[6] != "KEY_F14"@[6]);
    assert("KEY_F18"@[6] != "KEY_F15"@[6]);
    assert("KEY_F18"@[6] != "KEY_F16"@[6]);
    assert("KEY_F18"@[6] != "KEY_F17"@[6]);
    assert("KEY_F19"@[6] != "KEY_F10"@[6]);
    assert("KEY_F19"@[6] != "KEY_F11"@[6]);
    assert("KEY_F19"@[6] != "KEY_F12"@[6]);
    assert("KEY_F19"@[6] != "KEY_F13"@[6]);
    assert("KEY_F19"@[6] != "KEY_F14"@[6]);
    assert("KEY_F19"@[6] != "KEY_F15"@[6]);
    assert("KEY_F19"@[6] != "KEY_F16"@[6]);
    assert("KEY_F19"@[6] != "KEY_F17"@[6]);
    assert("KEY_F19"@[6] != "KEY_F18"@[6]);
    assert("KEY_F20"@[5] != "KEY_F10"@[5]);
    assert("KEY_F20"@[5] != "KEY_F11"@[5]);
    assert("KEY_F20"@[5] != "KEY_F12"@[5]);
    assert("KEY_F20"@[5] != "KEY_F13"@[5]);
    assert("KEY_F20"@[5] != "KEY_F14"@[5]);
    assert("KEY_F20"@[5] != "KEY_F15"@[5]);
    assert("KEY_F20"@[5] != "KEY_F16"@[5]);
    assert("KEY_F20"@[5] != "KEY_F17"@[5]);
    assert("KEY_F20"@[5] != "KEY_F18"@[5]);
    assert("KEY_F20"@[5] != "KEY_F19"@[5]);
    assert("KEY_F21"@[5] != "KEY_F10"@[5]);
    assert("KEY_F21"@[5] != "KEY_F11"@[5]);
    assert("KEY_F21"@[5] != "KEY_F12"@[5]);
    assert("KEY_F21"@[5] != "KEY_F13"@[5]);
    assert("KEY_F21"@[5] != "KEY_F14"@[5]);
    assert("KEY_F21"@[5] != "KEY_F15"@[5]);
    assert("KEY_F21"@[5] != "KEY_F16"@[5]);
    assert("KEY_F21"@[5] != "KEY_F17"@[5]);
    assert("KEY_F21"@[5] != "KEY_F18"@[5]);
    assert("KEY_F21"@[5] != "KEY_F19"@[5]);
    assert("KEY_F21"@[6] != "KEY_F20"@[6]);
    assert("KEY_F22"@[5] != "KEY_F10"@[5]);
    assert("KEY_F22"@[5] != "KEY_F11"@[5]);
    assert("KEY_F22"@[5] != "KEY_F12"@[5]);
    assert("KEY_F22"@[5] != "KEY_F13"@[5]);
    assert("KEY_F22"@[5] != "KEY_F14"@[5]);
    assert("KEY_F22"@[5] != "KEY_F15"@[5]);
    assert("KEY_F22"@[5] != "KEY_F16"@[5]);
    assert("KEY_F22"@[5] != "KEY_F17"@[5]);
    assert("KEY_F22"@[5] != "KEY_F18"@[5]);
    assert("KEY_F22"@[5] != "KEY_F19"@[5]);
    assert("KEY_F22"@[6] != "KEY_F20"@[6]);
    assert("KEY_F22"@[6] != "KEY_F21"@[6]);
    assert("KEY_F23"@[5] != "KEY_F10"@[5]);
    assert("KEY_F23"@[5] != "KEY_F11"@[5]);
    assert("KEY_F23"@[5] != "KEY_F12"@[5]);
    assert("KEY_F23"@[5] != "KEY_F13"@[5]);
    assert("KEY_F23"@[5] != "KEY_F14"@[5]);
    assert("KEY_F23"@[5] != "KEY_F15"@[5]);
    assert("KEY_F23"@[5] != "KEY_F16"@[5]);
    assert("KEY_F23"@[5] != "KEY_F17"@[5]);
    assert("KEY_F23"@[5] != "KEY_F18"@[5]);
    assert("KEY_F23"@[5] != "KEY_F19"@[5]);
    assert("KEY_F23"@[6] != "KEY_F20"@[6]);
    assert("KEY_F23"@[6] != "KEY_F21"@[6]);
    assert("KEY_F23"@[6] != "KEY_F22"@[6]);
    assert("KEY_F24"@[5] != "KEY_F10"@[5]);
    assert("KEY_F24"@[5] != "KEY_F11"@[5]);
    assert("KEY_F24"@[5] != "KEY_F12"@[5]);
    assert("KEY_F24"@[5] != "KEY_F13"@[5]);
    assert("KEY_F24"@[5] != "KEY_F14"@[5]);
    assert("KEY_F24"@[5] != "KEY_F15"@[5]);
    assert("KEY_F24"@[5] != "KEY_F16"@[5]);
    assert("KEY_F24"@[5] != "KEY_F17"@[5]);
    assert("KEY_F24"@[5] != "KEY_F18"@[5]);
    assert("KEY_F24"@[5] != "KEY_F19"@[5]);
    assert("KEY_F24"@[6] != "KEY_F20"@[6]);
    assert("KEY_F24"@[6] != "KEY_F21"@[6]);
    assert("KEY_F24"@[6] != "KEY_F22"@[6]);
    assert("KEY_F24"@[6] != "KEY_F23"@[6]);
    assert("KEY_HOME"@[4] != "KEY_LALT"@[4]);
    assert("KEY_HOME"@[4] != "KEY_RALT"@[4]);
    assert("KEY_END"@[4] != "KEY_F10"@[4]);
    assert("KEY_END"@[4] != "KEY_F11"@[4]);
    assert("KEY_END"@[4] != "KEY_F12"@[4]);
    assert("KEY_END"@[4] != "KEY_F13"@[4]);
    assert("KEY_END"@[4] != "KEY_F14"@[4]);
    assert("KEY_END"@[4] != "KEY_F15"@[4]);
    assert("KEY_END"@[4] != "KEY_F16"@[4]);
    assert("KEY_END"@[4] != "KEY_F17"@[4]);
    assert("KEY_END"@[4] != "KEY_F18"@[4]);
    assert("KEY_END"@[4] != "KEY_F19"@[4]);
    assert("KEY_END"@[4] != "KEY_F20"@[4]);
    assert("KEY_END"@[4] != "KEY_F21"@[4]);
    assert("KEY_END"@[4] != "KEY_F22"@[4]);
    assert("KEY_END"@[4] != "KEY_F23"@[4]);
    assert("KEY_END"@[4] != "KEY_F24"@[4]);
    assert("KEY_PAGEUP"@[4] != "KEY_INSERT"@[4]);
    assert("KEY_PAGEUP"@[4] != "KEY_LSHIFT"@[4]);
    assert("KEY_PAGEUP"@[4] != "KEY_RSHIFT"@[4]);
    assert("KEY_PAGEDOWN"@[4] != "KEY_CAPSLOCK"@[4]);
    assert("KEY_PAGEDOWN"@[4] != "KEY_RIGHTALT"@[4]);
    assert("KEY_PAGEDOWN"@[4] != "KEY_LEFTCTRL"@[4]);
    assert("KEY_PAGEDOWN"@[4] != "KEY_LEFTMETA"@[4]);
    assert("KEY_DELETE"@[4] != "KEY_INSERT"@[4]);
    assert("KEY_DELETE"@[4] != "KEY_LSHIFT"@[4]);
    assert("KEY_DELETE"@[4] != "KEY_RSHIFT"@[4]);
    assert("KEY_DELETE"@[4] != "KEY_PAGEUP"@[4]);
    assert("KEY_SPACE"@[4] != "KEY_PAUSE"@[4]);
    assert("KEY_SPACE"@[4] != "KEY_LCTRL"@[4]);
    assert("KEY_SPACE"@[4] != "KEY_RCTRL"@[4]);
    assert("KEY_SPACE"@[4] != "KEY_LMETA"@[4]);
    assert("KEY_SPACE"@[5] != "KEY_SUPER"@[5]);
    assert("KEY_SPACE"@[4] != "KEY_RMETA"@[4]);
    assert("KEY_ENTER"@[4] != "KEY_PAUSE"@[4]);
    assert("KEY_ENTER"@[4] != "KEY_LCTRL"@[4]);
    assert("KEY_ENTER"@[4] != "KEY_RCTRL"@[4]);
    assert("KEY_ENTER"@[4] != "KEY_LMETA"@[4]);
    assert("KEY_ENTER"@[4] != "KEY_SUPER"@[4]);
    assert("KEY_ENTER"@[4] != "KEY_RMETA"@[4]);
    assert("KEY_ENTER"@[4] != "KEY_SPACE"@[4]);
    assert("KEY_TAB"@[4] != "KEY_F10"@[4]);
    assert("KEY_TAB"@[4] != "KEY_F11"@[4]);
    assert("KEY_TAB"@[4] != "KEY_F12"@[4]);
    assert("KEY_TAB"@[4] != "KEY_F13"@[4]);
    assert("KEY_TAB"@[4] != "KEY_F14"@[4]);
    assert("KEY_TAB"@[4] != "KEY_F15"@[4]);
    assert("KEY_TAB"@[4] != "KEY_F16"@[4]);
    assert("KEY_TAB"@[4] != "KEY_F17"@[4]);
    assert("KEY_TAB"@[4] != "KEY_F18"@[4]);
    assert("KEY_TAB"@[4] != "KEY_F19"@[4]);
    assert("KEY_TAB"@[4] != "KEY_F20"@[4]);
    assert("KEY_TAB"@[4] != "KEY_F21"@[4]);
    assert("KEY_TAB"@[4] != "KEY_F22"@[4]);
    assert("KEY_TAB"@[4] != "KEY_F23"@[4]);
    assert("KEY_TAB"@[4] != "KEY_F24"@[4]);
    assert("KEY_TAB"@[4] != "KEY_END"@[4]);
    assert("KEY_BACKSPACE"@[4] != "KEY_RIGHTCTRL"@[4]);
    assert("KEY_BACKSPACE"@[4] != "KEY_LEFTSHIFT"@[4]);
    assert("KEY_BACKSPACE"@[4] != "KEY_RIGHTMETA"@[4]);
    assert("KEY_ESC"@[4] != "KEY_F10"@[4]);
    assert("KEY_ESC"@[4] != "KEY_F11"@[4]);
    assert("KEY_ESC"@[4] != "KEY_F12"@[4]);
    assert("KEY_ESC"@[4] != "KEY_F13"@[4]);
    assert("KEY_ESC"@[4] != "KEY_F14"@[4]);
    assert("KEY_ESC"@[4] != "KEY_F15"@[4]);
    assert("KEY_ESC"@[4] != "KEY_F16"@[4]);
    assert("KEY_ESC"@[4] != "KEY_F17"@[4]);
    assert("KEY_ESC"@[4] != "KEY_F18"@[4]);
    assert("KEY_ESC"@[4] != "KEY_F19"@[4]);
    assert("KEY_ESC"@[4] != "KEY_F20"@[4]);
    assert("KEY_ESC"@[4] != "KEY_F21"@[4]);
    assert("KEY_ESC"@[4] != "KEY_F22"@[4]);
    assert("KEY_ESC"@[4] != "KEY_F23"@[4]);
    assert("KEY_ESC"@[4] != "KEY_F24"@[4]);
    assert("KEY_ESC"@[5] != "KEY_END"@[5]);
    assert("KEY_ESC"@[4] != "KEY_TAB"@[4]);
    assert("KEY_ESCAPE"@[4] != "KEY_INSERT"@[4]);
    assert("KEY_ESCAPE"@[4] != "KEY_LSHIFT"@[4]);
    assert("KEY_ESCAPE"@[4] != "KEY_RSHIFT"@[4]);
    assert("KEY_ESCAPE"@[4] != "KEY_PAGEUP"@[4]);
    assert("KEY_ESCAPE"@[4] != "KEY_DELETE"@[4]);
    assert("KEY_GRAVE"@[4] != "KEY_PAUSE"@[4]);
    assert("KEY_GRAVE"@[4] != "KEY_LCTRL"@[4]);
    assert("KEY_GRAVE"@[4] != "KEY_RCTRL"@[4]);
    assert("KEY_GRAVE"@[4] != "KEY_LMETA"@[4]);
    assert("KEY_GRAVE"@[4] != "KEY_SUPER"@[4]);
    assert("KEY_GRAVE"@[4] != "KEY_RMETA"@[4]);
    assert("KEY_GRAVE"@[4] != "KEY_SPACE"@[4]);
    assert("KEY_GRAVE"@[4] != "KEY_ENTER"@[4]);
    assert("KEY_BACKTICK"@[4] != "KEY_CAPSLOCK"@[4]);
    assert("KEY_BACKTICK"@[4] != "KEY_RIGHTALT"@[4]);
    assert("KEY_BACKTICK"@[4] != "KEY_LEFTCTRL"@[4]);
    assert("KEY_BACKTICK"@[4] != "KEY_LEFTMETA"@[4]);
    assert("KEY_BACKTICK"@[4] != "KEY_PAGEDOWN"@[4]);
    assert("KEY_MUTE"@[4] != "KEY_LALT"@[4]);
    assert("KEY_MUTE"@[4] != "KEY_RALT"@[4]);
    assert("KEY_MUTE"@[4] != "KEY_HOME"@[4]);
    assert("KEY_VOLUMEDOWN"@[4] != "KEY_SCROLLLOCK"@[4]);
    assert("KEY_VOLUMEDOWN"@[4] != "KEY_RIGHTSHIFT"@[4]);
    assert("KEY_VOLUMEUP"@[4] != "KEY_CAPSLOCK"@[4]);
    assert("KEY_VOLUMEUP"@[4] != "KEY_RIGHTALT"@[4]);
    assert("KEY_VOLUMEUP"@[4] != "KEY_LEFTCTRL"@[4]);
    assert("KEY_VOLUMEUP"@[4] != "KEY_LEFTMETA"@[4]);
    assert("KEY_VOLUMEUP"@[4] != "KEY_PAGEDOWN"@[4]);
    assert("KEY_VOLUMEUP"@[4] != "KEY_BACKTICK"@[4]);
    assert("KEY_PLAYPAUSE"@[4] != "KEY_RIGHTCTRL"@[4]);
    assert("KEY_PLAYPAUSE"@[4] != "KEY_LEFTSHIFT"@[4]);
    assert("KEY_PLAYPAUSE"@[4] != "KEY_RIGHTMETA"@[4]);
    assert("KEY_PLAYPAUSE"@[4] != "KEY_BACKSPACE"@[4]);
    assert("KEY_NEXTSONG"@[4] != "KEY_CAPSLOCK"@[4]);
    assert("KEY_NEXTSONG"@[4] != "KEY_RIGHTALT"@[4]);
    assert("KEY_NEXTSONG"@[4] != "KEY_LEFTCTRL"@[4]);
    assert("KEY_NEXTSONG"@[4] != "KEY_LEFTMETA"@[4]);
    assert("KEY_NEXTSONG"@[4] != "KEY_PAGEDOWN"@[4]);
    assert("KEY_NEXTSONG"@[4] != "KEY_BACKTICK"@[4]);
    assert("KEY_NEXTSONG"@[4] != "KEY_VOLUMEUP"@[4]);
    assert("KEY_RECORD"@[4] != "KEY_INSERT"@[4]);
    assert("KEY_RECORD"@[4] != "KEY_LSHIFT"@[4]);
    assert("KEY_RECORD"@[5] != "KEY_RSHIFT"@[5]);
    assert("KEY_RECORD"@[4] != "KEY_PAGEUP"@[4]);
    assert("KEY_RECORD"@[4] != "KEY_DELETE"@[4]);
    assert("KEY_RECORD"@[4] != "KEY_ESCAPE"@[4]);
    assert("KEY_REWIND"@[4] != "KEY_INSERT"@[4]);
    assert("KEY_REWIND"@[4] != "KEY_LSHIFT"@[4]);
    assert("KEY_REWIND"@[5] != "KEY_RSHIFT"@[5]);
    assert("KEY_REWIND"@[4] != "KEY_PAGEUP"@[4]);
    assert("KEY_REWIND"@[4] != "KEY_DELETE"@[4]);
    assert("KEY_REWIND"@[4] != "KEY_ESCAPE"@[4]);
    assert("KEY_REWIND"@[6] != "KEY_RECORD"@[6]);
    assert("KEY_MEDIA"@[4] != "KEY_PAUSE"@[4]);
    assert("KEY_MEDIA"@[4] != "KEY_LCTRL"@[4]);
    assert("KEY_MEDIA"@[4] != "KEY_RCTRL"@[4]);
    assert("KEY_MEDIA"@[4] != "KEY_LMETA"@[4]);
    assert("KEY_MEDIA"@[4] != "KEY_SUPER"@[4]);
    assert("KEY_MEDIA"@[4] != "KEY_RMETA"@[4]);
    assert("KEY_MEDIA"@[4] != "KEY_SPACE"@[4]);
    assert("KEY_MEDIA"@[4] != "KEY_ENTER"@[4]);
    assert("KEY_MEDIA"@[4] != "KEY_GRAVE"@[4]);
    // Each name resolves to its code
    assert(named_key_code("KEY_SCROLLLOCK"@) == Some(70u16));
    assert(named_key_code("KEY_PAUSE"@) == Some(119u16));
    assert(named_key_code("KEY_CAPSLOCK"@) == Some(58u16));
    assert(named_key_code("KEY_NUMLOCK"@) == Some(69u16));
    assert(named_key_code("KEY_INSERT"@) == Some(110u16));
    assert(named_key_code("KEY_LEFTALT"@) == Some(56u16));
    assert(named_key_code("KEY_LALT"@) == Some(56u16));
    assert(named_key_code("KEY_RIGHTALT"@) == Some(100u16));
    assert(named_key_code("KEY_RALT"@) == Some(100u16));
    assert(named_key_code("KEY_LEFTCTRL"@) == Some(29u16));
    assert(named_key_code("KEY_LCTRL"@) == Some(29u16));
    assert(named_key_code("KEY_RIGHTCTRL"@) == Some(97u16));
    assert(named_key_code("KEY_RCTRL"@) == Some(97u16));
    assert(named_key_code("KEY_LEFTSHIFT"@) == Some(42u16));
    assert(named_key_code("KEY_LSHIFT"@) == Some(42u16));
    assert(named_key_code("KEY_RIGHTSHIFT"@) == Some(54u16));
    assert(named_key_code("KEY_RSHIFT"@) == Some(54u16));
    assert(named_key_code("KEY_LEFTMETA"@) == Some(125u16));
    assert(named_key_code("KEY_LMETA"@) == Some(125u16));
    assert(named_key_code("KEY_SUPER"@) == Some(125u16));
    assert(named_key_code("KEY_RIGHTMETA"@) == Some(126u16));
    assert(named_key_code("KEY_RMETA"@) == Some(126u16));
    assert(named_key_code("KEY_F1"@) == Some(59u16));
    assert(named_key_code("KEY_F2"@) == Some(60u16));
    assert(named_key_code("KEY_F3"@) == Some(61u16));
    assert(named_key_code("KEY_F4"@) == Some(62u16));
    assert(named_key_code("KEY_F5"@) == Some(63u16));
    assert(named_key_code("KEY_F6"@) == Some(64u16));
    assert(named_key_code("KEY_F7"@) == Some(65u16));
    assert(named_key_code("KEY_F8"@) == Some(66u16));
    assert(named_key_code("KEY_F9"@) == Some(67u16));
    assert(named_key_code("KEY_F10"@) == Some(68u16));
    assert(named_key_code("KEY_F11"@) == Some(87u16));
    assert(named_key_code("KEY_F12"@) == Some(88u16));
    assert(named_key_code("KEY_F13"@) == Some(183u16));
    assert(named_key_code("KEY_F14"@) == Some(184u16));
    assert(named_key_code("KEY_F15"@) == Some(185u16));
    assert(named_key_code("KEY_F16"@) == Some(186u16));
    assert(named_key_code("KEY_F17"@) == Some(187u16));
    assert(named_key_code("KEY_F18"@) == Some(188u16));
    assert(named_key_code("KEY_F19"@) == Some(189u16));
    assert(named_key_code("KEY_F20"@) == Some(190u16));
    assert(named_key_code("KEY_F21"@) == Some(191u16));
    assert(named_key_code("KEY_F22"@) == Some(192u16));
    assert(named_key_code("KEY_F23"@) == Some(193u16));
    assert(named_key_code("KEY_F24"@) == Some(194u16));
    assert(named_key_code("KEY_HOME"@) == Some(102u16));
    assert(named_key_code("KEY_END"@) == Some(107u16));
    assert(named_key_code("KEY_PAGEUP"@) == Some(104u16));
    assert(named_key_code("KEY_PAGEDOWN"@) == Some(109u16));
    assert(named_key_code("KEY_DELETE"@) == Some(111u16));
    assert(named_key_code("KEY_SPACE"@) == Some(57u16));
    assert(named_key_code("KEY_ENTER"@) == Some(28u16));
    assert(named_key_code("KEY_TAB"@) == Some(15u16));
    assert(named_key_code("KEY_BACKSPACE"@) == Some(14u16));
    assert(named_key_code("KEY_ESC"@) == Some(1u16));
    assert(named_key_code("KEY_ESCAPE"@) == Some(1u16));
    assert(named_key_code("KEY_GRAVE"@) == Some(41u16));
    assert(named_key_code("KEY_BACKTICK"@) == Some(41u16));
    assert(named_key_code("KEY_MUTE"@) == Some(113u16));
    assert(named_key_code("KEY_VOLUMEDOWN"@) == Some(114u16));
    assert(named_key_code("KEY_VOLUMEUP"@) == Some(115u16));
    assert(named_key_code("KEY_PLAYPAUSE"@) == Some(164u16));
    assert(named_key_code("KEY_NEXTSONG"@) == Some(163u16));
    assert(named_key_code("KEY_PREVIOUSSONG"@) == Some(165u16));
    assert(named_key_code("KEY_RECORD"@) == Some(167u16));
    assert(named_key_code("KEY_REWIND"@) == Some(168u16));
    assert(named_key_code("KEY_FASTFORWARD"@) == Some(208u16));
    assert(named_key_code("KEY_MEDIA"@) == Some(226u16));
}

fn lookup_key_name(name: &Vec<char>) -> (r: Option<u16>)
    ensures
        r == named_key_code(name@),
{
    if eq_literal(name, "KEY_SCROLLLOCK") {
        return Some(70);
    }
    if eq_literal(name, "KEY_PAUSE") {
        return Some(119);
    }
    if eq_literal(name, "KEY_CAPSLOCK") {
        return Some(58);
    }
    if eq_literal(name, "KEY_NUMLOCK") {
        return Some(69);
    }
    if eq_literal(name, "KEY_INSERT") {
        return Some(110);
    }
    if eq_literal(name, "KEY_LEFTALT") || eq_literal(name, "KEY_LALT") {
        return Some(56);
    }
    if eq_literal(name, "KEY_RIGHTALT") || eq_literal(name, "KEY_RALT") {
        return Some(100);
    }
    if eq_literal(name, "KEY_LEFTCTRL") || eq_literal(name, "KEY_LCTRL") {
        return Some(29);
    }
    if eq_literal(name, "KEY_RIGHTCTRL") || eq_literal(name, "KEY_RCTRL") {
        return Some(97);
    }
    if eq_literal(name, "KEY_LEFTSHIFT") || eq_literal(name, "KEY_LSHIFT") {
        return Some(42);
    }
    if eq_literal(name, "KEY_RIGHTSHIFT") || eq_literal(name, "KEY_RSHIFT") {
        return Some(54);
    }
    if eq_literal(name, "KEY_LEFTMETA") || eq_literal(name, "KEY_LMETA") || eq_literal(name, "KEY_SUPER") {
        return Some(125);
    }
    if eq_literal(name, "KEY_RIGHTMETA") || eq_literal(name, "KEY_RMETA") {
        return Some(126);
    }
    if eq_literal(name, "KEY_F1") {
        return Some(59);
    }
    if eq_literal(name, "KEY_F2") {
        return Some(60);
    }
    if eq_literal(name, "KEY_F3") {
        return Some(61);
    }
    if eq_literal(name, "KEY_F4") {
        return Some(62);
    }
    if eq_literal(name, "KEY_F5") {
        return Some(63);
    }
    if eq_literal(name, "KEY_F6") {
        return Some(64);
    }
    if eq_literal(name, "KEY_F7") {
        return Some(65);
    }
    if eq_literal(name, "KEY_F8") {
        return Some(66);
    }
    if eq_literal(name, "KEY_F9") {
        return Some(67);
    }
    if eq_literal(name, "KEY_F10") {
        return Some(68);
    }
    if eq_literal(name, "KEY_F11") {
        return Some(87);
    }
    if eq_literal(name, "KEY_F12") {
        return Some(88);
    }
    if eq_literal(name, "KEY_F13") {
        return Some(183);
    }
    if eq_literal(name, "KEY_F14") {
        return Some(184);
    }
    if eq_literal(name, "KEY_F15") {
        return Some(185);
    }
    if eq_literal(name, "KEY_F16") {
        return Some(186);
    }
    if eq_literal(name, "KEY_F17") {
        return Some(187);
    }
    if eq_literal(name, "KEY_F18") {
        return Some(188);
    }
    if eq_literal(name, "KEY_F19") {
        return Some(189);
    }
    if eq_literal(name, "KEY_F20") {
        return Some(190);
    }
    if eq_literal(name, "KEY_F21") {
        return Some(191);
    }
    if eq_literal(name, "KEY_F22") {
        return Some(192);
    }
    if eq_literal(name, "KEY_F23") {
        return Some(193);
    }
    if eq_literal(name, "KEY_F24") {
        return Some(194);
    }
    if eq_literal(name, "KEY_HOME") {
        return Some(102);
    }
    if eq_literal(name, "KEY_END") {
        return Some(107);
    }
    if eq_literal(name, "KEY_PAGEUP") {
        return Some(104);
    }
    if eq_literal(name, "KEY_PAGEDOWN") {
        return Some(109);
    }
    if eq_literal(name, "KEY_DELETE") {
        return Some(111);
    }
    if eq_literal(name, "KEY_SPACE") {
        return Some(57);
    }
    if eq_literal(name, "KEY_ENTER") {
        return Some(28);
    }
    if eq_literal(name, "KEY_TAB") {
        return Some(15);
    }
    if eq_literal(name, "KEY_BACKSPACE") {
        return Some(14);
    }
    if eq_literal(name, "KEY_ESC") || eq_literal(name, "KEY_ESCAPE") {
        return Some(1);
    }
    if eq_literal(name, "KEY_GRAVE") || eq_literal(name, "KEY_BACKTICK") {
        return Some(41);
    }
    if eq_literal(name, "KEY_MUTE") {
        return Some(113);
    }
    if eq_literal(name, "KEY_VOLUMEDOWN") {
        return Some(114);
    }
    if eq_literal(name, "KEY_VOLUMEUP") {
        return Some(115);
    }
    if eq_literal(name, "KEY_PLAYPAUSE") {
        return Some(164);
    }
    if eq_literal(name, "KEY_NEXTSONG") {
        return Some(163);
    }
    if eq_literal(name, "KEY_PREVIOUSSONG") {
        return Some(165);
    }
    if eq_literal(name, "KEY_RECORD") {
        return Some(167);
    }
    if eq_literal(name, "KEY_REWIND") {
        return Some(168);
    }
    if eq_literal(name, "KEY_FASTFORWARD") {
        return Some(208);
    }
    if eq_literal(name, "KEY_MEDIA") {
        return Some(226);
    }
    None
}

/// How a configured key name reads.
pub enum KeyNameReading {
    /// It names the key with this kernel code
    Key(u16),
    /// A numeric prefix followed by something that is not a 16-bit number
    BadPrefixedNumber,
    /// An XKB prefix with a number below the XKB offset
    BelowXkbOffset,
    /// A bare number, which is ambiguous between XKB and kernel numbering
    BareNumber,
    /// No known key
    Unknown,
}

/// Key names are upper-cased, with `-` and space written as `_`.
pub open spec fn normalize_key_name(t: Seq<char>) -> Seq<char> {
    Seq::new(t.len(), |i: int| if t[i] == '-' || t[i] == ' ' { '_' } else { ascii_upper(t[i]) })
}

/// The `KEY_`-prefixed form of a normalized name.
pub open spec fn full_key_name(n: Seq<char>) -> Seq<char> {
    if has_prefix(n, "KEY_"@) {
        n
    } else {
        "KEY_"@ + n
    }
}

pub open spec fn read_key_name(name: Seq<char>) -> KeyNameReading {
    let t = trim(name);
    match classify_prefixed(t) {
        PrefixedKeycode::Code(c) => KeyNameReading::Key(c),
        PrefixedKeycode::BadNumber => KeyNameReading::BadPrefixedNumber,
        PrefixedKeycode::BelowXkbOffset => KeyNameReading::BelowXkbOffset,
        PrefixedKeycode::NotPrefixed => if parse_u16_radix(t, 10) is Some || has_prefix(t, "0x"@)
            || has_prefix(t, "0X"@) {
            KeyNameReading::BareNumber
        } else {
            match named_key_code(full_key_name(normalize_key_name(t))) {
                Some(c) => KeyNameReading::Key(c),
                None => KeyNameReading::Unknown,
            }
        },
    }
}

pub open spec fn bare_number_message(name: Seq<char>) -> Seq<char> {
    name
        + ". Bare numeric keycodes are ambiguous (wev/xev and evtest use different numbering).\n  Use a prefix: WEV_234, X11_234, XEV_234 (XKB keycode, offset by 8) or EVTEST_226 (kernel keycode)"@
}

pub open spec fn unknown_key_message(name: Seq<char>) -> Seq<char> {
    name
        + ". Try: SCROLLLOCK, PAUSE, MEDIA, F13-F24, or a prefixed keycode (e.g. EVTEST_226, WEV_234). Run 'evtest' to find key names"@
}

/// The message of the `UnknownKey` error for a name that does not read as a key.
pub open spec fn key_name_error(name: Seq<char>) -> Seq<char> {
    match read_key_name(name) {
        KeyNameReading::BadPrefixedNumber => bad_number_message(trim(name)),
        KeyNameReading::BelowXkbOffset => below_offset_message(trim(name)),
        KeyNameReading::BareNumber => bare_number_message(name),
        _ => unknown_key_message(name),
    }
}

/// What `parse_key_name` returns for a name.
pub open spec fn parsed_key(name: Seq<char>) -> Result<u16, Seq<char>> {
    match read_key_name(name) {
        KeyNameReading::Key(c) => Ok(c),
        _ => Err(key_name_error(name)),
    }
}

fn normalize_chars(t: &Vec<char>) -> (r: Vec<char>)
    ensures
        r@ == normalize_key_name(t@),
{
    let mut r: Vec<char> = Vec::new();
    let mut i: usize = 0;
    while i < t.len()
        invariant
            i <= t.len(),
            r@ == normalize_key_name(t@.take(i as int)),
        decreases t.len() - i,
    {
        let c = t[i];
        let m = if c == '-' || c == ' ' {
            '_'
        } else {
            to_ascii_upper(c)
        };
        r.push(m);
        i += 1;
        assert(r@ =~= normalize_key_name(t@.take(i as int)));
    }
    assert(t@.take(i as int) =~= t@);
    r
}

/// Parse a key name into a kernel key code.
///
/// Accepts names with or without the `KEY_` prefix in any case (`-` and space
/// count as `_`), a few aliases (`LALT`, `SUPER`, `ESCAPE`, ...), and numeric
/// keycodes with a `WEV_`/`X11_`/`XEV_` (XKB) or `EVTEST_` (kernel) prefix.
/// Bare numbers are rejected as ambiguous.
pub fn parse_key_name(name: &str) -> (r: Result<KeyCode, HotkeyError>)
    ensures
        match parsed_key(name@) {
            Ok(c) => r == Ok::<KeyCode, HotkeyError>(KeyCode { code: c }),
            Err(m) => r matches Err(HotkeyError::UnknownKey(msg)) && msg@ == m,
        },
{
    let name_chars = chars_of(name);
    let trimmed = trim_chars(&name_chars);
    match parse_prefixed_keycode(&trimmed) {
        Ok(Some(key)) => {
            return Ok(key);
        },
        Err(e) => {
            return Err(e);
        },
        Ok(None) => {},
    }
    if parse_u16(&trimmed, 10).is_some() || has_literal_prefix(&trimmed, "0x")
        || has_literal_prefix(&trimmed, "0X") {
        return Err(
            HotkeyError::UnknownKey(
                message_with(
                    &name_chars,
                    ". Bare numeric keycodes are ambiguous (wev/xev and evtest use different numbering).\n  Use a prefix: WEV_234, X11_234, XEV_234 (XKB keycode, offset by 8) or EVTEST_226 (kernel keycode)",
                ),
            ),
        );
    }
    let normalized = normalize_chars(&trimmed);
    let key_name = if has_literal_prefix(&normalized, "KEY_") {
        normalized
    } else {
        let mut k = chars_of("KEY_");
        append_chars(&mut k, &normalized);
        k
    };
    match lookup_key_name(&key_name) {
        Some(code) => Ok(KeyCode { code }),
        None => Err(
            HotkeyError::UnknownKey(
                message_with(
                    &name_chars,
                    ". Try: SCROLLLOCK, PAUSE, MEDIA, F13-F24, or a prefixed keycode (e.g. EVTEST_226, WEV_234). Run 'evtest' to find key names",
                ),
            ),
        ),
    }
}


// ---------------------------------------------------------------------------
// How key names are written
// ---------------------------------------------------------------------------

/// The key code a name parses to, if it parses.
pub open spec fn key_code_of(name: Seq<char>) -> Option<u16> {
    match parsed_key(name) {
        Ok(c) => Some(c),
        Err(_) => None,
    }
}

/// The name with every `_` written as `-`.
pub open spec fn dashes_for_underscores(s: Seq<char>) -> Seq<char> {
    Seq::new(s.len(), |i: int| if s[i] == '_' { '-' } else { s[i] })
}

pub open spec fn is_decimal_digit(c: char) -> bool {
    '0' <= c && c <= '9'
}

proof fn lemma_prefix_char(s: Seq<char>, p: Seq<char>, i: int)
    requires
        has_prefix(s, p),
        0 <= i < p.len(),
    ensures
        s[i] == p[i],
{
    assert(s.take(p.len() as int)[i] == s[i]);
}

proof fn lemma_two_char_prefix(s: Seq<char>, p: Seq<char>)
    requires
        p.len() == 2,
    ensures
        has_prefix(s, p) <==> (s.len() >= 2 && s[0] == p[0] && s[1] == p[1]),
{
    if s.len() >= 2 && s[0] == p[0] && s[1] == p[1] {
        assert(s.take(2) =~= p);
    }
    if has_prefix(s, p) {
        lemma_prefix_char(s, p, 0);
        lemma_prefix_char(s, p, 1);
    }
}

/// Two texts that agree wherever either holds a decimal digit or `+` read as
/// the same decimal number (or neither reads as one).
proof fn lemma_same_decimal(s: Seq<char>, t: Seq<char>)
    requires
        s.len() == t.len(),
        forall|i: int|
            0 <= i < s.len() && (is_decimal_digit(#[trigger] s[i]) || s[i] == '+' || is_decimal_digit(
                t[i],
            ) || t[i] == '+') ==> t[i] == s[i],
    ensures
        parse_u16_radix(t, 10) == parse_u16_radix(s, 10),
{
    let plus = s.len() > 0 && s[0] == '+';
    assert(plus == (t.len() > 0 && t[0] == '+'));
    let ds = if plus { s.drop_first() } else { s };
    let dt = if plus { t.drop_first() } else { t };
    assert forall|i: int| 0 <= i < ds.len() && (is_digit_in(#[trigger] ds[i], 10) || is_digit_in(dt[i], 10))
        implies dt[i] == ds[i] by {
        let k = if plus { i + 1 } else { i };
        assert(ds[i] == s[k]);
        assert(dt[i] == t[k]);
    }
    if all_digits(ds, 10) {
        assert(dt =~= ds);
    } else if all_digits(dt, 10) {
        assert(dt =~= ds);
    }
}

/// The characters that read the same through a name's normalization.
proof fn lemma_normalized_alike(u: Seq<char>, v: Seq<char>)
    requires
        u.len() == v.len(),
        forall|i: int|
            0 <= i < u.len() ==> (if #[trigger] u[i] == '-' || u[i] == ' ' {
                '_'
            } else {
                ascii_upper(u[i])
            }) == (if v[i] == '-' || v[i] == ' ' {
                '_'
            } else {
                ascii_upper(v[i])
            }),
    ensures
        normalize_key_name(v) == normalize_key_name(u),
{
    assert(normalize_key_name(v) =~= normalize_key_name(u));
}

/// Key names ignore ASCII case: upper- or lower-casing a name's ASCII letters
/// leaves the key it names unchanged.
pub proof fn lemma_key_names_ignore_ascii_case(name: Seq<char>)
    ensures
        key_code_of(lower_ascii_text(name)) == key_code_of(name),
        key_code_of(upper_ascii_text(name)) == key_code_of(name),
{
    let lower = |c: char| ascii_lower(c);
    let upper = |c: char| ascii_upper(c);
    assert(lower_ascii_text(name) =~= name.map_values(lower));
    assert(upper_ascii_text(name) =~= name.map_values(upper));
    lemma_trim_map(name, lower);
    lemma_trim_map(name, upper);
    let u = trim(name);
    assert(lower_ascii_text(u) =~= u.map_values(lower));
    assert(upper_ascii_text(u) =~= u.map_values(upper));
    lemma_cased_reads_alike(u, lower_ascii_text(u));
    lemma_cased_reads_alike(u, upper_ascii_text(u));
}

/// A trimmed name and a re-cased copy of it read alike.
proof fn lemma_cased_reads_alike(u: Seq<char>, v: Seq<char>)
    requires
        v == lower_ascii_text(u) || v == upper_ascii_text(u),
    ensures
        classify_prefixed(v) == classify_prefixed(u),
        parse_u16_radix(v, 10) == parse_u16_radix(u, 10),
        (has_prefix(v, "0x"@) || has_prefix(v, "0X"@)) == (has_prefix(u, "0x"@) || has_prefix(
            u,
            "0X"@,
        )),
        normalize_key_name(v) == normalize_key_name(u),
{
    reveal_strlit("0x");
    reveal_strlit("0X");
    assert(upper_ascii_text(v) =~= upper_ascii_text(u));
    lemma_same_decimal(u, v);
    lemma_two_char_prefix(v, "0x"@);
    lemma_two_char_prefix(u, "0x"@);
    lemma_two_char_prefix(v, "0X"@);
    lemma_two_char_prefix(u, "0X"@);
    lemma_normalized_alike(u, v);
}

/// Key names ignore surrounding whitespace.
pub proof fn lemma_key_names_ignore_surrounding_whitespace(name: Seq<char>, before: char, after: char)
    requires
        is_white_space(before),
        is_white_space(after),
    ensures
        key_code_of(seq![before] + name + seq![after]) == key_code_of(name),
{
    lemma_trim_padded(name, before, after);
}

/// Key names do not tell `-` from `_`: writing every `_` of a name as `-`
/// leaves the key it names unchanged, for names without a numeric keycode
/// prefix (`WEV_`, `X11_`, `XEV_`, `EVTEST_`, which need their `_`).
pub proof fn lemma_key_names_ignore_dash_or_underscore(name: Seq<char>)
    requires
        keycode_prefix(upper_ascii_text(trim(name))) is None,
    ensures
        key_code_of(dashes_for_underscores(name)) == key_code_of(name),
{
    reveal_strlit("0x");
    reveal_strlit("0X");
    reveal_strlit("WEV_");
    reveal_strlit("X11_");
    reveal_strlit("XEV_");
    reveal_strlit("EVTEST_");
    let dash = |c: char| if c == '_' { '-' } else { c };
    assert(dashes_for_underscores(name) =~= name.map_values(dash));
    lemma_trim_map(name, dash);
    let u = trim(name);
    let v = dashes_for_underscores(u);
    assert(v =~= u.map_values(dash));
    let uv = upper_ascii_text(v);
    if has_prefix(uv, "WEV_"@) {
        lemma_prefix_char(uv, "WEV_"@, 3);
    }
    if has_prefix(uv, "X11_"@) {
        lemma_prefix_char(uv, "X11_"@, 3);
    }
    if has_prefix(uv, "XEV_"@) {
        lemma_prefix_char(uv, "XEV_"@, 3);
    }
    if has_prefix(uv, "EVTEST_"@) {
        lemma_prefix_char(uv, "EVTEST_"@, 6);
    }
    assert(keycode_prefix(uv) is None);
    lemma_same_decimal(u, v);
    lemma_two_char_prefix(v, "0x"@);
    lemma_two_char_prefix(u, "0x"@);
    lemma_two_char_prefix(v, "0X"@);
    lemma_two_char_prefix(u, "0X"@);
    lemma_normalized_alike(u, v);
}

/// No key name of the table continues `KEY_` with `K`: a doubled `KEY_KEY_`
/// prefix names no key.
proof fn lemma_no_named_key_after_key_prefix(x: Seq<char>)
    requires
        x.len() > 4,
        x[4] == 'K',
    ensures
        named_key_code(x) is None,
{
    reveal_strlit("KEY_BACKSPACE");
    reveal_strlit("KEY_BACKTICK");
    reveal_strlit("KEY_CAPSLOCK");
    reveal_strlit("KEY_DELETE");
    reveal_strlit("KEY_END");
    reveal_strlit("KEY_ENTER");
    reveal_strlit("KEY_ESC");
    reveal_strlit("KEY_ESCAPE");
    reveal_strlit("KEY_F1");
    reveal_strlit("KEY_F10");
    reveal_strlit("KEY_F11");
    reveal_strlit("KEY_F12");
    reveal_strlit("KEY_F13");
    reveal_strlit("KEY_F14");
    reveal_strlit("KEY_F15");
    reveal_strlit("KEY_F16");
    reveal_strlit("KEY_F17");
    reveal_strlit("KEY_F18");
    reveal_strlit("KEY_F19");
    reveal_strlit("KEY_F2");
    reveal_strlit("KEY_F20");
    reveal_strlit("KEY_F21");
    reveal_strlit("KEY_F22");
    reveal_strlit("KEY_F23");
    reveal_strlit("KEY_F24");
    reveal_strlit("KEY_F3");
    reveal_strlit("KEY_F4");
    reveal_strlit("KEY_F5");
    reveal_strlit("KEY_F6");
    reveal_strlit("KEY_F7");
    reveal_strlit("KEY_F8");
    reveal_strlit("KEY_F9");
    reveal_strlit("KEY_FASTFORWARD");
    reveal_strlit("KEY_GRAVE");
    reveal_strlit("KEY_HOME");
    reveal_strlit("KEY_INSERT");
    reveal_strlit("KEY_LALT");
    reveal_strlit("KEY_LCTRL");
    reveal_strlit("KEY_LEFTALT");
    reveal_strlit("KEY_LEFTCTRL");
    reveal_strlit("KEY_LEFTMETA");
    reveal_strlit("KEY_LEFTSHIFT");
    reveal_strlit("KEY_LMETA");
    reveal_strlit("KEY_LSHIFT");
    reveal_strlit("KEY_MEDIA");
    reveal_strlit("KEY_MUTE");
    reveal_strlit("KEY_NEXTSONG");
    reveal_strlit("KEY_NUMLOCK");
    reveal_strlit("KEY_PAGEDOWN");
    reveal_strlit("KEY_PAGEUP");
    reveal_strlit("KEY_PAUSE");
    reveal_strlit("KEY_PLAYPAUSE");
    reveal_strlit("KEY_PREVIOUSSONG");
    reveal_strlit("KEY_RALT");
    reveal_strlit("KEY_RCTRL");
    reveal_strlit("KEY_RECORD");
    reveal_strlit("KEY_REWIND");
    reveal_strlit("KEY_RIGHTALT");
    reveal_strlit("KEY_RIGHTCTRL");
    reveal_strlit("KEY_RIGHTMETA");
    reveal_strlit("KEY_RIGHTSHIFT");
    reveal_strlit("KEY_RMETA");
    reveal_strlit("KEY_RSHIFT");
    reveal_strlit("KEY_SCROLLLOCK");
    reveal_strlit("KEY_SPACE");
    reveal_strlit("KEY_SUPER");
    reveal_strlit("KEY_TAB");
    reveal_strlit("KEY_VOLUMEDOWN");
    reveal_strlit("KEY_VOLUMEUP");
}

/// Key names may be written with or without `KEY_`: putting `KEY_` before a
/// trimmed name names the same key. The exceptions are names that are numeric
/// keycodes, prefixed or bare (those are never looked up by name), and names
/// that already name a key through a `KEY` prefix of their own (such as
/// `key-f13`, which would become `KEY_KEY_F13`); a name with such a prefix
/// that names no key (such as `key-nope`) names none with `KEY_` either.
pub proof fn lemma_key_names_ignore_key_prefix(name: Seq<char>)
    requires
        trim(name) == name,
        keycode_prefix(upper_ascii_text(name)) is None,
        parse_u16_radix(name, 10) is None,
        !has_prefix(name, "0x"@),
        !has_prefix(name, "0X"@),
        !has_prefix(normalize_key_name(name), "KEY_"@) || key_code_of(name) is None,
    ensures
        key_code_of("KEY_"@ + name) == key_code_of(name),
{
    reveal_strlit("KEY_");
    reveal_strlit("0x");
    reveal_strlit("0X");
    reveal_strlit("WEV_");
    reveal_strlit("X11_");
    reveal_strlit("XEV_");
    reveal_strlit("EVTEST_");
    let k = "KEY_"@ + name;
    assert(k[0] == 'K');
    lemma_trimmed_ends(name);
    assert(k.last() == if name.len() > 0 { name.last() } else { '_' });
    assert(trim_start(k) == k);
    assert(trim_end(k) == k);
    let uk = upper_ascii_text(k);
    assert(uk[0] == 'K');
    if has_prefix(uk, "WEV_"@) {
        lemma_prefix_char(uk, "WEV_"@, 0);
    }
    if has_prefix(uk, "X11_"@) {
        lemma_prefix_char(uk, "X11_"@, 0);
    }
    if has_prefix(uk, "XEV_"@) {
        lemma_prefix_char(uk, "XEV_"@, 0);
    }
    if has_prefix(uk, "EVTEST_"@) {
        lemma_prefix_char(uk, "EVTEST_"@, 0);
    }
    assert(keycode_prefix(uk) is None);
    assert(!is_digit_in(k[0], 10));
    assert(!all_digits(k, 10));
    assert(parse_u16_radix(k, 10) is None);
    lemma_two_char_prefix(k, "0x"@);
    lemma_two_char_prefix(k, "0X"@);
    let nk = normalize_key_name(k);
    assert(nk =~= "KEY_"@ + normalize_key_name(name));
    assert(nk.take(4) =~= "KEY_"@);
    assert(full_key_name(nk) == nk);
    let n = normalize_key_name(name);
    if has_prefix(n, "KEY_"@) {
        lemma_prefix_char(n, "KEY_"@, 0);
        assert(nk[4] == 'K');
        lemma_no_named_key_after_key_prefix(nk);
    } else {
        assert(full_key_name(nk) == full_key_name(n));
    }
}

} // verus!

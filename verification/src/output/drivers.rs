//! Settings of the typing and pasting drivers of the output chain.

use vstd::prelude::*;

verus! {

/// wtype: Wayland virtual-keyboard typing
#[derive(Debug, Clone)]
pub struct WtypeOutput {
    pub auto_submit: bool,
    pub append_text: Option<String>,
    pub type_delay_ms: u32,
    pub pre_type_delay_ms: u32,
    pub shift_enter_newlines: bool,
}

/// eitype: typing through the libei/EI protocol
#[derive(Debug, Clone)]
pub struct EitypeOutput {
    pub auto_submit: bool,
    pub append_text: Option<String>,
    pub type_delay_ms: u32,
    pub pre_type_delay_ms: u32,
    pub shift_enter_newlines: bool,
}

/// ydotool: uinput typing through the ydotool daemon
#[derive(Debug, Clone)]
pub struct YdotoolOutput {
    pub type_delay_ms: u32,
    pub pre_type_delay_ms: u32,
    pub notify: bool,
    pub auto_submit: bool,
    pub append_text: Option<String>,
}

/// xclip: X11 clipboard
#[derive(Debug, Clone)]
pub struct XclipOutput {
    pub notify: bool,
    pub append_text: Option<String>,
}

/// Paste mode: clipboard plus a paste key combination
#[derive(Debug, Clone)]
pub struct PasteOutput {
    pub auto_submit: bool,
    pub append_text: Option<String>,
    pub paste_keys: Option<String>,
    pub type_delay_ms: u32,
    pub pre_type_delay_ms: u32,
    pub restore_clipboard: bool,
    pub restore_clipboard_delay_ms: u32,
}

} // verus!

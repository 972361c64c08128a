//! Decisions of the settings dialog: which key field is shown and read, and what
//! pressing Save yields.
use vstd::prelude::*;

use crate::interval::{
    law_dialog_reopens_on_saved_choice, selected_interval, spec_initial_selection,
    spec_selected_interval, CHOICE_COUNT,
};
use crate::text::{
    clean_key, key_from_units, key_text_from_units, law_key_reads_back, utf16_encode,
    utf16_lossy_decode, zero_units,
};

verus! {

/// Control identifier of the password-style key field.
pub const IDC_KEY_SECURE: u16 = 101;
/// Control identifier of the plain key field.
pub const IDC_KEY_PLAIN: u16 = 102;
/// Control identifier of the "Show API Key" box.
pub const IDC_SHOW: u16 = 103;
/// Control identifier of the interval drop-down list.
pub const IDC_INTERVAL: u16 = 104;
/// Control identifier of the Save button.
pub const IDC_SAVE: u16 = 105;
/// Control identifier of the key label.
pub const IDC_KEY_LABEL: u16 = 106;

/// A command message of the settings dialog, as far as the dialog tells them apart.
#[derive(Clone, Copy, Debug, PartialEq, Eq, Structural)]
pub enum SettingsCommand {
    /// "Show API Key" was clicked.
    ToggleShow,
    /// Save was pressed.
    Save,
    /// Anything else.
    Other,
}

/// Which command a `WM_COMMAND` of the dialog is: the control identifier is the low
/// 16 bits of `wparam`.
pub open spec fn spec_settings_command(wparam: usize) -> SettingsCommand {
    let id = (wparam & 0xFFFF) as u16;
    if id == IDC_SHOW {
        SettingsCommand::ToggleShow
    } else if id == IDC_SAVE {
        SettingsCommand::Save
    } else {
        SettingsCommand::Other
    }
}

/// Tells the dialog's command messages apart.
pub fn settings_command(wparam: usize) -> (c: SettingsCommand)
    ensures
        c == spec_settings_command(wparam),
{
    let id = (wparam & 0xFFFF) as u16;
    if id == IDC_SHOW {
        SettingsCommand::ToggleShow
    } else if id == IDC_SAVE {
        SettingsCommand::Save
    } else {
        SettingsCommand::Other
    }
}

/// A command of the dialog is Save exactly when the control identifier in the low
/// 16 bits of `wparam` is that of the Save button, and the "Show API Key" toggle
/// exactly when it is that of the check box, whatever notification code the high bits
/// carry; every other control (the key fields, the interval list, ...) gives Other.
pub proof fn law_settings_command_by_control(wparam: usize)
    ensures
        spec_settings_command(wparam) == SettingsCommand::Save <==> wparam % 0x10000
            == IDC_SAVE as usize,
        spec_settings_command(wparam) == SettingsCommand::ToggleShow <==> wparam % 0x10000
            == IDC_SHOW as usize,
        wparam % 0x10000 != IDC_SAVE as usize && wparam % 0x10000 != IDC_SHOW as usize
            ==> spec_settings_command(wparam) == SettingsCommand::Other,
{
    assert(((wparam & 0xFFFF) as u16 == 105u16) <==> (wparam % 0x10000 == 105usize))
        by (bit_vector);
    assert(((wparam & 0xFFFF) as u16 == 103u16) <==> (wparam % 0x10000 == 103usize))
        by (bit_vector);
}

/// One of the two edit fields that hold the API key.
#[derive(Clone, Copy, Debug, PartialEq, Eq, Structural)]
pub enum KeyField {
    /// The password-style field that hides the characters.
    Secure,
    /// The plain field that shows them.
    Plain,
}

impl KeyField {
    /// The control identifier of the field.
    pub fn control_id(&self) -> (id: u16)
        ensures
            id == (match *self {
                KeyField::Secure => IDC_KEY_SECURE,
                KeyField::Plain => IDC_KEY_PLAIN,
            }),
    {
        match self {
            KeyField::Secure => IDC_KEY_SECURE,
            KeyField::Plain => IDC_KEY_PLAIN,
        }
    }
}

/// What the dialog does when "Show API Key" is toggled.
#[derive(Clone, Copy, Debug, PartialEq, Eq, Structural)]
pub struct ShowKeyToggle {
    /// Whether the secure field is shown afterwards.
    pub show_secure: bool,
    /// Whether the plain field is shown afterwards.
    pub show_plain: bool,
    /// The field whose text is copied.
    pub copy_from: KeyField,
    /// The field that receives the copy.
    pub copy_to: KeyField,
}

/// Toggling "Show API Key" to `checked`: a checked box shows the plain field and
/// copies the secure field's text into it; an unchecked box does the reverse.
pub fn show_key_toggle(checked: bool) -> (t: ShowKeyToggle)
    ensures
        t.show_plain == checked,
        t.show_secure == !checked,
        t.copy_from == (if checked { KeyField::Secure } else { KeyField::Plain }),
        t.copy_to == (if checked { KeyField::Plain } else { KeyField::Secure }),
{
    if checked {
        ShowKeyToggle {
            show_secure: false,
            show_plain: true,
            copy_from: KeyField::Secure,
            copy_to: KeyField::Plain,
        }
    } else {
        ShowKeyToggle {
            show_secure: true,
            show_plain: false,
            copy_from: KeyField::Plain,
            copy_to: KeyField::Secure,
        }
    }
}

/// The field that Save reads the key from: the plain one when the secure one is
/// hidden, the secure one otherwise.
pub fn key_field_to_read(secure_visible: bool) -> (f: KeyField)
    ensures
        f == (if secure_visible { KeyField::Secure } else { KeyField::Plain }),
{
    if secure_visible {
        KeyField::Secure
    } else {
        KeyField::Plain
    }
}

/// What pressing Save yields, given the units of the key field and the drop-down
/// selection: nothing (the dialog flashes and stays open) when the cleaned key is
/// empty, else the cleaned key and the selected interval in seconds.
pub open spec fn spec_save_request(units: Seq<u16>, sel: usize) -> Option<(Seq<char>, u32)> {
    save_from_text(utf16_lossy_decode(units), sel)
}

/// What pressing Save yields when the key field holds `text`.
pub open spec fn save_from_text(text: Seq<char>, sel: usize) -> Option<(Seq<char>, u32)> {
    let key = clean_key(text);
    if key.len() == 0 {
        None
    } else {
        Some((key, spec_selected_interval(sel)))
    }
}

/// The saved key and interval as character sequence and number.
pub open spec fn saved_view(r: Option<(String, u32)>) -> Option<(Seq<char>, u32)> {
    match r {
        Some(p) => Some((p.0@, p.1)),
        None => None,
    }
}

/// Pressing Save: `None` when the key is empty after clean-up, else the key and the
/// interval in seconds that the dialog returns.
pub fn save_request(units: &[u16], sel: usize) -> (r: Option<(String, u32)>)
    ensures
        saved_view(r) == spec_save_request(units@, sel),
{
    let key = key_text_from_units(units);
    if key.as_str().unicode_len() == 0 {
        None
    } else {
        Some((key, selected_interval(sel)))
    }
}

/// A saved key is never empty, and the interval saved with it is one the dialog offers
/// (or the 300-second default).
pub proof fn law_saved_key_not_empty(units: Seq<u16>, sel: usize)
    ensures
        spec_save_request(units, sel) matches Some(p) ==> p.0.len() > 0 && p.0 == key_from_units(
            units,
        ) && p.1 == spec_selected_interval(sel),
{
}

/// Opening the dialog on a key it saved, with the interval it saved, and pressing Save
/// gives back that key and interval: the key field's buffer holds the key's units
/// followed by zeros, Save on that buffer yields the key, and the list reopens on the
/// entry the interval was saved from.
pub proof fn law_dialog_round_trip(key: Seq<char>, pad: nat, sel: usize)
    requires
        clean_key(key) == key,
        key.len() > 0,
        key.last() != '\0',
        sel < CHOICE_COUNT,
    ensures
        spec_initial_selection(spec_selected_interval(sel)) == Some(sel),
        spec_save_request(utf16_encode(key) + zero_units(pad), sel) == Some(
            (key, spec_selected_interval(sel)),
        ),
{
    law_key_reads_back(key, pad);
    law_dialog_reopens_on_saved_choice(sel);
}


/// Rust's signed division by two, which rounds toward zero.
pub open spec fn half_toward_zero(x: int) -> int {
    if x >= 0 {
        x / 2
    } else {
        -((-x) / 2)
    }
}

/// Where a window with the given frame goes to be centred on a screen of the given
/// size: half of what the screen leaves over in each direction.
pub fn centered_origin(
    left: i32,
    top: i32,
    right: i32,
    bottom: i32,
    screen_w: i32,
    screen_h: i32,
) -> (p: (i32, i32))
    requires
        i32::MIN <= right - left <= i32::MAX,
        i32::MIN <= bottom - top <= i32::MAX,
        i32::MIN <= screen_w - (right - left) <= i32::MAX,
        i32::MIN <= screen_h - (bottom - top) <= i32::MAX,
    ensures
        p.0 == half_toward_zero(screen_w - (right - left)),
        p.1 == half_toward_zero(screen_h - (bottom - top)),
{
    let w = right - left;
    let h = bottom - top;
    ((screen_w - w) / 2, (screen_h - h) / 2)
}

} // verus!

//! Keyboard shortcuts: keys, modifier sets, and the test that tells whether
//! a key press triggers a shortcut.

use vstd::prelude::*;
use vstd::std_specs::convert::FromSpecImpl;
use vstd::string::*;
use crate::text::{lowercase, lowercased, same_text};

verus! {

/// Which modifier keys a shortcut asks for.
#[derive(Clone, Copy, Debug)]
pub struct Modifiers {
    pub ctrl: bool,
    pub shift: bool,
    pub alt: bool,
    pub meta: bool,
}

impl Default for Modifiers {
    fn default() -> (modifiers: Modifiers)
        ensures
            modifiers == Modifiers::none_spec(),
    {
        Modifiers { ctrl: false, shift: false, alt: false, meta: false }
    }
}

/// One key press: the key's name as the platform reports it, and the
/// modifiers held with it.
#[derive(Clone, Debug)]
pub struct KeyEvent {
    key: String,
    ctrl: bool,
    shift: bool,
    alt: bool,
    meta: bool,
}

/// A key press as a mathematical value.
pub struct KeyEventModel {
    pub key: Seq<char>,
    pub ctrl: bool,
    pub shift: bool,
    pub alt: bool,
    pub meta: bool,
}

impl View for KeyEvent {
    type V = KeyEventModel;

    closed spec fn view(&self) -> KeyEventModel {
        KeyEventModel {
            key: self.key@,
            ctrl: self.ctrl,
            shift: self.shift,
            alt: self.alt,
            meta: self.meta,
        }
    }
}

impl KeyEventModel {
    /// The press written out: each held modifier in the order Ctrl, Shift,
    /// Alt, Meta, then the key, joined by `" + "`.
    pub open spec fn text(self) -> Seq<char> {
        (if self.ctrl {
            "Ctrl + "@
        } else {
            Seq::<char>::empty()
        }) + (if self.shift {
            "Shift + "@
        } else {
            Seq::<char>::empty()
        }) + (if self.alt {
            "Alt + "@
        } else {
            Seq::<char>::empty()
        }) + (if self.meta {
            "Meta + "@
        } else {
            Seq::<char>::empty()
        }) + self.key
    }
}

impl KeyEvent {
    pub fn new(key: String, ctrl: bool, shift: bool, alt: bool, meta: bool) -> (event: KeyEvent)
        ensures
            event@ == (KeyEventModel { key: key@, ctrl, shift, alt, meta }),
    {
        KeyEvent { key, ctrl, shift, alt, meta }
    }

    /// The key's name.
    pub fn key(&self) -> (key: &str)
        ensures
            key@ == self@.key,
    {
        self.key.as_str()
    }

    /// Writes the press out, as in `Ctrl + Shift + k`.
    pub fn to_string(&self) -> (text: String)
        ensures
            text@ == self@.text(),
    {
        let mut text = String::new();
        if self.ctrl {
            text.append("Ctrl + ");
        }
        if self.shift {
            text.append("Shift + ");
        }
        if self.alt {
            text.append("Alt + ");
        }
        if self.meta {
            text.append("Meta + ");
        }
        text.append(self.key.as_str());
        assert(text@ =~= self@.text());
        text
    }
}

impl Modifiers {
    /// No modifier at all.
    pub open spec fn none_spec() -> Modifiers {
        Modifiers { ctrl: false, shift: false, alt: false, meta: false }
    }

    /// The press holds exactly these modifiers.
    pub open spec fn held_by(self, event: KeyEventModel) -> bool {
        self.ctrl == event.ctrl && self.shift == event.shift && self.alt == event.alt && self.meta
            == event.meta
    }

    /// A set with every modifier off.
    pub fn none() -> (modifiers: Modifiers)
        ensures
            modifiers == Modifiers::none_spec(),
    {
        Modifiers { ctrl: false, shift: false, alt: false, meta: false }
    }

    /// The same set with Ctrl on.
    pub fn with_ctrl(self) -> (modifiers: Modifiers)
        ensures
            modifiers == (Modifiers { ctrl: true, ..self }),
    {
        let mut modifiers = self;
        modifiers.ctrl = true;
        modifiers
    }

    /// The same set with Shift on.
    pub fn with_shift(self) -> (modifiers: Modifiers)
        ensures
            modifiers == (Modifiers { shift: true, ..self }),
    {
        let mut modifiers = self;
        modifiers.shift = true;
        modifiers
    }

    /// The same set with Alt on.
    pub fn with_alt(self) -> (modifiers: Modifiers)
        ensures
            modifiers == (Modifiers { alt: true, ..self }),
    {
        let mut modifiers = self;
        modifiers.alt = true;
        modifiers
    }

    /// The same set with Meta on.
    pub fn with_meta(self) -> (modifiers: Modifiers)
        ensures
            modifiers == (Modifiers { meta: true, ..self }),
    {
        let mut modifiers = self;
        modifiers.meta = true;
        modifiers
    }

    /// Tells whether the press holds exactly these modifiers.
    pub fn matches(&self, event: &KeyEvent) -> (same: bool)
        ensures
            same == self.held_by(event@),
    {
        self.ctrl == event.ctrl && self.shift == event.shift && self.alt == event.alt && self.meta
            == event.meta
    }
}

/// A key that a shortcut can name.
#[derive(Clone, Copy, Debug, PartialEq, Eq, Hash, Structural)]
pub enum Key {
    /// A printable character, matched without regard to case.
    Character(char),
    Enter,
    Escape,
    Tab,
    Space,
    Backspace,
    Delete,
    Insert,
    Home,
    End,
    PageUp,
    PageDown,
    ArrowLeft,
    ArrowRight,
    ArrowUp,
    ArrowDown,
    F1,
    F2,
    F3,
    F4,
    F5,
    F6,
    F7,
    F8,
    F9,
    F10,
    F11,
    F12,
    CapsLock,
    NumLock,
    ScrollLock,
    PrintScreen,
    Pause,
    MediaPlayPause,
    MediaStop,
    MediaPrevTrack,
    MediaNextTrack,
    VolumeMute,
    VolumeUp,
    VolumeDown,
    NumpadEnter,
    NumpadDivide,
    NumpadMultiply,
    NumpadSubtract,
    NumpadAdd,
    NumpadDecimal,
    Numpad0,
    Numpad1,
    Numpad2,
    Numpad3,
    Numpad4,
    Numpad5,
    Numpad6,
    Numpad7,
    Numpad8,
    Numpad9,
}

/// The name under which the platform reports a key; for a character, the
/// character itself.
pub open spec fn key_text(key: Key) -> Seq<char> {
    match key {
        Key::Character(c) => seq![c],
        Key::Enter => "Enter"@,
        Key::Escape => "Escape"@,
        Key::Tab => "Tab"@,
        Key::Space => " "@,
        Key::Backspace => "Backspace"@,
        Key::Delete => "Delete"@,
        Key::Insert => "Insert"@,
        Key::Home => "Home"@,
        Key::End => "End"@,
        Key::PageUp => "PageUp"@,
        Key::PageDown => "PageDown"@,
        Key::ArrowLeft => "ArrowLeft"@,
        Key::ArrowRight => "ArrowRight"@,
        Key::ArrowUp => "ArrowUp"@,
        Key::ArrowDown => "ArrowDown"@,
        Key::F1 => "F1"@,
        Key::F2 => "F2"@,
        Key::F3 => "F3"@,
        Key::F4 => "F4"@,
        Key::F5 => "F5"@,
        Key::F6 => "F6"@,
        Key::F7 => "F7"@,
        Key::F8 => "F8"@,
        Key::F9 => "F9"@,
        Key::F10 => "F10"@,
        Key::F11 => "F11"@,
        Key::F12 => "F12"@,
        Key::CapsLock => "CapsLock"@,
        Key::NumLock => "NumLock"@,
        Key::ScrollLock => "ScrollLock"@,
        Key::PrintScreen => "PrintScreen"@,
        Key::Pause => "Pause"@,
        Key::MediaPlayPause => "MediaPlayPause"@,
        Key::MediaStop => "MediaStop"@,
        Key::MediaPrevTrack => "MediaTrackPrevious"@,
        Key::MediaNextTrack => "MediaTrackNext"@,
        Key::VolumeMute => "VolumeMute"@,
        Key::VolumeUp => "VolumeUp"@,
        Key::VolumeDown => "VolumeDown"@,
        Key::NumpadEnter => "Enter"@,
        Key::NumpadDivide => "/"@,
        Key::NumpadMultiply => "*"@,
        Key::NumpadSubtract => "-"@,
        Key::NumpadAdd => "+"@,
        Key::NumpadDecimal => "."@,
        Key::Numpad0 => "0"@,
        Key::Numpad1 => "1"@,
        Key::Numpad2 => "2"@,
        Key::Numpad3 => "3"@,
        Key::Numpad4 => "4"@,
        Key::Numpad5 => "5"@,
        Key::Numpad6 => "6"@,
        Key::Numpad7 => "7"@,
        Key::Numpad8 => "8"@,
        Key::Numpad9 => "9"@,
    }
}

/// The key sits on the number pad.
pub open spec fn on_numpad(key: Key) -> bool {
    match key {
        Key::NumpadEnter => true,
        Key::NumpadDivide => true,
        Key::NumpadMultiply => true,
        Key::NumpadSubtract => true,
        Key::NumpadAdd => true,
        Key::NumpadDecimal => true,
        Key::Numpad0 => true,
        Key::Numpad1 => true,
        Key::Numpad2 => true,
        Key::Numpad3 => true,
        Key::Numpad4 => true,
        Key::Numpad5 => true,
        Key::Numpad6 => true,
        Key::Numpad7 => true,
        Key::Numpad8 => true,
        Key::Numpad9 => true,
        _ => false,
    }
}

/// The key location by which the platform marks the number pad.
pub const NUMPAD_LOCATION: u32 = 3;

/// Calls `char::to_string`, which gives the text made of that one character.
#[verifier::external_body]
fn char_text(c: char) -> (text: String)
    ensures
        text@ == seq![c],
{
    c.to_string()
}

/// A press reported as `pressed` at `location` is a press of `key`: a
/// character matches without regard to case, the space bar under either of
/// its two names, every other key under its name, and a number-pad key only
/// at the number pad's location.
pub open spec fn key_accepts(key: Key, pressed: Seq<char>, location: u32) -> bool {
    match key {
        Key::Character(c) => lowercased(pressed) == lowercased(seq![c]),
        Key::Space => pressed == " "@ || pressed == "Spacebar"@,
        _ => pressed == key_text(key) && (on_numpad(key) ==> location == NUMPAD_LOCATION),
    }
}

fn fixed_name(key: &Key) -> (name: &'static str)
    requires
        !(key is Character),
    ensures
        name@ == key_text(*key),
{
    match key {
        Key::Character(_) => "",
        Key::Enter => "Enter",
        Key::Escape => "Escape",
        Key::Tab => "Tab",
        Key::Space => " ",
        Key::Backspace => "Backspace",
        Key::Delete => "Delete",
        Key::Insert => "Insert",
        Key::Home => "Home",
        Key::End => "End",
        Key::PageUp => "PageUp",
        Key::PageDown => "PageDown",
        Key::ArrowLeft => "ArrowLeft",
        Key::ArrowRight => "ArrowRight",
        Key::ArrowUp => "ArrowUp",
        Key::ArrowDown => "ArrowDown",
        Key::F1 => "F1",
        Key::F2 => "F2",
        Key::F3 => "F3",
        Key::F4 => "F4",
        Key::F5 => "F5",
        Key::F6 => "F6",
        Key::F7 => "F7",
        Key::F8 => "F8",
        Key::F9 => "F9",
        Key::F10 => "F10",
        Key::F11 => "F11",
        Key::F12 => "F12",
        Key::CapsLock => "CapsLock",
        Key::NumLock => "NumLock",
        Key::ScrollLock => "ScrollLock",
        Key::PrintScreen => "PrintScreen",
        Key::Pause => "Pause",
        Key::MediaPlayPause => "MediaPlayPause",
        Key::MediaStop => "MediaStop",
        Key::MediaPrevTrack => "MediaTrackPrevious",
        Key::MediaNextTrack => "MediaTrackNext",
        Key::VolumeMute => "VolumeMute",
        Key::VolumeUp => "VolumeUp",
        Key::VolumeDown => "VolumeDown",
        Key::NumpadEnter => "Enter",
        Key::NumpadDivide => "/",
        Key::NumpadMultiply => "*",
        Key::NumpadSubtract => "-",
        Key::NumpadAdd => "+",
        Key::NumpadDecimal => ".",
        Key::Numpad0 => "0",
        Key::Numpad1 => "1",
        Key::Numpad2 => "2",
        Key::Numpad3 => "3",
        Key::Numpad4 => "4",
        Key::Numpad5 => "5",
        Key::Numpad6 => "6",
        Key::Numpad7 => "7",
        Key::Numpad8 => "8",
        Key::Numpad9 => "9",
    }
}

fn is_numpad_key(key: &Key) -> (numpad: bool)
    ensures
        numpad == on_numpad(*key),
{
    match key {
        Key::NumpadEnter => true,
        Key::NumpadDivide => true,
        Key::NumpadMultiply => true,
        Key::NumpadSubtract => true,
        Key::NumpadAdd => true,
        Key::NumpadDecimal => true,
        Key::Numpad0 => true,
        Key::Numpad1 => true,
        Key::Numpad2 => true,
        Key::Numpad3 => true,
        Key::Numpad4 => true,
        Key::Numpad5 => true,
        Key::Numpad6 => true,
        Key::Numpad7 => true,
        Key::Numpad8 => true,
        Key::Numpad9 => true,
        _ => false,
    }
}

/// Tells whether the lower-case forms of a reported key name and of a
/// character, both already computed, are the same text.
pub fn same_lowercase(pressed_lower: &str, character_lower: &str) -> (same: bool)
    ensures
        same == (pressed_lower@ == character_lower@),
{
    same_text(pressed_lower, character_lower)
}

/// Tells whether a press, reported under the name `pressed` at `location`,
/// is a press of `key`.
pub fn key_matches(pressed: &str, location: u32, key: &Key) -> (matched: bool)
    ensures
        matched == key_accepts(*key, pressed@, location),
{
    match key {
        Key::Character(c) => {
            let pressed_lower = lowercase(pressed);
            let single = char_text(*c);
            let character_lower = lowercase(single.as_str());
            same_lowercase(pressed_lower.as_str(), character_lower.as_str())
        },
        Key::Space => same_text(pressed, " ") || same_text(pressed, "Spacebar"),
        _ => same_text(pressed, fixed_name(key)) && (!is_numpad_key(key) || location
            == NUMPAD_LOCATION),
    }
}

/// A key together with the modifiers that must be held with it.
#[derive(Clone, Copy, Debug)]
pub struct KeyShortcut {
    pub key: Key,
    pub modifiers: Modifiers,
}

impl Key {
    /// The shortcut of this key with Ctrl.
    pub fn with_ctrl(self) -> (shortcut: KeyShortcut)
        ensures
            shortcut == (KeyShortcut {
                key: self,
                modifiers: Modifiers { ctrl: true, ..Modifiers::none_spec() },
            }),
    {
        KeyShortcut::new(self).with_ctrl()
    }

    /// The shortcut of this key with Shift.
    pub fn with_shift(self) -> (shortcut: KeyShortcut)
        ensures
            shortcut == (KeyShortcut {
                key: self,
                modifiers: Modifiers { shift: true, ..Modifiers::none_spec() },
            }),
    {
        KeyShortcut::new(self).with_shift()
    }

    /// The shortcut of this key with Alt.
    pub fn with_alt(self) -> (shortcut: KeyShortcut)
        ensures
            shortcut == (KeyShortcut {
                key: self,
                modifiers: Modifiers { alt: true, ..Modifiers::none_spec() },
            }),
    {
        KeyShortcut::new(self).with_alt()
    }

    /// The shortcut of this key with Meta.
    pub fn with_meta(self) -> (shortcut: KeyShortcut)
        ensures
            shortcut == (KeyShortcut {
                key: self,
                modifiers: Modifiers { meta: true, ..Modifiers::none_spec() },
            }),
    {
        KeyShortcut::new(self).with_meta()
    }
}

impl KeyShortcut {
    /// The press triggers the shortcut: it is a press of the key, with exactly
    /// the shortcut's modifiers held.
    pub open spec fn triggered_by(self, event: KeyEventModel, location: u32) -> bool {
        key_accepts(self.key, event.key, location) && self.modifiers.held_by(event)
    }

    /// The shortcut of `key` alone.
    pub fn new(key: Key) -> (shortcut: KeyShortcut)
        ensures
            shortcut == (KeyShortcut { key, modifiers: Modifiers::none_spec() }),
    {
        KeyShortcut { key, modifiers: Modifiers::none() }
    }

    /// The same shortcut with Ctrl.
    pub fn with_ctrl(self) -> (shortcut: KeyShortcut)
        ensures
            shortcut == (KeyShortcut {
                key: self.key,
                modifiers: Modifiers { ctrl: true, ..self.modifiers },
            }),
    {
        KeyShortcut { key: self.key, modifiers: self.modifiers.with_ctrl() }
    }

    /// The same shortcut with Shift.
    pub fn with_shift(self) -> (shortcut: KeyShortcut)
        ensures
            shortcut == (KeyShortcut {
                key: self.key,
                modifiers: Modifiers { shift: true, ..self.modifiers },
            }),
    {
        KeyShortcut { key: self.key, modifiers: self.modifiers.with_shift() }
    }

    /// The same shortcut with Alt.
    pub fn with_alt(self) -> (shortcut: KeyShortcut)
        ensures
            shortcut == (KeyShortcut {
                key: self.key,
                modifiers: Modifiers { alt: true, ..self.modifiers },
            }),
    {
        KeyShortcut { key: self.key, modifiers: self.modifiers.with_alt() }
    }

    /// The same shortcut with Meta.
    pub fn with_meta(self) -> (shortcut: KeyShortcut)
        ensures
            shortcut == (KeyShortcut {
                key: self.key,
                modifiers: Modifiers { meta: true, ..self.modifiers },
            }),
    {
        KeyShortcut { key: self.key, modifiers: self.modifiers.with_meta() }
    }

    /// Tells whether a key press at `location` triggers the shortcut.
    pub fn is_triggered_by(&self, event: &KeyEvent, location: u32) -> (triggered: bool)
        ensures
            triggered == self.triggered_by(event@, location),
    {
        key_matches(event.key(), location, &self.key) && self.modifiers.matches(event)
    }
}

impl From<Key> for KeyShortcut {
    fn from(key: Key) -> (shortcut: KeyShortcut) {
        KeyShortcut::new(key)
    }
}

impl FromSpecImpl<Key> for KeyShortcut {
    open spec fn obeys_from_spec() -> bool {
        true
    }

    open spec fn from_spec(key: Key) -> KeyShortcut {
        KeyShortcut { key, modifiers: Modifiers::none_spec() }
    }
}

} // verus!

//! Key definitions and key event structures for terminal input.

use vstd::prelude::*;

verus! {

/// Every key input that terminal input can stand for, named as in go-prompt.
#[derive(Debug, Clone, Copy, PartialEq, Eq, Hash, Structural)]
pub enum Key {
    Escape,
    ControlA,
    ControlB,
    ControlC,
    ControlD,
    ControlE,
    ControlF,
    ControlG,
    ControlH,
    ControlI,
    ControlJ,
    ControlK,
    ControlL,
    ControlM,
    ControlN,
    ControlO,
    ControlP,
    ControlQ,
    ControlR,
    ControlS,
    ControlT,
    ControlU,
    ControlV,
    ControlW,
    ControlX,
    ControlY,
    ControlZ,
    ControlSpace,
    ControlBackslash,
    ControlSquareClose,
    ControlCircumflex,
    ControlUnderscore,
    ControlLeft,
    ControlRight,
    ControlUp,
    ControlDown,
    Up,
    Down,
    Right,
    Left,
    ShiftLeft,
    ShiftUp,
    ShiftDown,
    ShiftRight,
    Home,
    End,
    Delete,
    ShiftDelete,
    ControlDelete,
    PageUp,
    PageDown,
    BackTab,
    Insert,
    Backspace,
    Tab,
    Enter,
    F1,
    F2,
    F3,
    F4,
    F5,
    F6,
    F7,
    F8,
    F9,
    F10,
    F11,
    F12,
    F13,
    F14,
    F15,
    F16,
    F17,
    F18,
    F19,
    F20,
    F21,
    F22,
    F23,
    F24,
    Any,
    CPRResponse,
    Vt100MouseEvent,
    WindowsMouseEvent,
    BracketedPaste,
    Ignore,
    NotDefined,
}

/// A parsed key input event: the key, the raw bytes that produced it and the
/// text it carries, if any (a printable character, or pasted content).
#[derive(Debug, Clone, PartialEq)]
pub struct KeyEvent {
    /// The parsed key type
    pub key: Key,
    /// The raw bytes that were parsed to produce this key event
    pub raw_bytes: Vec<u8>,
    /// Text content carried by this event
    pub text: Option<String>,
}

/// The text of an optional string, empty when there is none.
pub open spec fn opt_text(t: Option<String>) -> Seq<char> {
    match t {
        Some(s) => s@,
        None => Seq::empty(),
    }
}

impl KeyEvent {
    /// Create a key event from its key, raw bytes and optional text.
    pub fn new(key: Key, raw_bytes: Vec<u8>, text: Option<String>) -> (e: Self)
        ensures
            e.key == key,
            e.raw_bytes == raw_bytes,
            e.text == text,
    {
        KeyEvent { key, raw_bytes, text }
    }

    /// Create a key event without text content.
    pub fn simple(key: Key, raw_bytes: Vec<u8>) -> (e: Self)
        ensures
            e.key == key,
            e.raw_bytes == raw_bytes,
            e.text is None,
    {
        Self::new(key, raw_bytes, None)
    }

    /// Create a key event with text content.
    pub fn with_text(key: Key, raw_bytes: Vec<u8>, text: String) -> (e: Self)
        ensures
            e.key == key,
            e.raw_bytes == raw_bytes,
            e.text == Some(text),
    {
        Self::new(key, raw_bytes, Some(text))
    }

    /// Whether this event carries text content.
    pub fn has_text(&self) -> (b: bool)
        ensures
            b == self.text is Some,
    {
        self.text.is_some()
    }

    /// The text content, or the empty string when there is none.
    pub fn text_or_empty(&self) -> (r: &str)
        ensures
            r@ == opt_text(self.text),
    {
        match &self.text {
            Some(t) => t.as_str(),
            None => {
                proof {
                    reveal_strlit("");
                }
                ""
            },
        }
    }
}

impl Default for KeyEvent {
    fn default() -> (e: Self)
        ensures
            e.key == Key::NotDefined,
            e.raw_bytes@.len() == 0,
            e.text is None,
    {
        KeyEvent { key: Key::NotDefined, raw_bytes: Vec::new(), text: None }
    }
}

/// The name of a key as users read it: "Ctrl+A", "Shift+Left", "F5", ...
pub open spec fn key_name_spec(key: Key) -> Seq<char> {
    match key {
        Key::Escape => "Escape"@,
        Key::ControlA => "Ctrl+A"@,
        Key::ControlB => "Ctrl+B"@,
        Key::ControlC => "Ctrl+C"@,
        Key::ControlD => "Ctrl+D"@,
        Key::ControlE => "Ctrl+E"@,
        Key::ControlF => "Ctrl+F"@,
        Key::ControlG => "Ctrl+G"@,
        Key::ControlH => "Ctrl+H"@,
        Key::ControlI => "Ctrl+I"@,
        Key::ControlJ => "Ctrl+J"@,
        Key::ControlK => "Ctrl+K"@,
        Key::ControlL => "Ctrl+L"@,
        Key::ControlM => "Ctrl+M"@,
        Key::ControlN => "Ctrl+N"@,
        Key::ControlO => "Ctrl+O"@,
        Key::ControlP => "Ctrl+P"@,
        Key::ControlQ => "Ctrl+Q"@,
        Key::ControlR => "Ctrl+R"@,
        Key::ControlS => "Ctrl+S"@,
        Key::ControlT => "Ctrl+T"@,
        Key::ControlU => "Ctrl+U"@,
        Key::ControlV => "Ctrl+V"@,
        Key::ControlW => "Ctrl+W"@,
        Key::ControlX => "Ctrl+X"@,
        Key::ControlY => "Ctrl+Y"@,
        Key::ControlZ => "Ctrl+Z"@,
        Key::ControlSpace => "Ctrl+Space"@,
        Key::ControlBackslash => "Ctrl+\\"@,
        Key::ControlSquareClose => "Ctrl+]"@,
        Key::ControlCircumflex => "Ctrl+^"@,
        Key::ControlUnderscore => "Ctrl+_"@,
        Key::ControlLeft => "Ctrl+Left"@,
        Key::ControlRight => "Ctrl+Right"@,
        Key::ControlUp => "Ctrl+Up"@,
        Key::ControlDown => "Ctrl+Down"@,
        Key::Up => "Up"@,
        Key::Down => "Down"@,
        Key::Right => "Right"@,
        Key::Left => "Left"@,
        Key::ShiftLeft => "Shift+Left"@,
        Key::ShiftUp => "Shift+Up"@,
        Key::ShiftDown => "Shift+Down"@,
        Key::ShiftRight => "Shift+Right"@,
        Key::Home => "Home"@,
        Key::End => "End"@,
        Key::Delete => "Delete"@,
        Key::ShiftDelete => "Shift+Delete"@,
        Key::ControlDelete => "Ctrl+Delete"@,
        Key::PageUp => "PageUp"@,
        Key::PageDown => "PageDown"@,
        Key::BackTab => "BackTab"@,
        Key::Insert => "Insert"@,
        Key::Backspace => "Backspace"@,
        Key::Tab => "Tab"@,
        Key::Enter => "Enter"@,
        Key::F1 => "F1"@,
        Key::F2 => "F2"@,
        Key::F3 => "F3"@,
        Key::F4 => "F4"@,
        Key::F5 => "F5"@,
        Key::F6 => "F6"@,
        Key::F7 => "F7"@,
        Key::F8 => "F8"@,
        Key::F9 => "F9"@,
        Key::F10 => "F10"@,
        Key::F11 => "F11"@,
        Key::F12 => "F12"@,
        Key::F13 => "F13"@,
        Key::F14 => "F14"@,
        Key::F15 => "F15"@,
        Key::F16 => "F16"@,
        Key::F17 => "F17"@,
        Key::F18 => "F18"@,
        Key::F19 => "F19"@,
        Key::F20 => "F20"@,
        Key::F21 => "F21"@,
        Key::F22 => "F22"@,
        Key::F23 => "F23"@,
        Key::F24 => "F24"@,
        Key::Any => "Any"@,
        Key::CPRResponse => "CPRResponse"@,
        Key::Vt100MouseEvent => "Vt100MouseEvent"@,
        Key::WindowsMouseEvent => "WindowsMouseEvent"@,
        Key::BracketedPaste => "BracketedPaste"@,
        Key::Ignore => "Ignore"@,
        Key::NotDefined => "NotDefined"@,
    }
}

/// The name of a key as users read it.
pub fn key_name(key: Key) -> (s: &'static str)
    ensures
        s@ == key_name_spec(key),
{
    match key {
        Key::Escape => "Escape",
        Key::ControlA => "Ctrl+A",
        Key::ControlB => "Ctrl+B",
        Key::ControlC => "Ctrl+C",
        Key::ControlD => "Ctrl+D",
        Key::ControlE => "Ctrl+E",
        Key::ControlF => "Ctrl+F",
        Key::ControlG => "Ctrl+G",
        Key::ControlH => "Ctrl+H",
        Key::ControlI => "Ctrl+I",
        Key::ControlJ => "Ctrl+J",
        Key::ControlK => "Ctrl+K",
        Key::ControlL => "Ctrl+L",
        Key::ControlM => "Ctrl+M",
        Key::ControlN => "Ctrl+N",
        Key::ControlO => "Ctrl+O",
        Key::ControlP => "Ctrl+P",
        Key::ControlQ => "Ctrl+Q",
        Key::ControlR => "Ctrl+R",
        Key::ControlS => "Ctrl+S",
        Key::ControlT => "Ctrl+T",
        Key::ControlU => "Ctrl+U",
        Key::ControlV => "Ctrl+V",
        Key::ControlW => "Ctrl+W",
        Key::ControlX => "Ctrl+X",
        Key::ControlY => "Ctrl+Y",
        Key::ControlZ => "Ctrl+Z",
        Key::ControlSpace => "Ctrl+Space",
        Key::ControlBackslash => "Ctrl+\\",
        Key::ControlSquareClose => "Ctrl+]",
        Key::ControlCircumflex => "Ctrl+^",
        Key::ControlUnderscore => "Ctrl+_",
        Key::ControlLeft => "Ctrl+Left",
        Key::ControlRight => "Ctrl+Right",
        Key::ControlUp => "Ctrl+Up",
        Key::ControlDown => "Ctrl+Down",
        Key::Up => "Up",
        Key::Down => "Down",
        Key::Right => "Right",
        Key::Left => "Left",
        Key::ShiftLeft => "Shift+Left",
        Key::ShiftUp => "Shift+Up",
        Key::ShiftDown => "Shift+Down",
        Key::ShiftRight => "Shift+Right",
        Key::Home => "Home",
        Key::End => "End",
        Key::Delete => "Delete",
        Key::ShiftDelete => "Shift+Delete",
        Key::ControlDelete => "Ctrl+Delete",
        Key::PageUp => "PageUp",
        Key::PageDown => "PageDown",
        Key::BackTab => "BackTab",
        Key::Insert => "Insert",
        Key::Backspace => "Backspace",
        Key::Tab => "Tab",
        Key::Enter => "Enter",
        Key::F1 => "F1",
        Key::F2 => "F2",
        Key::F3 => "F3",
        Key::F4 => "F4",
        Key::F5 => "F5",
        Key::F6 => "F6",
        Key::F7 => "F7",
        Key::F8 => "F8",
        Key::F9 => "F9",
        Key::F10 => "F10",
        Key::F11 => "F11",
        Key::F12 => "F12",
        Key::F13 => "F13",
        Key::F14 => "F14",
        Key::F15 => "F15",
        Key::F16 => "F16",
        Key::F17 => "F17",
        Key::F18 => "F18",
        Key::F19 => "F19",
        Key::F20 => "F20",
        Key::F21 => "F21",
        Key::F22 => "F22",
        Key::F23 => "F23",
        Key::F24 => "F24",
        Key::Any => "Any",
        Key::CPRResponse => "CPRResponse",
        Key::Vt100MouseEvent => "Vt100MouseEvent",
        Key::WindowsMouseEvent => "WindowsMouseEvent",
        Key::BracketedPaste => "BracketedPaste",
        Key::Ignore => "Ignore",
        Key::NotDefined => "NotDefined",
    }
}

/// The name of a key as `{:?}` prints it: the variant's name.
pub open spec fn key_debug_spec(key: Key) -> Seq<char> {
    match key {
        Key::Escape => "Escape"@,
        Key::ControlA => "ControlA"@,
        Key::ControlB => "ControlB"@,
        Key::ControlC => "ControlC"@,
        Key::ControlD => "ControlD"@,
        Key::ControlE => "ControlE"@,
        Key::ControlF => "ControlF"@,
        Key::ControlG => "ControlG"@,
        Key::ControlH => "ControlH"@,
        Key::ControlI => "ControlI"@,
        Key::ControlJ => "ControlJ"@,
        Key::ControlK => "ControlK"@,
        Key::ControlL => "ControlL"@,
        Key::ControlM => "ControlM"@,
        Key::ControlN => "ControlN"@,
        Key::ControlO => "ControlO"@,
        Key::ControlP => "ControlP"@,
        Key::ControlQ => "ControlQ"@,
        Key::ControlR => "ControlR"@,
        Key::ControlS => "ControlS"@,
        Key::ControlT => "ControlT"@,
        Key::ControlU => "ControlU"@,
        Key::ControlV => "ControlV"@,
        Key::ControlW => "ControlW"@,
        Key::ControlX => "ControlX"@,
        Key::ControlY => "ControlY"@,
        Key::ControlZ => "ControlZ"@,
        Key::ControlSpace => "ControlSpace"@,
        Key::ControlBackslash => "ControlBackslash"@,
        Key::ControlSquareClose => "ControlSquareClose"@,
        Key::ControlCircumflex => "ControlCircumflex"@,
        Key::ControlUnderscore => "ControlUnderscore"@,
        Key::ControlLeft => "ControlLeft"@,
        Key::ControlRight => "ControlRight"@,
        Key::ControlUp => "ControlUp"@,
        Key::ControlDown => "ControlDown"@,
        Key::Up => "Up"@,
        Key::Down => "Down"@,
        Key::Right => "Right"@,
        Key::Left => "Left"@,
        Key::ShiftLeft => "ShiftLeft"@,
        Key::ShiftUp => "ShiftUp"@,
        Key::ShiftDown => "ShiftDown"@,
        Key::ShiftRight => "ShiftRight"@,
        Key::Home => "Home"@,
        Key::End => "End"@,
        Key::Delete => "Delete"@,
        Key::ShiftDelete => "ShiftDelete"@,
        Key::ControlDelete => "ControlDelete"@,
        Key::PageUp => "PageUp"@,
        Key::PageDown => "PageDown"@,
        Key::BackTab => "BackTab"@,
        Key::Insert => "Insert"@,
        Key::Backspace => "Backspace"@,
        Key::Tab => "Tab"@,
        Key::Enter => "Enter"@,
        Key::F1 => "F1"@,
        Key::F2 => "F2"@,
        Key::F3 => "F3"@,
        Key::F4 => "F4"@,
        Key::F5 => "F5"@,
        Key::F6 => "F6"@,
        Key::F7 => "F7"@,
        Key::F8 => "F8"@,
        Key::F9 => "F9"@,
        Key::F10 => "F10"@,
        Key::F11 => "F11"@,
        Key::F12 => "F12"@,
        Key::F13 => "F13"@,
        Key::F14 => "F14"@,
        Key::F15 => "F15"@,
        Key::F16 => "F16"@,
        Key::F17 => "F17"@,
        Key::F18 => "F18"@,
        Key::F19 => "F19"@,
        Key::F20 => "F20"@,
        Key::F21 => "F21"@,
        Key::F22 => "F22"@,
        Key::F23 => "F23"@,
        Key::F24 => "F24"@,
        Key::Any => "Any"@,
        Key::CPRResponse => "CPRResponse"@,
        Key::Vt100MouseEvent => "Vt100MouseEvent"@,
        Key::WindowsMouseEvent => "WindowsMouseEvent"@,
        Key::BracketedPaste => "BracketedPaste"@,
        Key::Ignore => "Ignore"@,
        Key::NotDefined => "NotDefined"@,
    }
}

/// The name of a key as `{:?}` prints it.
pub fn key_debug_name(key: Key) -> (s: &'static str)
    ensures
        s@ == key_debug_spec(key),
{
    match key {
        Key::Escape => "Escape",
        Key::ControlA => "ControlA",
        Key::ControlB => "ControlB",
        Key::ControlC => "ControlC",
        Key::ControlD => "ControlD",
        Key::ControlE => "ControlE",
        Key::ControlF => "ControlF",
        Key::ControlG => "ControlG",
        Key::ControlH => "ControlH",
        Key::ControlI => "ControlI",
        Key::ControlJ => "ControlJ",
        Key::ControlK => "ControlK",
        Key::ControlL => "ControlL",
        Key::ControlM => "ControlM",
        Key::ControlN => "ControlN",
        Key::ControlO => "ControlO",
        Key::ControlP => "ControlP",
        Key::ControlQ => "ControlQ",
        Key::ControlR => "ControlR",
        Key::ControlS => "ControlS",
        Key::ControlT => "ControlT",
        Key::ControlU => "ControlU",
        Key::ControlV => "ControlV",
        Key::ControlW => "ControlW",
        Key::ControlX => "ControlX",
        Key::ControlY => "ControlY",
        Key::ControlZ => "ControlZ",
        Key::ControlSpace => "ControlSpace",
        Key::ControlBackslash => "ControlBackslash",
        Key::ControlSquareClose => "ControlSquareClose",
        Key::ControlCircumflex => "ControlCircumflex",
        Key::ControlUnderscore => "ControlUnderscore",
        Key::ControlLeft => "ControlLeft",
        Key::ControlRight => "ControlRight",
        Key::ControlUp => "ControlUp",
        Key::ControlDown => "ControlDown",
        Key::Up => "Up",
        Key::Down => "Down",
        Key::Right => "Right",
        Key::Left => "Left",
        Key::ShiftLeft => "ShiftLeft",
        Key::ShiftUp => "ShiftUp",
        Key::ShiftDown => "ShiftDown",
        Key::ShiftRight => "ShiftRight",
        Key::Home => "Home",
        Key::End => "End",
        Key::Delete => "Delete",
        Key::ShiftDelete => "ShiftDelete",
        Key::ControlDelete => "ControlDelete",
        Key::PageUp => "PageUp",
        Key::PageDown => "PageDown",
        Key::BackTab => "BackTab",
        Key::Insert => "Insert",
        Key::Backspace => "Backspace",
        Key::Tab => "Tab",
        Key::Enter => "Enter",
        Key::F1 => "F1",
        Key::F2 => "F2",
        Key::F3 => "F3",
        Key::F4 => "F4",
        Key::F5 => "F5",
        Key::F6 => "F6",
        Key::F7 => "F7",
        Key::F8 => "F8",
        Key::F9 => "F9",
        Key::F10 => "F10",
        Key::F11 => "F11",
        Key::F12 => "F12",
        Key::F13 => "F13",
        Key::F14 => "F14",
        Key::F15 => "F15",
        Key::F16 => "F16",
        Key::F17 => "F17",
        Key::F18 => "F18",
        Key::F19 => "F19",
        Key::F20 => "F20",
        Key::F21 => "F21",
        Key::F22 => "F22",
        Key::F23 => "F23",
        Key::F24 => "F24",
        Key::Any => "Any",
        Key::CPRResponse => "CPRResponse",
        Key::Vt100MouseEvent => "Vt100MouseEvent",
        Key::WindowsMouseEvent => "WindowsMouseEvent",
        Key::BracketedPaste => "BracketedPaste",
        Key::Ignore => "Ignore",
        Key::NotDefined => "NotDefined",
    }
}

} // verus!

//! The input-translation tables: virtual key codes, mouse buttons and keyboard
//! modifiers of the host windowing framework mapped to their GUI-library
//! counterparts. Every table is a pure, total function; a code or button with
//! no counterpart maps to nothing and the caller drops the event.

use vstd::prelude::*;

verus! {

/// The host windowing framework's virtual key codes, as plain values.
#[derive(Clone, Copy, PartialEq, Eq, Structural, Debug)]
pub enum KeyCode {
    Key1,
    Key2,
    Key3,
    Key4,
    Key5,
    Key6,
    Key7,
    Key8,
    Key9,
    Key0,
    A,
    B,
    C,
    D,
    E,
    F,
    G,
    H,
    I,
    J,
    K,
    L,
    M,
    N,
    O,
    P,
    Q,
    R,
    S,
    T,
    U,
    V,
    W,
    X,
    Y,
    Z,
    Escape,
    F1,
    F2,
    F3,
    F4,
    F5,
    F6,
    F7,
    F8,
    F9,
    F10,
    F11,
    F12,
    F13,
    F14,
    F15,
    F16,
    F17,
    F18,
    F19,
    F20,
    F21,
    F22,
    F23,
    F24,
    PrintScreen,
    ScrollLock,
    PauseBreak,
    Insert,
    Home,
    Delete,
    End,
    PageDown,
    PageUp,
    Left,
    Up,
    Right,
    Down,
    Backspace,
    Return,
    Space,
    Compose,
    Caret,
    Numlock,
    Numpad0,
    Numpad1,
    Numpad2,
    Numpad3,
    Numpad4,
    Numpad5,
    Numpad6,
    Numpad7,
    Numpad8,
    Numpad9,
    NumpadAdd,
    NumpadDivide,
    NumpadDecimal,
    NumpadComma,
    NumpadEnter,
    NumpadEquals,
    NumpadMultiply,
    NumpadSubtract,
    AbntC1,
    AbntC2,
    Apostrophe,
    Apps,
    Asterisk,
    At,
    Ax,
    Backslash,
    Calculator,
    Capital,
    Colon,
    Comma,
    Convert,
    Equals,
    Grave,
    Kana,
    Kanji,
    LAlt,
    LBracket,
    LControl,
    LShift,
    LWin,
    Mail,
    MediaSelect,
    MediaStop,
    Minus,
    Mute,
    MyComputer,
    NavigateForward,
    NavigateBackward,
    NextTrack,
    NoConvert,
    OEM102,
    Period,
    PlayPause,
    Plus,
    Power,
    PrevTrack,
    RAlt,
    RBracket,
    RControl,
    RShift,
    RWin,
    Semicolon,
    Slash,
    Sleep,
    Stop,
    Sysrq,
    Tab,
    Underline,
    Unlabeled,
    VolumeDown,
    VolumeUp,
    Wake,
    WebBack,
    WebFavorites,
    WebForward,
    WebHome,
    WebRefresh,
    WebSearch,
    WebStop,
    Yen,
    Copy,
    Paste,
    Cut,
}

/// The GUI library's logical keys that the mapping table can produce.
#[derive(Clone, Copy, PartialEq, Eq, Structural, Debug)]
pub enum UiKey {
    A,
    B,
    C,
    D,
    E,
    F,
    G,
    H,
    I,
    J,
    K,
    L,
    M,
    N,
    O,
    P,
    Q,
    R,
    S,
    T,
    U,
    V,
    W,
    X,
    Y,
    Z,
    Escape,
    F1,
    F2,
    F3,
    F4,
    F5,
    F6,
    F7,
    F8,
    F9,
    F10,
    F11,
    F12,
    F13,
    F14,
    F15,
    F16,
    F17,
    F18,
    F19,
    F20,
    Insert,
    Home,
    Delete,
    End,
    PageDown,
    PageUp,
    ArrowLeft,
    ArrowUp,
    ArrowRight,
    ArrowDown,
    Backspace,
    Enter,
    Space,
    Num0,
    Num1,
    Num2,
    Num3,
    Num4,
    Num5,
    Num6,
    Num7,
    Num8,
    Num9,
    Tab,
}

/// The closed key-mapping table: letters, function keys, navigation keys,
/// numpad digits, tab, escape, enter, space, backspace and the arrows map to
/// their GUI-library keys; every other code, and the absence of a code, maps
/// to nothing.
pub open spec fn key_map(code: Option<KeyCode>) -> Option<UiKey> {
    match code {
        Some(KeyCode::A) => Some(UiKey::A),
        Some(KeyCode::B) => Some(UiKey::B),
        Some(KeyCode::C) => Some(UiKey::C),
        Some(KeyCode::D) => Some(UiKey::D),
        Some(KeyCode::E) => Some(UiKey::E),
        Some(KeyCode::F) => Some(UiKey::F),
        Some(KeyCode::G) => Some(UiKey::G),
        Some(KeyCode::H) => Some(UiKey::H),
        Some(KeyCode::I) => Some(UiKey::I),
        Some(KeyCode::J) => Some(UiKey::J),
        Some(KeyCode::K) => Some(UiKey::K),
        Some(KeyCode::L) => Some(UiKey::L),
        Some(KeyCode::M) => Some(UiKey::M),
        Some(KeyCode::N) => Some(UiKey::N),
        Some(KeyCode::O) => Some(UiKey::O),
        Some(KeyCode::P) => Some(UiKey::P),
        Some(KeyCode::Q) => Some(UiKey::Q),
        Some(KeyCode::R) => Some(UiKey::R),
        Some(KeyCode::S) => Some(UiKey::S),
        Some(KeyCode::T) => Some(UiKey::T),
        Some(KeyCode::U) => Some(UiKey::U),
        Some(KeyCode::V) => Some(UiKey::V),
        Some(KeyCode::W) => Some(UiKey::W),
        Some(KeyCode::X) => Some(UiKey::X),
        Some(KeyCode::Y) => Some(UiKey::Y),
        Some(KeyCode::Z) => Some(UiKey::Z),
        Some(KeyCode::Escape) => Some(UiKey::Escape),
        Some(KeyCode::F1) => Some(UiKey::F1),
        Some(KeyCode::F2) => Some(UiKey::F2),
        Some(KeyCode::F3) => Some(UiKey::F3),
        Some(KeyCode::F4) => Some(UiKey::F4),
        Some(KeyCode::F5) => Some(UiKey::F5),
        Some(KeyCode::F6) => Some(UiKey::F6),
        Some(KeyCode::F7) => Some(UiKey::F7),
        Some(KeyCode::F8) => Some(UiKey::F8),
        Some(KeyCode::F9) => Some(UiKey::F9),
        Some(KeyCode::F10) => Some(UiKey::F10),
        Some(KeyCode::F11) => Some(UiKey::F11),
        Some(KeyCode::F12) => Some(UiKey::F12),
        Some(KeyCode::F13) => Some(UiKey::F13),
        Some(KeyCode::F14) => Some(UiKey::F14),
        Some(KeyCode::F15) => Some(UiKey::F15),
        Some(KeyCode::F16) => Some(UiKey::F16),
        Some(KeyCode::F17) => Some(UiKey::F17),
        Some(KeyCode::F18) => Some(UiKey::F18),
        Some(KeyCode::F19) => Some(UiKey::F19),
        Some(KeyCode::F20) => Some(UiKey::F20),
        Some(KeyCode::Insert) => Some(UiKey::Insert),
        Some(KeyCode::Home) => Some(UiKey::Home),
        Some(KeyCode::Delete) => Some(UiKey::Delete),
        Some(KeyCode::End) => Some(UiKey::End),
        Some(KeyCode::PageDown) => Some(UiKey::PageDown),
        Some(KeyCode::PageUp) => Some(UiKey::PageUp),
        Some(KeyCode::Left) => Some(UiKey::ArrowLeft),
        Some(KeyCode::Up) => Some(UiKey::ArrowUp),
        Some(KeyCode::Right) => Some(UiKey::ArrowRight),
        Some(KeyCode::Down) => Some(UiKey::ArrowDown),
        Some(KeyCode::Backspace) => Some(UiKey::Backspace),
        Some(KeyCode::Return) => Some(UiKey::Enter),
        Some(KeyCode::Space) => Some(UiKey::Space),
        Some(KeyCode::Numpad0) => Some(UiKey::Num0),
        Some(KeyCode::Numpad1) => Some(UiKey::Num1),
        Some(KeyCode::Numpad2) => Some(UiKey::Num2),
        Some(KeyCode::Numpad3) => Some(UiKey::Num3),
        Some(KeyCode::Numpad4) => Some(UiKey::Num4),
        Some(KeyCode::Numpad5) => Some(UiKey::Num5),
        Some(KeyCode::Numpad6) => Some(UiKey::Num6),
        Some(KeyCode::Numpad7) => Some(UiKey::Num7),
        Some(KeyCode::Numpad8) => Some(UiKey::Num8),
        Some(KeyCode::Numpad9) => Some(UiKey::Num9),
        Some(KeyCode::Tab) => Some(UiKey::Tab),
        _ => None,
    }
}

/// Translates one host virtual key code through the mapping table.
pub fn key_from_code(code: Option<KeyCode>) -> (r: Option<UiKey>)
    ensures
        r == key_map(code),
{
    match code {
        Some(KeyCode::A) => Some(UiKey::A),
        Some(KeyCode::B) => Some(UiKey::B),
        Some(KeyCode::C) => Some(UiKey::C),
        Some(KeyCode::D) => Some(UiKey::D),
        Some(KeyCode::E) => Some(UiKey::E),
        Some(KeyCode::F) => Some(UiKey::F),
        Some(KeyCode::G) => Some(UiKey::G),
        Some(KeyCode::H) => Some(UiKey::H),
        Some(KeyCode::I) => Some(UiKey::I),
        Some(KeyCode::J) => Some(UiKey::J),
        Some(KeyCode::K) => Some(UiKey::K),
        Some(KeyCode::L) => Some(UiKey::L),
        Some(KeyCode::M) => Some(UiKey::M),
        Some(KeyCode::N) => Some(UiKey::N),
        Some(KeyCode::O) => Some(UiKey::O),
        Some(KeyCode::P) => Some(UiKey::P),
        Some(KeyCode::Q) => Some(UiKey::Q),
        Some(KeyCode::R) => Some(UiKey::R),
        Some(KeyCode::S) => Some(UiKey::S),
        Some(KeyCode::T) => Some(UiKey::T),
        Some(KeyCode::U) => Some(UiKey::U),
        Some(KeyCode::V) => Some(UiKey::V),
        Some(KeyCode::W) => Some(UiKey::W),
        Some(KeyCode::X) => Some(UiKey::X),
        Some(KeyCode::Y) => Some(UiKey::Y),
        Some(KeyCode::Z) => Some(UiKey::Z),
        Some(KeyCode::Escape) => Some(UiKey::Escape),
        Some(KeyCode::F1) => Some(UiKey::F1),
        Some(KeyCode::F2) => Some(UiKey::F2),
        Some(KeyCode::F3) => Some(UiKey::F3),
        Some(KeyCode::F4) => Some(UiKey::F4),
        Some(KeyCode::F5) => Some(UiKey::F5),
        Some(KeyCode::F6) => Some(UiKey::F6),
        Some(KeyCode::F7) => Some(UiKey::F7),
        Some(KeyCode::F8) => Some(UiKey::F8),
        Some(KeyCode::F9) => Some(UiKey::F9),
        Some(KeyCode::F10) => Some(UiKey::F10),
        Some(KeyCode::F11) => Some(UiKey::F11),
        Some(KeyCode::F12) => Some(UiKey::F12),
        Some(KeyCode::F13) => Some(UiKey::F13),
        Some(KeyCode::F14) => Some(UiKey::F14),
        Some(KeyCode::F15) => Some(UiKey::F15),
        Some(KeyCode::F16) => Some(UiKey::F16),
        Some(KeyCode::F17) => Some(UiKey::F17),
        Some(KeyCode::F18) => Some(UiKey::F18),
        Some(KeyCode::F19) => Some(UiKey::F19),
        Some(KeyCode::F20) => Some(UiKey::F20),
        Some(KeyCode::Insert) => Some(UiKey::Insert),
        Some(KeyCode::Home) => Some(UiKey::Home),
        Some(KeyCode::Delete) => Some(UiKey::Delete),
        Some(KeyCode::End) => Some(UiKey::End),
        Some(KeyCode::PageDown) => Some(UiKey::PageDown),
        Some(KeyCode::PageUp) => Some(UiKey::PageUp),
        Some(KeyCode::Left) => Some(UiKey::ArrowLeft),
        Some(KeyCode::Up) => Some(UiKey::ArrowUp),
        Some(KeyCode::Right) => Some(UiKey::ArrowRight),
        Some(KeyCode::Down) => Some(UiKey::ArrowDown),
        Some(KeyCode::Backspace) => Some(UiKey::Backspace),
        Some(KeyCode::Return) => Some(UiKey::Enter),
        Some(KeyCode::Space) => Some(UiKey::Space),
        Some(KeyCode::Numpad0) => Some(UiKey::Num0),
        Some(KeyCode::Numpad1) => Some(UiKey::Num1),
        Some(KeyCode::Numpad2) => Some(UiKey::Num2),
        Some(KeyCode::Numpad3) => Some(UiKey::Num3),
        Some(KeyCode::Numpad4) => Some(UiKey::Num4),
        Some(KeyCode::Numpad5) => Some(UiKey::Num5),
        Some(KeyCode::Numpad6) => Some(UiKey::Num6),
        Some(KeyCode::Numpad7) => Some(UiKey::Num7),
        Some(KeyCode::Numpad8) => Some(UiKey::Num8),
        Some(KeyCode::Numpad9) => Some(UiKey::Num9),
        Some(KeyCode::Tab) => Some(UiKey::Tab),
        _ => None,
    }
}

/// A mouse button as the host windowing framework reports it.
#[derive(Clone, Copy, PartialEq, Eq, Structural, Debug)]
pub enum MouseButton {
    Left,
    Middle,
    Right,
    Other(u16),
}

/// A pointer button as the GUI library names it.
#[derive(Clone, Copy, PartialEq, Eq, Structural, Debug)]
pub enum PointerButton {
    Primary,
    Secondary,
    Middle,
}

/// The button-mapping table: left, right and middle map to the GUI library's
/// primary, secondary and middle pointer buttons; any other button maps to
/// nothing.
pub open spec fn button_map(button: MouseButton) -> Option<PointerButton> {
    match button {
        MouseButton::Left => Some(PointerButton::Primary),
        MouseButton::Right => Some(PointerButton::Secondary),
        MouseButton::Middle => Some(PointerButton::Middle),
        MouseButton::Other(_) => None,
    }
}

/// Translates one host mouse button through the button-mapping table.
pub fn pointer_button_from_mouse(button: MouseButton) -> (r: Option<PointerButton>)
    ensures
        r == button_map(button),
{
    match button {
        MouseButton::Left => Some(PointerButton::Primary),
        MouseButton::Right => Some(PointerButton::Secondary),
        MouseButton::Middle => Some(PointerButton::Middle),
        MouseButton::Other(_) => None,
    }
}

/// The host windowing framework's snapshot of the modifier keys.
#[derive(Clone, Copy, PartialEq, Eq, Structural, Debug)]
pub struct ModifierKeys {
    pub ctrl: bool,
    pub alt: bool,
    pub shift: bool,
    pub logo: bool,
}

impl ModifierKeys {
    /// The state with no modifier key held, as at startup.
    pub open spec fn none() -> ModifierKeys {
        ModifierKeys { ctrl: false, alt: false, shift: false, logo: false }
    }
}

/// The GUI library's modifier set.
#[derive(Clone, Copy, PartialEq, Eq, Structural, Debug)]
pub struct UiModifiers {
    pub alt: bool,
    pub ctrl: bool,
    pub shift: bool,
    pub mac_cmd: bool,
    pub command: bool,
}

/// The modifier-mapping table: alt, ctrl and shift map one to one; the GUI
/// library's platform command modifier is approximated as ctrl, since the host
/// draws no native distinction; the Mac-specific command flag is always false.
pub open spec fn modifiers_map(keys: ModifierKeys) -> UiModifiers {
    UiModifiers {
        alt: keys.alt,
        ctrl: keys.ctrl,
        shift: keys.shift,
        mac_cmd: false,
        command: keys.ctrl,
    }
}

/// Translates one host modifier snapshot through the modifier-mapping table.
pub fn modifiers_from_keys(keys: &ModifierKeys) -> (r: UiModifiers)
    ensures
        r == modifiers_map(*keys),
{
    UiModifiers {
        alt: keys.alt,
        ctrl: keys.ctrl,
        shift: keys.shift,
        mac_cmd: false,
        command: keys.ctrl,
    }
}

} // verus!

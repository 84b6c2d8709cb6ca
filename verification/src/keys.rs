use vstd::prelude::*;

use crate::bridge::HalaImGui;

verus! {

/// A physical key position as the windowing system reports it, named after
/// the key found there on a US keyboard.
#[derive(Clone, Copy, Debug, PartialEq, Eq, Hash, Structural)]
pub enum KeyCode {
    Backquote,
    Backslash,
    BracketLeft,
    BracketRight,
    Comma,
    Digit0,
    Digit1,
    Digit2,
    Digit3,
    Digit4,
    Digit5,
    Digit6,
    Digit7,
    Digit8,
    Digit9,
    Equal,
    IntlBackslash,
    IntlRo,
    IntlYen,
    KeyA,
    KeyB,
    KeyC,
    KeyD,
    KeyE,
    KeyF,
    KeyG,
    KeyH,
    KeyI,
    KeyJ,
    KeyK,
    KeyL,
    KeyM,
    KeyN,
    KeyO,
    KeyP,
    KeyQ,
    KeyR,
    KeyS,
    KeyT,
    KeyU,
    KeyV,
    KeyW,
    KeyX,
    KeyY,
    KeyZ,
    Minus,
    Period,
    Quote,
    Semicolon,
    Slash,
    AltLeft,
    AltRight,
    Backspace,
    CapsLock,
    ContextMenu,
    ControlLeft,
    ControlRight,
    Enter,
    SuperLeft,
    SuperRight,
    ShiftLeft,
    ShiftRight,
    Space,
    Tab,
    Convert,
    KanaMode,
    Lang1,
    Lang2,
    Lang3,
    Lang4,
    Lang5,
    NonConvert,
    Delete,
    End,
    Help,
    Home,
    Insert,
    PageDown,
    PageUp,
    ArrowDown,
    ArrowLeft,
    ArrowRight,
    ArrowUp,
    NumLock,
    Numpad0,
    Numpad1,
    Numpad2,
    Numpad3,
    Numpad4,
    Numpad5,
    Numpad6,
    Numpad7,
    Numpad8,
    Numpad9,
    NumpadAdd,
    NumpadBackspace,
    NumpadClear,
    NumpadClearEntry,
    NumpadComma,
    NumpadDecimal,
    NumpadDivide,
    NumpadEnter,
    NumpadEqual,
    NumpadHash,
    NumpadMemoryAdd,
    NumpadMemoryClear,
    NumpadMemoryRecall,
    NumpadMemoryStore,
    NumpadMemorySubtract,
    NumpadMultiply,
    NumpadParenLeft,
    NumpadParenRight,
    NumpadStar,
    NumpadSubtract,
    Escape,
    Fn,
    FnLock,
    PrintScreen,
    ScrollLock,
    Pause,
    BrowserBack,
    BrowserFavorites,
    BrowserForward,
    BrowserHome,
    BrowserRefresh,
    BrowserSearch,
    BrowserStop,
    Eject,
    LaunchApp1,
    LaunchApp2,
    LaunchMail,
    MediaPlayPause,
    MediaSelect,
    MediaStop,
    MediaTrackNext,
    MediaTrackPrevious,
    Power,
    Sleep,
    AudioVolumeDown,
    AudioVolumeMute,
    AudioVolumeUp,
    WakeUp,
    Meta,
    Hyper,
    Turbo,
    Abort,
    Resume,
    Suspend,
    Again,
    Copy,
    Cut,
    Find,
    Open,
    Paste,
    Props,
    Select,
    Undo,
    Hiragana,
    Katakana,
    F1,
    F2,
    F3,
    F4,
    F5,
    F6,
    F7,
    F8,
    F9,
    F10,
    F11,
    F12,
    F13,
    F14,
    F15,
    F16,
    F17,
    F18,
    F19,
    F20,
    F21,
    F22,
    F23,
    F24,
    F25,
    F26,
    F27,
    F28,
    F29,
    F30,
    F31,
    F32,
    F33,
    F34,
    F35,
}

/// A platform scancode for a key that has no [`KeyCode`].
#[derive(Clone, Copy, Debug, PartialEq, Eq, Hash, Structural)]
pub enum NativeKeyCode {
    Unidentified,
    Android(u32),
    MacOS(u16),
    Windows(u16),
    Xkb(u32),
}

/// The key of a keyboard event: a known position or a raw scancode.
#[derive(Clone, Copy, Debug, PartialEq, Eq, Hash, Structural)]
pub enum PhysicalKey {
    Code(KeyCode),
    Unidentified(NativeKeyCode),
}

/// A key of the GUI's input model. The four `Mod*` keys stand for "either
/// side" of a modifier and are never the translation of a physical key.
#[derive(Clone, Copy, Debug, PartialEq, Eq, Hash, Structural)]
pub enum Key {
    Tab,
    LeftArrow,
    RightArrow,
    UpArrow,
    DownArrow,
    PageUp,
    PageDown,
    Home,
    End,
    Insert,
    Delete,
    Backspace,
    Space,
    Enter,
    Escape,
    LeftCtrl,
    LeftShift,
    LeftAlt,
    LeftSuper,
    RightCtrl,
    RightShift,
    RightAlt,
    RightSuper,
    Alpha0,
    Alpha1,
    Alpha2,
    Alpha3,
    Alpha4,
    Alpha5,
    Alpha6,
    Alpha7,
    Alpha8,
    Alpha9,
    A,
    B,
    C,
    D,
    E,
    F,
    G,
    H,
    I,
    J,
    K,
    L,
    M,
    N,
    O,
    P,
    Q,
    R,
    S,
    T,
    U,
    V,
    W,
    X,
    Y,
    Z,
    F1,
    F2,
    F3,
    F4,
    F5,
    F6,
    F7,
    F8,
    F9,
    F10,
    F11,
    F12,
    Apostrophe,
    Comma,
    Minus,
    Period,
    Slash,
    Semicolon,
    Equal,
    LeftBracket,
    Backslash,
    RightBracket,
    GraveAccent,
    CapsLock,
    ScrollLock,
    NumLock,
    PrintScreen,
    Pause,
    Keypad0,
    Keypad1,
    Keypad2,
    Keypad3,
    Keypad4,
    Keypad5,
    Keypad6,
    Keypad7,
    Keypad8,
    Keypad9,
    KeypadDecimal,
    KeypadDivide,
    KeypadMultiply,
    KeypadSubtract,
    KeypadAdd,
    KeypadEnter,
    KeypadEqual,
    ModCtrl,
    ModShift,
    ModAlt,
    ModSuper,
}

/// The GUI key bound to a key position, if any. Positions that are absent
/// from the table have no GUI key.
pub open spec fn key_for(code: KeyCode) -> Option<Key> {
    match code {
        KeyCode::Tab => Some(Key::Tab),
        KeyCode::ArrowLeft => Some(Key::LeftArrow),
        KeyCode::ArrowRight => Some(Key::RightArrow),
        KeyCode::ArrowUp => Some(Key::UpArrow),
        KeyCode::ArrowDown => Some(Key::DownArrow),
        KeyCode::PageUp => Some(Key::PageUp),
        KeyCode::PageDown => Some(Key::PageDown),
        KeyCode::Home => Some(Key::Home),
        KeyCode::End => Some(Key::End),
        KeyCode::Insert => Some(Key::Insert),
        KeyCode::Delete => Some(Key::Delete),
        KeyCode::Backspace => Some(Key::Backspace),
        KeyCode::Space => Some(Key::Space),
        KeyCode::Enter => Some(Key::Enter),
        KeyCode::Escape => Some(Key::Escape),
        KeyCode::ControlLeft => Some(Key::LeftCtrl),
        KeyCode::ShiftLeft => Some(Key::LeftShift),
        KeyCode::AltLeft => Some(Key::LeftAlt),
        KeyCode::SuperLeft => Some(Key::LeftSuper),
        KeyCode::ControlRight => Some(Key::RightCtrl),
        KeyCode::ShiftRight => Some(Key::RightShift),
        KeyCode::AltRight => Some(Key::RightAlt),
        KeyCode::SuperRight => Some(Key::RightSuper),
        KeyCode::Digit0 => Some(Key::Alpha0),
        KeyCode::Digit1 => Some(Key::Alpha1),
        KeyCode::Digit2 => Some(Key::Alpha2),
        KeyCode::Digit3 => Some(Key::Alpha3),
        KeyCode::Digit4 => Some(Key::Alpha4),
        KeyCode::Digit5 => Some(Key::Alpha5),
        KeyCode::Digit6 => Some(Key::Alpha6),
        KeyCode::Digit7 => Some(Key::Alpha7),
        KeyCode::Digit8 => Some(Key::Alpha8),
        KeyCode::Digit9 => Some(Key::Alpha9),
        KeyCode::KeyA => Some(Key::A),
        KeyCode::KeyB => Some(Key::B),
        KeyCode::KeyC => Some(Key::C),
        KeyCode::KeyD => Some(Key::D),
        KeyCode::KeyE => Some(Key::E),
        KeyCode::KeyF => Some(Key::F),
        KeyCode::KeyG => Some(Key::G),
        KeyCode::KeyH => Some(Key::H),
        KeyCode::KeyI => Some(Key::I),
        KeyCode::KeyJ => Some(Key::J),
        KeyCode::KeyK => Some(Key::K),
        KeyCode::KeyL => Some(Key::L),
        KeyCode::KeyM => Some(Key::M),
        KeyCode::KeyN => Some(Key::N),
        KeyCode::KeyO => Some(Key::O),
        KeyCode::KeyP => Some(Key::P),
        KeyCode::KeyQ => Some(Key::Q),
        KeyCode::KeyR => Some(Key::R),
        KeyCode::KeyS => Some(Key::S),
        KeyCode::KeyT => Some(Key::T),
        KeyCode::KeyU => Some(Key::U),
        KeyCode::KeyV => Some(Key::V),
        KeyCode::KeyW => Some(Key::W),
        KeyCode::KeyX => Some(Key::X),
        KeyCode::KeyY => Some(Key::Y),
        KeyCode::KeyZ => Some(Key::Z),
        KeyCode::F1 => Some(Key::F1),
        KeyCode::F2 => Some(Key::F2),
        KeyCode::F3 => Some(Key::F3),
        KeyCode::F4 => Some(Key::F4),
        KeyCode::F5 => Some(Key::F5),
        KeyCode::F6 => Some(Key::F6),
        KeyCode::F7 => Some(Key::F7),
        KeyCode::F8 => Some(Key::F8),
        KeyCode::F9 => Some(Key::F9),
        KeyCode::F10 => Some(Key::F10),
        KeyCode::F11 => Some(Key::F11),
        KeyCode::F12 => Some(Key::F12),
        KeyCode::Quote => Some(Key::Apostrophe),
        KeyCode::Comma => Some(Key::Comma),
        KeyCode::Minus => Some(Key::Minus),
        KeyCode::Period => Some(Key::Period),
        KeyCode::Slash => Some(Key::Slash),
        KeyCode::Semicolon => Some(Key::Semicolon),
        KeyCode::Equal => Some(Key::Equal),
        KeyCode::BracketLeft => Some(Key::LeftBracket),
        KeyCode::Backslash => Some(Key::Backslash),
        KeyCode::BracketRight => Some(Key::RightBracket),
        KeyCode::Backquote => Some(Key::GraveAccent),
        KeyCode::CapsLock => Some(Key::CapsLock),
        KeyCode::ScrollLock => Some(Key::ScrollLock),
        KeyCode::NumLock => Some(Key::NumLock),
        KeyCode::PrintScreen => Some(Key::PrintScreen),
        KeyCode::Pause => Some(Key::Pause),
        KeyCode::Numpad0 => Some(Key::Keypad0),
        KeyCode::Numpad1 => Some(Key::Keypad1),
        KeyCode::Numpad2 => Some(Key::Keypad2),
        KeyCode::Numpad3 => Some(Key::Keypad3),
        KeyCode::Numpad4 => Some(Key::Keypad4),
        KeyCode::Numpad5 => Some(Key::Keypad5),
        KeyCode::Numpad6 => Some(Key::Keypad6),
        KeyCode::Numpad7 => Some(Key::Keypad7),
        KeyCode::Numpad8 => Some(Key::Keypad8),
        KeyCode::Numpad9 => Some(Key::Keypad9),
        KeyCode::NumpadDecimal => Some(Key::KeypadDecimal),
        KeyCode::NumpadDivide => Some(Key::KeypadDivide),
        KeyCode::NumpadMultiply => Some(Key::KeypadMultiply),
        KeyCode::NumpadSubtract => Some(Key::KeypadSubtract),
        KeyCode::NumpadAdd => Some(Key::KeypadAdd),
        KeyCode::NumpadEnter => Some(Key::KeypadEnter),
        KeyCode::NumpadEqual => Some(Key::KeypadEqual),
        KeyCode::NumpadBackspace => Some(Key::Backspace),
        _ => None,
    }
}

/// The GUI key of a keyboard event's key: that of its position, and none
/// for a raw scancode.
pub open spec fn physical_key_for(key: PhysicalKey) -> Option<Key> {
    match key {
        PhysicalKey::Code(code) => key_for(code),
        PhysicalKey::Unidentified(_) => None,
    }
}

/// The "either side" modifier key that changes state together with a left
/// or right modifier position.
pub open spec fn modifier_for(code: KeyCode) -> Option<Key> {
    match code {
        KeyCode::ControlLeft | KeyCode::ControlRight => Some(Key::ModCtrl),
        KeyCode::ShiftLeft | KeyCode::ShiftRight => Some(Key::ModShift),
        KeyCode::AltLeft | KeyCode::AltRight => Some(Key::ModAlt),
        KeyCode::SuperLeft | KeyCode::SuperRight => Some(Key::ModSuper),
        _ => None,
    }
}

/// Whether a GUI key is one of the four "either side" modifier keys.
pub open spec fn is_combined_modifier(key: Key) -> bool {
    key == Key::ModCtrl || key == Key::ModShift || key == Key::ModAlt || key == Key::ModSuper
}

/// Exec form of [`modifier_for`].
pub fn combined_modifier(code: KeyCode) -> (key: Option<Key>)
    ensures
        key == modifier_for(code),
{
    match code {
        KeyCode::ControlLeft | KeyCode::ControlRight => Some(Key::ModCtrl),
        KeyCode::ShiftLeft | KeyCode::ShiftRight => Some(Key::ModShift),
        KeyCode::AltLeft | KeyCode::AltRight => Some(Key::ModAlt),
        KeyCode::SuperLeft | KeyCode::SuperRight => Some(Key::ModSuper),
        _ => None,
    }
}

impl HalaImGui {
    /// Translates the key of a keyboard event into the GUI key it drives.
    pub fn to_key(phys_key: PhysicalKey) -> (key: Option<Key>)
        ensures
            key == physical_key_for(phys_key),
    {
        let key = match phys_key {
            PhysicalKey::Code(code) => match code {
                KeyCode::Tab => Key::Tab,
                KeyCode::ArrowLeft => Key::LeftArrow,
                KeyCode::ArrowRight => Key::RightArrow,
                KeyCode::ArrowUp => Key::UpArrow,
                KeyCode::ArrowDown => Key::DownArrow,
                KeyCode::PageUp => Key::PageUp,
                KeyCode::PageDown => Key::PageDown,
                KeyCode::Home => Key::Home,
                KeyCode::End => Key::End,
                KeyCode::Insert => Key::Insert,
                KeyCode::Delete => Key::Delete,
                KeyCode::Backspace => Key::Backspace,
                KeyCode::Space => Key::Space,
                KeyCode::Enter => Key::Enter,
                KeyCode::Escape => Key::Escape,
                KeyCode::ControlLeft => Key::LeftCtrl,
                KeyCode::ShiftLeft => Key::LeftShift,
                KeyCode::AltLeft => Key::LeftAlt,
                KeyCode::SuperLeft => Key::LeftSuper,
                KeyCode::ControlRight => Key::RightCtrl,
                KeyCode::ShiftRight => Key::RightShift,
                KeyCode::AltRight => Key::RightAlt,
                KeyCode::SuperRight => Key::RightSuper,
                KeyCode::Digit0 => Key::Alpha0,
                KeyCode::Digit1 => Key::Alpha1,
                KeyCode::Digit2 => Key::Alpha2,
                KeyCode::Digit3 => Key::Alpha3,
                KeyCode::Digit4 => Key::Alpha4,
                KeyCode::Digit5 => Key::Alpha5,
                KeyCode::Digit6 => Key::Alpha6,
                KeyCode::Digit7 => Key::Alpha7,
                KeyCode::Digit8 => Key::Alpha8,
                KeyCode::Digit9 => Key::Alpha9,
                KeyCode::KeyA => Key::A,
                KeyCode::KeyB => Key::B,
                KeyCode::KeyC => Key::C,
                KeyCode::KeyD => Key::D,
                KeyCode::KeyE => Key::E,
                KeyCode::KeyF => Key::F,
                KeyCode::KeyG => Key::G,
                KeyCode::KeyH => Key::H,
                KeyCode::KeyI => Key::I,
                KeyCode::KeyJ => Key::J,
                KeyCode::KeyK => Key::K,
                KeyCode::KeyL => Key::L,
                KeyCode::KeyM => Key::M,
                KeyCode::KeyN => Key::N,
                KeyCode::KeyO => Key::O,
                KeyCode::KeyP => Key::P,
                KeyCode::KeyQ => Key::Q,
                KeyCode::KeyR => Key::R,
                KeyCode::KeyS => Key::S,
                KeyCode::KeyT => Key::T,
                KeyCode::KeyU => Key::U,
                KeyCode::KeyV => Key::V,
                KeyCode::KeyW => Key::W,
                KeyCode::KeyX => Key::X,
                KeyCode::KeyY => Key::Y,
                KeyCode::KeyZ => Key::Z,
                KeyCode::F1 => Key::F1,
                KeyCode::F2 => Key::F2,
                KeyCode::F3 => Key::F3,
                KeyCode::F4 => Key::F4,
                KeyCode::F5 => Key::F5,
                KeyCode::F6 => Key::F6,
                KeyCode::F7 => Key::F7,
                KeyCode::F8 => Key::F8,
                KeyCode::F9 => Key::F9,
                KeyCode::F10 => Key::F10,
                KeyCode::F11 => Key::F11,
                KeyCode::F12 => Key::F12,
                KeyCode::Quote => Key::Apostrophe,
                KeyCode::Comma => Key::Comma,
                KeyCode::Minus => Key::Minus,
                KeyCode::Period => Key::Period,
                KeyCode::Slash => Key::Slash,
                KeyCode::Semicolon => Key::Semicolon,
                KeyCode::Equal => Key::Equal,
                KeyCode::BracketLeft => Key::LeftBracket,
                KeyCode::Backslash => Key::Backslash,
                KeyCode::BracketRight => Key::RightBracket,
                KeyCode::Backquote => Key::GraveAccent,
                KeyCode::CapsLock => Key::CapsLock,
                KeyCode::ScrollLock => Key::ScrollLock,
                KeyCode::NumLock => Key::NumLock,
                KeyCode::PrintScreen => Key::PrintScreen,
                KeyCode::Pause => Key::Pause,
                KeyCode::Numpad0 => Key::Keypad0,
                KeyCode::Numpad1 => Key::Keypad1,
                KeyCode::Numpad2 => Key::Keypad2,
                KeyCode::Numpad3 => Key::Keypad3,
                KeyCode::Numpad4 => Key::Keypad4,
                KeyCode::Numpad5 => Key::Keypad5,
                KeyCode::Numpad6 => Key::Keypad6,
                KeyCode::Numpad7 => Key::Keypad7,
                KeyCode::Numpad8 => Key::Keypad8,
                KeyCode::Numpad9 => Key::Keypad9,
                KeyCode::NumpadDecimal => Key::KeypadDecimal,
                KeyCode::NumpadDivide => Key::KeypadDivide,
                KeyCode::NumpadMultiply => Key::KeypadMultiply,
                KeyCode::NumpadSubtract => Key::KeypadSubtract,
                KeyCode::NumpadAdd => Key::KeypadAdd,
                KeyCode::NumpadEnter => Key::KeypadEnter,
                KeyCode::NumpadEqual => Key::KeypadEqual,
                KeyCode::NumpadBackspace => Key::Backspace,
                _ => return None,
            },
            PhysicalKey::Unidentified(_) => return None,
        };
        Some(key)
    }
}

/// No position has an "either side" modifier key as its own GUI key, and
/// every position that drives such a modifier has a GUI key of its own.
pub proof fn lemma_combined_modifiers_are_never_translations(code: KeyCode)
    ensures
        key_for(code) matches Some(key) ==> !is_combined_modifier(key),
        modifier_for(code) is Some ==> key_for(code) is Some,
{
}

/// Two different positions drive two different GUI keys, with one
/// exception: the backspace of the main block and that of the keypad both
/// drive the GUI's one backspace key.
pub proof fn lemma_positions_drive_distinct_keys(a: KeyCode, b: KeyCode)
    requires
        a != b,
        key_for(a) is Some,
        key_for(a) == key_for(b),
    ensures
        key_for(a) == Some(Key::Backspace),
        a == KeyCode::Backspace || a == KeyCode::NumpadBackspace,
        b == KeyCode::Backspace || b == KeyCode::NumpadBackspace,
{
}

} // verus!

//! Platform-neutral key identities.

use vstd::prelude::*;

verus! {

/// The raw code of a key that has no symbolic identity.
#[derive(Clone, Copy, Debug, PartialEq, Eq, Hash, Structural)]
pub enum NativeKeyCode {
    Unidentified,
    /// An extended scan code as Windows reports it.
    Windows(u16),
    MacOS(u32),
    XKB(u32),
}

/// A key that produces no text and has a fixed name.
#[derive(Clone, Copy, Debug, PartialEq, Eq, Hash, Structural)]
pub enum NamedKey {
    Backspace,
    Tab,
    Clear,
    Enter,
    Shift,
    Control,
    Alt,
    Pause,
    CapsLock,
    HangulMode,
    KanaMode,
    JunjaMode,
    FinalMode,
    HanjaMode,
    KanjiMode,
    Escape,
    Convert,
    NonConvert,
    Accept,
    ModeChange,
    Space,
    PageUp,
    PageDown,
    End,
    Home,
    ArrowLeft,
    ArrowUp,
    ArrowRight,
    ArrowDown,
    Select,
    Print,
    Execute,
    PrintScreen,
    Insert,
    Delete,
    Help,
    Super,
    ContextMenu,
    Standby,
    F1,
    F2,
    F3,
    F4,
    F5,
    F6,
    F7,
    F8,
    F9,
    F10,
    F11,
    F12,
    F13,
    F14,
    F15,
    F16,
    F17,
    F18,
    F19,
    F20,
    F21,
    F22,
    F23,
    F24,
    NumLock,
    ScrollLock,
    BrowserBack,
    BrowserForward,
    BrowserRefresh,
    BrowserStop,
    BrowserSearch,
    BrowserFavorites,
    BrowserHome,
    AudioVolumeMute,
    AudioVolumeDown,
    AudioVolumeUp,
    MediaTrackNext,
    MediaTrackPrevious,
    MediaStop,
    MediaPlayPause,
    LaunchMail,
    LaunchMediaPlayer,
    LaunchApplication1,
    LaunchApplication2,
    Process,
    Attn,
    Copy,
    Hankaku,
    Zenkaku,
    Romaji,
    CrSel,
    ExSel,
    EraseEof,
    Play,
    ZoomToggle,
    AltGraph,
    Katakana,
}

/// A handle to a string held by a `StringInterner`. Two handles of one
/// interner are equal exactly when the strings they stand for are equal.
#[derive(Clone, Copy, Debug, PartialEq, Eq, Hash, Structural)]
pub struct Symbol {
    pub index: usize,
}

/// The logical identity of a key press.
#[derive(Clone, Copy, Debug, PartialEq, Eq, Hash)]
pub enum Key {
    /// A printable key; the text lives in the interner that made the handle.
    Character(Symbol),
    /// A dead key, with the character it composes onto where that is known.
    Dead(Option<char>),
    Named(NamedKey),
    Unidentified(NativeKeyCode),
}

/// A key with its text written out: what a `Key` means once its handle has
/// been looked up.
pub ghost enum KeyText {
    Character(Seq<char>),
    Dead(Option<char>),
    Named(NamedKey),
    Unidentified(NativeKeyCode),
}

impl Key {
    /// The handle is one that an interner holding `strings` has handed out.
    pub open spec fn valid_in(self, strings: Seq<Seq<char>>) -> bool {
        self matches Key::Character(s) ==> s.index < strings.len()
    }

    /// The meaning of this key, with `strings` the contents of the interner.
    pub open spec fn text(self, strings: Seq<Seq<char>>) -> KeyText {
        match self {
            Key::Character(s) => KeyText::Character(strings[s.index as int]),
            Key::Dead(c) => KeyText::Dead(c),
            Key::Named(n) => KeyText::Named(n),
            Key::Unidentified(c) => KeyText::Unidentified(c),
        }
    }

    pub open spec fn is_unidentified(self) -> bool {
        self is Unidentified
    }

    /// True for every key but the unidentified ones.
    pub fn is_identified(&self) -> (r: bool)
        ensures
            r == !self.is_unidentified(),
    {
        match self {
            Key::Unidentified(_) => false,
            _ => true,
        }
    }
}

/// The position of a physical key, whatever the layout prints on it.
#[derive(Clone, Copy, Debug, PartialEq, Eq, Hash, Structural)]
pub enum KeyCode {
    Backquote,
    Backslash,
    BracketLeft,
    BracketRight,
    Comma,
    Digit0,
    Digit1,
    Digit2,
    Digit3,
    Digit4,
    Digit5,
    Digit6,
    Digit7,
    Digit8,
    Digit9,
    Equal,
    IntlBackslash,
    IntlRo,
    IntlYen,
    KeyA,
    KeyB,
    KeyC,
    KeyD,
    KeyE,
    KeyF,
    KeyG,
    KeyH,
    KeyI,
    KeyJ,
    KeyK,
    KeyL,
    KeyM,
    KeyN,
    KeyO,
    KeyP,
    KeyQ,
    KeyR,
    KeyS,
    KeyT,
    KeyU,
    KeyV,
    KeyW,
    KeyX,
    KeyY,
    KeyZ,
    Minus,
    Period,
    Quote,
    Semicolon,
    Slash,
    AltLeft,
    AltRight,
    Backspace,
    CapsLock,
    ContextMenu,
    ControlLeft,
    ControlRight,
    Enter,
    SuperLeft,
    SuperRight,
    ShiftLeft,
    ShiftRight,
    Space,
    Tab,
    Convert,
    KanaMode,
    Lang1,
    Lang2,
    Lang3,
    Lang4,
    Lang5,
    NonConvert,
    Delete,
    End,
    Help,
    Home,
    Insert,
    PageDown,
    PageUp,
    ArrowDown,
    ArrowLeft,
    ArrowRight,
    ArrowUp,
    NumLock,
    Numpad0,
    Numpad1,
    Numpad2,
    Numpad3,
    Numpad4,
    Numpad5,
    Numpad6,
    Numpad7,
    Numpad8,
    Numpad9,
    NumpadAdd,
    NumpadBackspace,
    NumpadClear,
    NumpadClearEntry,
    NumpadComma,
    NumpadDecimal,
    NumpadDivide,
    NumpadEnter,
    NumpadEqual,
    NumpadHash,
    NumpadMemoryAdd,
    NumpadMemoryClear,
    NumpadMemoryRecall,
    NumpadMemoryStore,
    NumpadMemorySubtract,
    NumpadMultiply,
    NumpadParenLeft,
    NumpadParenRight,
    NumpadStar,
    NumpadSubtract,
    Escape,
    Fn,
    FnLock,
    PrintScreen,
    ScrollLock,
    Pause,
    BrowserBack,
    BrowserFavorites,
    BrowserForward,
    BrowserHome,
    BrowserRefresh,
    BrowserSearch,
    BrowserStop,
    Eject,
    LaunchApp1,
    LaunchApp2,
    LaunchMail,
    MediaPlayPause,
    MediaSelect,
    MediaStop,
    MediaTrackNext,
    MediaTrackPrevious,
    Power,
    Sleep,
    AudioVolumeDown,
    AudioVolumeMute,
    AudioVolumeUp,
    WakeUp,
    Hyper,
    Turbo,
    Abort,
    Resume,
    Suspend,
    Again,
    Copy,
    Cut,
    Find,
    Open,
    Paste,
    Props,
    Select,
    Undo,
    Hiragana,
    Katakana,
    F1,
    F2,
    F3,
    F4,
    F5,
    F6,
    F7,
    F8,
    F9,
    F10,
    F11,
    F12,
    F13,
    F14,
    F15,
    F16,
    F17,
    F18,
    F19,
    F20,
    F21,
    F22,
    F23,
    F24,
    F25,
    F26,
    F27,
    F28,
    F29,
    F30,
    F31,
    F32,
    F33,
    F34,
    F35,
    Unidentified(NativeKeyCode),
}

/// The modifiers that are held, as applications see them.
#[derive(Clone, Copy, Debug, PartialEq, Eq, Hash, Structural)]
pub struct ModifiersState {
    pub shift: bool,
    pub control: bool,
    pub alt: bool,
    pub super_key: bool,
}

} // verus!

//! The fixed tables between virtual keys, key positions and named keys.

use vstd::prelude::*;
use crate::keyboard::{Key, KeyCode, NamedKey, NativeKeyCode};
use crate::vkeys::{
    primary_lang_id, primary_lang_id_spec,
    LANG_JAPANESE, LANG_KOREAN, VK_ACCEPT, VK_ADD, VK_APPS, VK_ATTN, VK_BACK, VK_BROWSER_BACK,
    VK_BROWSER_FAVORITES, VK_BROWSER_FORWARD, VK_BROWSER_HOME, VK_BROWSER_REFRESH,
    VK_BROWSER_SEARCH, VK_BROWSER_STOP, VK_CAPITAL, VK_CLEAR, VK_CONTROL, VK_CONVERT, VK_CRSEL,
    VK_DECIMAL, VK_DELETE, VK_DIVIDE, VK_DOWN, VK_END, VK_EREOF, VK_ESCAPE, VK_EXECUTE,
    VK_EXSEL, VK_F1, VK_F10, VK_F11, VK_F12, VK_F13, VK_F14, VK_F15, VK_F16, VK_F17, VK_F18,
    VK_F19, VK_F2, VK_F20, VK_F21, VK_F22, VK_F23, VK_F24, VK_F3, VK_F4, VK_F5, VK_F6, VK_F7,
    VK_F8, VK_F9, VK_FINAL, VK_HANGUL, VK_HANJA, VK_HELP, VK_HOME, VK_INSERT, VK_JUNJA,
    VK_KANA, VK_KANJI, VK_LAUNCH_APP1, VK_LAUNCH_APP2, VK_LAUNCH_MAIL, VK_LAUNCH_MEDIA_SELECT,
    VK_LBUTTON, VK_LCONTROL, VK_LEFT, VK_LMENU, VK_LSHIFT, VK_LWIN, VK_MBUTTON,
    VK_MEDIA_NEXT_TRACK, VK_MEDIA_PLAY_PAUSE, VK_MEDIA_PREV_TRACK, VK_MEDIA_STOP, VK_MENU,
    VK_MODECHANGE, VK_MULTIPLY, VK_NEXT, VK_NONCONVERT, VK_NUMLOCK, VK_NUMPAD0, VK_NUMPAD1,
    VK_NUMPAD2, VK_NUMPAD3, VK_NUMPAD4, VK_NUMPAD5, VK_NUMPAD6, VK_NUMPAD7, VK_NUMPAD8,
    VK_NUMPAD9, VK_OEM_ATTN, VK_OEM_AUTO, VK_OEM_BACKTAB, VK_OEM_CLEAR, VK_OEM_COPY,
    VK_OEM_ENLW, VK_OEM_FINISH, VK_PAUSE, VK_PLAY, VK_PRINT, VK_PRIOR, VK_PROCESSKEY,
    VK_RBUTTON, VK_RCONTROL, VK_RETURN, VK_RIGHT, VK_RMENU, VK_RSHIFT, VK_RWIN, VK_SCROLL,
    VK_SELECT, VK_SEPARATOR, VK_SHIFT, VK_SLEEP, VK_SNAPSHOT, VK_SPACE, VK_SUBTRACT, VK_TAB,
    VK_UP, VK_VOLUME_DOWN, VK_VOLUME_MUTE, VK_VOLUME_UP, VK_XBUTTON1, VK_XBUTTON2, VK_ZOOM,
};

verus! {

/// The name of a virtual key whose meaning depends on nothing else.
pub open spec fn named_key_of_vkey(vkey: i32) -> Option<NamedKey> {
    if vkey == VK_BACK {
        Some(NamedKey::Backspace)
    }     else if vkey == VK_TAB {
        Some(NamedKey::Tab)
    }     else if vkey == VK_CLEAR {
        Some(NamedKey::Clear)
    }     else if vkey == VK_RETURN {
        Some(NamedKey::Enter)
    }     else if vkey == VK_SHIFT {
        Some(NamedKey::Shift)
    }     else if vkey == VK_CONTROL {
        Some(NamedKey::Control)
    }     else if vkey == VK_MENU {
        Some(NamedKey::Alt)
    }     else if vkey == VK_PAUSE {
        Some(NamedKey::Pause)
    }     else if vkey == VK_CAPITAL {
        Some(NamedKey::CapsLock)
    }     else if vkey == VK_JUNJA {
        Some(NamedKey::JunjaMode)
    }     else if vkey == VK_FINAL {
        Some(NamedKey::FinalMode)
    }     else if vkey == VK_ESCAPE {
        Some(NamedKey::Escape)
    }     else if vkey == VK_CONVERT {
        Some(NamedKey::Convert)
    }     else if vkey == VK_NONCONVERT {
        Some(NamedKey::NonConvert)
    }     else if vkey == VK_ACCEPT {
        Some(NamedKey::Accept)
    }     else if vkey == VK_MODECHANGE {
        Some(NamedKey::ModeChange)
    }     else if vkey == VK_SPACE {
        Some(NamedKey::Space)
    }     else if vkey == VK_PRIOR {
        Some(NamedKey::PageUp)
    }     else if vkey == VK_NEXT {
        Some(NamedKey::PageDown)
    }     else if vkey == VK_END {
        Some(NamedKey::End)
    }     else if vkey == VK_HOME {
        Some(NamedKey::Home)
    }     else if vkey == VK_LEFT {
        Some(NamedKey::ArrowLeft)
    }     else if vkey == VK_UP {
        Some(NamedKey::ArrowUp)
    }     else if vkey == VK_RIGHT {
        Some(NamedKey::ArrowRight)
    }     else if vkey == VK_DOWN {
        Some(NamedKey::ArrowDown)
    }     else if vkey == VK_SELECT {
        Some(NamedKey::Select)
    }     else if vkey == VK_PRINT {
        Some(NamedKey::Print)
    }     else if vkey == VK_EXECUTE {
        Some(NamedKey::Execute)
    }     else if vkey == VK_SNAPSHOT {
        Some(NamedKey::PrintScreen)
    }     else if vkey == VK_INSERT {
        Some(NamedKey::Insert)
    }     else if vkey == VK_DELETE {
        Some(NamedKey::Delete)
    }     else if vkey == VK_HELP {
        Some(NamedKey::Help)
    }     else if vkey == VK_LWIN {
        Some(NamedKey::Super)
    }     else if vkey == VK_RWIN {
        Some(NamedKey::Super)
    }     else if vkey == VK_APPS {
        Some(NamedKey::ContextMenu)
    }     else if vkey == VK_SLEEP {
        Some(NamedKey::Standby)
    }     else if vkey == VK_F1 {
        Some(NamedKey::F1)
    }     else if vkey == VK_F2 {
        Some(NamedKey::F2)
    }     else if vkey == VK_F3 {
        Some(NamedKey::F3)
    }     else if vkey == VK_F4 {
        Some(NamedKey::F4)
    }     else if vkey == VK_F5 {
        Some(NamedKey::F5)
    }     else if vkey == VK_F6 {
        Some(NamedKey::F6)
    }     else if vkey == VK_F7 {
        Some(NamedKey::F7)
    }     else if vkey == VK_F8 {
        Some(NamedKey::F8)
    }     else if vkey == VK_F9 {
        Some(NamedKey::F9)
    }     else if vkey == VK_F10 {
        Some(NamedKey::F10)
    }     else if vkey == VK_F11 {
        Some(NamedKey::F11)
    }     else if vkey == VK_F12 {
        Some(NamedKey::F12)
    }     else if vkey == VK_F13 {
        Some(NamedKey::F13)
    }     else if vkey == VK_F14 {
        Some(NamedKey::F14)
    }     else if vkey == VK_F15 {
        Some(NamedKey::F15)
    }     else if vkey == VK_F16 {
        Some(NamedKey::F16)
    }     else if vkey == VK_F17 {
        Some(NamedKey::F17)
    }     else if vkey == VK_F18 {
        Some(NamedKey::F18)
    }     else if vkey == VK_F19 {
        Some(NamedKey::F19)
    }     else if vkey == VK_F20 {
        Some(NamedKey::F20)
    }     else if vkey == VK_F21 {
        Some(NamedKey::F21)
    }     else if vkey == VK_F22 {
        Some(NamedKey::F22)
    }     else if vkey == VK_F23 {
        Some(NamedKey::F23)
    }     else if vkey == VK_F24 {
        Some(NamedKey::F24)
    }     else if vkey == VK_NUMLOCK {
        Some(NamedKey::NumLock)
    }     else if vkey == VK_SCROLL {
        Some(NamedKey::ScrollLock)
    }     else if vkey == VK_LSHIFT {
        Some(NamedKey::Shift)
    }     else if vkey == VK_RSHIFT {
        Some(NamedKey::Shift)
    }     else if vkey == VK_LCONTROL {
        Some(NamedKey::Control)
    }     else if vkey == VK_RCONTROL {
        Some(NamedKey::Control)
    }     else if vkey == VK_LMENU {
        Some(NamedKey::Alt)
    }     else if vkey == VK_BROWSER_BACK {
        Some(NamedKey::BrowserBack)
    }     else if vkey == VK_BROWSER_FORWARD {
        Some(NamedKey::BrowserForward)
    }     else if vkey == VK_BROWSER_REFRESH {
        Some(NamedKey::BrowserRefresh)
    }     else if vkey == VK_BROWSER_STOP {
        Some(NamedKey::BrowserStop)
    }     else if vkey == VK_BROWSER_SEARCH {
        Some(NamedKey::BrowserSearch)
    }     else if vkey == VK_BROWSER_FAVORITES {
        Some(NamedKey::BrowserFavorites)
    }     else if vkey == VK_BROWSER_HOME {
        Some(NamedKey::BrowserHome)
    }     else if vkey == VK_VOLUME_MUTE {
        Some(NamedKey::AudioVolumeMute)
    }     else if vkey == VK_VOLUME_DOWN {
        Some(NamedKey::AudioVolumeDown)
    }     else if vkey == VK_VOLUME_UP {
        Some(NamedKey::AudioVolumeUp)
    }     else if vkey == VK_MEDIA_NEXT_TRACK {
        Some(NamedKey::MediaTrackNext)
    }     else if vkey == VK_MEDIA_PREV_TRACK {
        Some(NamedKey::MediaTrackPrevious)
    }     else if vkey == VK_MEDIA_STOP {
        Some(NamedKey::MediaStop)
    }     else if vkey == VK_MEDIA_PLAY_PAUSE {
        Some(NamedKey::MediaPlayPause)
    }     else if vkey == VK_LAUNCH_MAIL {
        Some(NamedKey::LaunchMail)
    }     else if vkey == VK_LAUNCH_MEDIA_SELECT {
        Some(NamedKey::LaunchMediaPlayer)
    }     else if vkey == VK_LAUNCH_APP1 {
        Some(NamedKey::LaunchApplication1)
    }     else if vkey == VK_LAUNCH_APP2 {
        Some(NamedKey::LaunchApplication2)
    }     else if vkey == VK_PROCESSKEY {
        Some(NamedKey::Process)
    }     else if vkey == VK_OEM_ATTN {
        Some(NamedKey::Attn)
    }     else if vkey == VK_OEM_COPY {
        Some(NamedKey::Copy)
    }     else if vkey == VK_OEM_AUTO {
        Some(NamedKey::Hankaku)
    }     else if vkey == VK_OEM_ENLW {
        Some(NamedKey::Zenkaku)
    }     else if vkey == VK_OEM_BACKTAB {
        Some(NamedKey::Romaji)
    }     else if vkey == VK_ATTN {
        Some(NamedKey::KanaMode)
    }     else if vkey == VK_CRSEL {
        Some(NamedKey::CrSel)
    }     else if vkey == VK_EXSEL {
        Some(NamedKey::ExSel)
    }     else if vkey == VK_EREOF {
        Some(NamedKey::EraseEof)
    }     else if vkey == VK_PLAY {
        Some(NamedKey::Play)
    }     else if vkey == VK_ZOOM {
        Some(NamedKey::ZoomToggle)
    }     else if vkey == VK_OEM_CLEAR {
        Some(NamedKey::Clear)
    } else {
        None
    }
}

/// The virtual keys of the mouse buttons, which are no keys at all.
pub open spec fn is_mouse_button(vkey: i32) -> bool {
    vkey == VK_LBUTTON || vkey == VK_RBUTTON || vkey == VK_MBUTTON || vkey == VK_XBUTTON1 || vkey
        == VK_XBUTTON2
}

/// The key that a virtual key stands for under every modifier state, or an
/// unidentified key where the answer depends on the layout's characters.
///
/// Two identifiers are shared between an input-method key of Korean and one
/// of Japanese layouts: the layout's primary language decides. The right Alt
/// key is `AltGraph` on a layout that has that modifier. A mouse button is
/// unidentified without a native code; every other unidentified key carries
/// `native_code`.
pub open spec fn non_char_key(
    vkey: i32,
    native_code: NativeKeyCode,
    hkl: u64,
    has_alt_graph: bool,
) -> Key {
    let korean = primary_lang_id_spec(hkl) == LANG_KOREAN;
    let japanese = primary_lang_id_spec(hkl) == LANG_JAPANESE;
    if is_mouse_button(vkey) {
        Key::Unidentified(NativeKeyCode::Unidentified)
    } else if vkey == VK_HANGUL && korean {
        Key::Named(NamedKey::HangulMode)
    } else if vkey == VK_KANA && japanese {
        Key::Named(NamedKey::KanaMode)
    } else if vkey == VK_HANJA && korean {
        Key::Named(NamedKey::HanjaMode)
    } else if vkey == VK_KANJI && japanese {
        Key::Named(NamedKey::KanjiMode)
    } else if vkey == VK_RMENU {
        if has_alt_graph {
            Key::Named(NamedKey::AltGraph)
        } else {
            Key::Named(NamedKey::Alt)
        }
    } else if vkey == VK_OEM_FINISH && japanese {
        Key::Named(NamedKey::Katakana)
    } else {
        match named_key_of_vkey(vkey) {
            Some(name) => Key::Named(name),
            None => Key::Unidentified(native_code),
        }
    }
}

/// Maps a virtual key to the key it names, where the virtual key, the
/// layout's language and the presence of AltGraph settle that. Keys that
/// print characters come back unidentified, so that the caller goes on to
/// the layout's character tables.
pub fn vkey_to_non_char_key(
    vkey: i32,
    native_code: NativeKeyCode,
    hkl: u64,
    has_alt_graph: bool,
) -> (key: Key)
    ensures
        key == non_char_key(vkey, native_code, hkl, has_alt_graph),
{
    let lang = primary_lang_id(hkl);
    let is_korean = lang == LANG_KOREAN;
    let is_japanese = lang == LANG_JAPANESE;
    match vkey {
        VK_LBUTTON | VK_RBUTTON | VK_MBUTTON | VK_XBUTTON1 | VK_XBUTTON2 => Key::Unidentified(
            NativeKeyCode::Unidentified,
        ),
        VK_HANGUL if is_korean => Key::Named(NamedKey::HangulMode),
        VK_KANA if is_japanese => Key::Named(NamedKey::KanaMode),
        VK_HANJA if is_korean => Key::Named(NamedKey::HanjaMode),
        VK_KANJI if is_japanese => Key::Named(NamedKey::KanjiMode),
        VK_RMENU => {
            if has_alt_graph {
                Key::Named(NamedKey::AltGraph)
            } else {
                Key::Named(NamedKey::Alt)
            }
        },
        VK_OEM_FINISH if is_japanese => Key::Named(NamedKey::Katakana),
        VK_BACK => Key::Named(NamedKey::Backspace),
        VK_TAB => Key::Named(NamedKey::Tab),
        VK_CLEAR => Key::Named(NamedKey::Clear),
        VK_RETURN => Key::Named(NamedKey::Enter),
        VK_SHIFT => Key::Named(NamedKey::Shift),
        VK_CONTROL => Key::Named(NamedKey::Control),
        VK_MENU => Key::Named(NamedKey::Alt),
        VK_PAUSE => Key::Named(NamedKey::Pause),
        VK_CAPITAL => Key::Named(NamedKey::CapsLock),
        VK_JUNJA => Key::Named(NamedKey::JunjaMode),
        VK_FINAL => Key::Named(NamedKey::FinalMode),
        VK_ESCAPE => Key::Named(NamedKey::Escape),
        VK_CONVERT => Key::Named(NamedKey::Convert),
        VK_NONCONVERT => Key::Named(NamedKey::NonConvert),
        VK_ACCEPT => Key::Named(NamedKey::Accept),
        VK_MODECHANGE => Key::Named(NamedKey::ModeChange),
        VK_SPACE => Key::Named(NamedKey::Space),
        VK_PRIOR => Key::Named(NamedKey::PageUp),
        VK_NEXT => Key::Named(NamedKey::PageDown),
        VK_END => Key::Named(NamedKey::End),
        VK_HOME => Key::Named(NamedKey::Home),
        VK_LEFT => Key::Named(NamedKey::ArrowLeft),
        VK_UP => Key::Named(NamedKey::ArrowUp),
        VK_RIGHT => Key::Named(NamedKey::ArrowRight),
        VK_DOWN => Key::Named(NamedKey::ArrowDown),
        VK_SELECT => Key::Named(NamedKey::Select),
        VK_PRINT => Key::Named(NamedKey::Print),
        VK_EXECUTE => Key::Named(NamedKey::Execute),
        VK_SNAPSHOT => Key::Named(NamedKey::PrintScreen),
        VK_INSERT => Key::Named(NamedKey::Insert),
        VK_DELETE => Key::Named(NamedKey::Delete),
        VK_HELP => Key::Named(NamedKey::Help),
        VK_LWIN => Key::Named(NamedKey::Super),
        VK_RWIN => Key::Named(NamedKey::Super),
        VK_APPS => Key::Named(NamedKey::ContextMenu),
        VK_SLEEP => Key::Named(NamedKey::Standby),
        VK_F1 => Key::Named(NamedKey::F1),
        VK_F2 => Key::Named(NamedKey::F2),
        VK_F3 => Key::Named(NamedKey::F3),
        VK_F4 => Key::Named(NamedKey::F4),
        VK_F5 => Key::Named(NamedKey::F5),
        VK_F6 => Key::Named(NamedKey::F6),
        VK_F7 => Key::Named(NamedKey::F7),
        VK_F8 => Key::Named(NamedKey::F8),
        VK_F9 => Key::Named(NamedKey::F9),
        VK_F10 => Key::Named(NamedKey::F10),
        VK_F11 => Key::Named(NamedKey::F11),
        VK_F12 => Key::Named(NamedKey::F12),
        VK_F13 => Key::Named(NamedKey::F13),
        VK_F14 => Key::Named(NamedKey::F14),
        VK_F15 => Key::Named(NamedKey::F15),
        VK_F16 => Key::Named(NamedKey::F16),
        VK_F17 => Key::Named(NamedKey::F17),
        VK_F18 => Key::Named(NamedKey::F18),
        VK_F19 => Key::Named(NamedKey::F19),
        VK_F20 => Key::Named(NamedKey::F20),
        VK_F21 => Key::Named(NamedKey::F21),
        VK_F22 => Key::Named(NamedKey::F22),
        VK_F23 => Key::Named(NamedKey::F23),
        VK_F24 => Key::Named(NamedKey::F24),
        VK_NUMLOCK => Key::Named(NamedKey::NumLock),
        VK_SCROLL => Key::Named(NamedKey::ScrollLock),
        VK_LSHIFT => Key::Named(NamedKey::Shift),
        VK_RSHIFT => Key::Named(NamedKey::Shift),
        VK_LCONTROL => Key::Named(NamedKey::Control),
        VK_RCONTROL => Key::Named(NamedKey::Control),
        VK_LMENU => Key::Named(NamedKey::Alt),
        VK_BROWSER_BACK => Key::Named(NamedKey::BrowserBack),
        VK_BROWSER_FORWARD => Key::Named(NamedKey::BrowserForward),
        VK_BROWSER_REFRESH => Key::Named(NamedKey::BrowserRefresh),
        VK_BROWSER_STOP => Key::Named(NamedKey::BrowserStop),
        VK_BROWSER_SEARCH => Key::Named(NamedKey::BrowserSearch),
        VK_BROWSER_FAVORITES => Key::Named(NamedKey::BrowserFavorites),
        VK_BROWSER_HOME => Key::Named(NamedKey::BrowserHome),
        VK_VOLUME_MUTE => Key::Named(NamedKey::AudioVolumeMute),
        VK_VOLUME_DOWN => Key::Named(NamedKey::AudioVolumeDown),
        VK_VOLUME_UP => Key::Named(NamedKey::AudioVolumeUp),
        VK_MEDIA_NEXT_TRACK => Key::Named(NamedKey::MediaTrackNext),
        VK_MEDIA_PREV_TRACK => Key::Named(NamedKey::MediaTrackPrevious),
        VK_MEDIA_STOP => Key::Named(NamedKey::MediaStop),
        VK_MEDIA_PLAY_PAUSE => Key::Named(NamedKey::MediaPlayPause),
        VK_LAUNCH_MAIL => Key::Named(NamedKey::LaunchMail),
        VK_LAUNCH_MEDIA_SELECT => Key::Named(NamedKey::LaunchMediaPlayer),
        VK_LAUNCH_APP1 => Key::Named(NamedKey::LaunchApplication1),
        VK_LAUNCH_APP2 => Key::Named(NamedKey::LaunchApplication2),
        VK_PROCESSKEY => Key::Named(NamedKey::Process),
        VK_OEM_ATTN => Key::Named(NamedKey::Attn),
        VK_OEM_COPY => Key::Named(NamedKey::Copy),
        VK_OEM_AUTO => Key::Named(NamedKey::Hankaku),
        VK_OEM_ENLW => Key::Named(NamedKey::Zenkaku),
        VK_OEM_BACKTAB => Key::Named(NamedKey::Romaji),
        VK_ATTN => Key::Named(NamedKey::KanaMode),
        VK_CRSEL => Key::Named(NamedKey::CrSel),
        VK_EXSEL => Key::Named(NamedKey::ExSel),
        VK_EREOF => Key::Named(NamedKey::EraseEof),
        VK_PLAY => Key::Named(NamedKey::Play),
        VK_ZOOM => Key::Named(NamedKey::ZoomToggle),
        VK_OEM_CLEAR => Key::Named(NamedKey::Clear),
        _ => Key::Unidentified(native_code),
    }
}

/// The virtual key that a key position produces, or 0 where it has none of
/// its own: the positions that print characters, and those that Windows
/// does not know. The positions `Lang1` to `Lang3` have one only on Korean
/// or Japanese layouts.
///
/// The two Shift positions map crosswise, the left one to `VK_RSHIFT` and
/// the right one to `VK_LSHIFT`, unlike Control and Alt. Whether that is
/// meant is an open question; it stays until the intent is confirmed.
pub open spec fn vkey_of_keycode(keycode: KeyCode, hkl: u64) -> i32 {
    let korean = primary_lang_id_spec(hkl) == LANG_KOREAN;
    let japanese = primary_lang_id_spec(hkl) == LANG_JAPANESE;
    match keycode {
        KeyCode::Lang1 => if korean {
            VK_HANGUL
        } else if japanese {
            VK_KANA
        } else {
            0
        },
        KeyCode::Lang2 => if korean {
            VK_HANJA
        } else {
            0
        },
        KeyCode::Lang3 => if japanese {
            VK_OEM_FINISH
        } else {
            0
        },
        KeyCode::AltLeft => VK_LMENU,
        KeyCode::AltRight => VK_RMENU,
        KeyCode::Backspace => VK_BACK,
        KeyCode::CapsLock => VK_CAPITAL,
        KeyCode::ContextMenu => VK_APPS,
        KeyCode::ControlLeft => VK_LCONTROL,
        KeyCode::ControlRight => VK_RCONTROL,
        KeyCode::Enter => VK_RETURN,
        KeyCode::SuperLeft => VK_LWIN,
        KeyCode::SuperRight => VK_RWIN,
        KeyCode::ShiftLeft => VK_RSHIFT,
        KeyCode::ShiftRight => VK_LSHIFT,
        KeyCode::Space => VK_SPACE,
        KeyCode::Tab => VK_TAB,
        KeyCode::Convert => VK_CONVERT,
        KeyCode::KanaMode => VK_KANA,
        KeyCode::NonConvert => VK_NONCONVERT,
        KeyCode::Delete => VK_DELETE,
        KeyCode::End => VK_END,
        KeyCode::Help => VK_HELP,
        KeyCode::Home => VK_HOME,
        KeyCode::Insert => VK_INSERT,
        KeyCode::PageDown => VK_NEXT,
        KeyCode::PageUp => VK_PRIOR,
        KeyCode::ArrowDown => VK_DOWN,
        KeyCode::ArrowLeft => VK_LEFT,
        KeyCode::ArrowRight => VK_RIGHT,
        KeyCode::ArrowUp => VK_UP,
        KeyCode::NumLock => VK_NUMLOCK,
        KeyCode::Numpad0 => VK_NUMPAD0,
        KeyCode::Numpad1 => VK_NUMPAD1,
        KeyCode::Numpad2 => VK_NUMPAD2,
        KeyCode::Numpad3 => VK_NUMPAD3,
        KeyCode::Numpad4 => VK_NUMPAD4,
        KeyCode::Numpad5 => VK_NUMPAD5,
        KeyCode::Numpad6 => VK_NUMPAD6,
        KeyCode::Numpad7 => VK_NUMPAD7,
        KeyCode::Numpad8 => VK_NUMPAD8,
        KeyCode::Numpad9 => VK_NUMPAD9,
        KeyCode::NumpadAdd => VK_ADD,
        KeyCode::NumpadBackspace => VK_BACK,
        KeyCode::NumpadClear => VK_CLEAR,
        KeyCode::NumpadComma => VK_SEPARATOR,
        KeyCode::NumpadDecimal => VK_DECIMAL,
        KeyCode::NumpadDivide => VK_DIVIDE,
        KeyCode::NumpadEnter => VK_RETURN,
        KeyCode::NumpadMultiply => VK_MULTIPLY,
        KeyCode::NumpadSubtract => VK_SUBTRACT,
        KeyCode::Escape => VK_ESCAPE,
        KeyCode::PrintScreen => VK_SNAPSHOT,
        KeyCode::ScrollLock => VK_SCROLL,
        KeyCode::Pause => VK_PAUSE,
        KeyCode::BrowserBack => VK_BROWSER_BACK,
        KeyCode::BrowserFavorites => VK_BROWSER_FAVORITES,
        KeyCode::BrowserForward => VK_BROWSER_FORWARD,
        KeyCode::BrowserHome => VK_BROWSER_HOME,
        KeyCode::BrowserRefresh => VK_BROWSER_REFRESH,
        KeyCode::BrowserSearch => VK_BROWSER_SEARCH,
        KeyCode::BrowserStop => VK_BROWSER_STOP,
        KeyCode::LaunchApp1 => VK_LAUNCH_APP1,
        KeyCode::LaunchApp2 => VK_LAUNCH_APP2,
        KeyCode::LaunchMail => VK_LAUNCH_MAIL,
        KeyCode::MediaPlayPause => VK_MEDIA_PLAY_PAUSE,
        KeyCode::MediaSelect => VK_LAUNCH_MEDIA_SELECT,
        KeyCode::MediaStop => VK_MEDIA_STOP,
        KeyCode::MediaTrackNext => VK_MEDIA_NEXT_TRACK,
        KeyCode::MediaTrackPrevious => VK_MEDIA_PREV_TRACK,
        KeyCode::AudioVolumeDown => VK_VOLUME_DOWN,
        KeyCode::AudioVolumeMute => VK_VOLUME_MUTE,
        KeyCode::AudioVolumeUp => VK_VOLUME_UP,
        KeyCode::Select => VK_SELECT,
        KeyCode::F1 => VK_F1,
        KeyCode::F2 => VK_F2,
        KeyCode::F3 => VK_F3,
        KeyCode::F4 => VK_F4,
        KeyCode::F5 => VK_F5,
        KeyCode::F6 => VK_F6,
        KeyCode::F7 => VK_F7,
        KeyCode::F8 => VK_F8,
        KeyCode::F9 => VK_F9,
        KeyCode::F10 => VK_F10,
        KeyCode::F11 => VK_F11,
        KeyCode::F12 => VK_F12,
        KeyCode::F13 => VK_F13,
        KeyCode::F14 => VK_F14,
        KeyCode::F15 => VK_F15,
        KeyCode::F16 => VK_F16,
        KeyCode::F17 => VK_F17,
        KeyCode::F18 => VK_F18,
        KeyCode::F19 => VK_F19,
        KeyCode::F20 => VK_F20,
        KeyCode::F21 => VK_F21,
        KeyCode::F22 => VK_F22,
        KeyCode::F23 => VK_F23,
        KeyCode::F24 => VK_F24,
        _ => 0,
    }
}

/// Maps a key position to the virtual key it produces; 0 where there is none.
pub fn keycode_to_vkey(keycode: KeyCode, hkl: u64) -> (vkey: i32)
    ensures
        vkey == vkey_of_keycode(keycode, hkl),
        0 <= vkey < 256,
{
    let lang = primary_lang_id(hkl);
    let is_korean = lang == LANG_KOREAN;
    let is_japanese = lang == LANG_JAPANESE;
    match keycode {
        KeyCode::Lang1 if is_korean => VK_HANGUL,
        KeyCode::Lang1 if is_japanese => VK_KANA,
        KeyCode::Lang2 if is_korean => VK_HANJA,
        KeyCode::Lang3 if is_japanese => VK_OEM_FINISH,
        KeyCode::Lang1 | KeyCode::Lang2 | KeyCode::Lang3 => 0,
        KeyCode::AltLeft => VK_LMENU,
        KeyCode::AltRight => VK_RMENU,
        KeyCode::Backspace => VK_BACK,
        KeyCode::CapsLock => VK_CAPITAL,
        KeyCode::ContextMenu => VK_APPS,
        KeyCode::ControlLeft => VK_LCONTROL,
        KeyCode::ControlRight => VK_RCONTROL,
        KeyCode::Enter => VK_RETURN,
        KeyCode::SuperLeft => VK_LWIN,
        KeyCode::SuperRight => VK_RWIN,
        KeyCode::ShiftLeft => VK_RSHIFT,
        KeyCode::ShiftRight => VK_LSHIFT,
        KeyCode::Space => VK_SPACE,
        KeyCode::Tab => VK_TAB,
        KeyCode::Convert => VK_CONVERT,
        KeyCode::KanaMode => VK_KANA,
        KeyCode::NonConvert => VK_NONCONVERT,
        KeyCode::Delete => VK_DELETE,
        KeyCode::End => VK_END,
        KeyCode::Help => VK_HELP,
        KeyCode::Home => VK_HOME,
        KeyCode::Insert => VK_INSERT,
        KeyCode::PageDown => VK_NEXT,
        KeyCode::PageUp => VK_PRIOR,
        KeyCode::ArrowDown => VK_DOWN,
        KeyCode::ArrowLeft => VK_LEFT,
        KeyCode::ArrowRight => VK_RIGHT,
        KeyCode::ArrowUp => VK_UP,
        KeyCode::NumLock => VK_NUMLOCK,
        KeyCode::Numpad0 => VK_NUMPAD0,
        KeyCode::Numpad1 => VK_NUMPAD1,
        KeyCode::Numpad2 => VK_NUMPAD2,
        KeyCode::Numpad3 => VK_NUMPAD3,
        KeyCode::Numpad4 => VK_NUMPAD4,
        KeyCode::Numpad5 => VK_NUMPAD5,
        KeyCode::Numpad6 => VK_NUMPAD6,
        KeyCode::Numpad7 => VK_NUMPAD7,
        KeyCode::Numpad8 => VK_NUMPAD8,
        KeyCode::Numpad9 => VK_NUMPAD9,
        KeyCode::NumpadAdd => VK_ADD,
        KeyCode::NumpadBackspace => VK_BACK,
        KeyCode::NumpadClear => VK_CLEAR,
        KeyCode::NumpadComma => VK_SEPARATOR,
        KeyCode::NumpadDecimal => VK_DECIMAL,
        KeyCode::NumpadDivide => VK_DIVIDE,
        KeyCode::NumpadEnter => VK_RETURN,
        KeyCode::NumpadMultiply => VK_MULTIPLY,
        KeyCode::NumpadSubtract => VK_SUBTRACT,
        KeyCode::Escape => VK_ESCAPE,
        KeyCode::PrintScreen => VK_SNAPSHOT,
        KeyCode::ScrollLock => VK_SCROLL,
        KeyCode::Pause => VK_PAUSE,
        KeyCode::BrowserBack => VK_BROWSER_BACK,
        KeyCode::BrowserFavorites => VK_BROWSER_FAVORITES,
        KeyCode::BrowserForward => VK_BROWSER_FORWARD,
        KeyCode::BrowserHome => VK_BROWSER_HOME,
        KeyCode::BrowserRefresh => VK_BROWSER_REFRESH,
        KeyCode::BrowserSearch => VK_BROWSER_SEARCH,
        KeyCode::BrowserStop => VK_BROWSER_STOP,
        KeyCode::LaunchApp1 => VK_LAUNCH_APP1,
        KeyCode::LaunchApp2 => VK_LAUNCH_APP2,
        KeyCode::LaunchMail => VK_LAUNCH_MAIL,
        KeyCode::MediaPlayPause => VK_MEDIA_PLAY_PAUSE,
        KeyCode::MediaSelect => VK_LAUNCH_MEDIA_SELECT,
        KeyCode::MediaStop => VK_MEDIA_STOP,
        KeyCode::MediaTrackNext => VK_MEDIA_NEXT_TRACK,
        KeyCode::MediaTrackPrevious => VK_MEDIA_PREV_TRACK,
        KeyCode::AudioVolumeDown => VK_VOLUME_DOWN,
        KeyCode::AudioVolumeMute => VK_VOLUME_MUTE,
        KeyCode::AudioVolumeUp => VK_VOLUME_UP,
        KeyCode::Select => VK_SELECT,
        KeyCode::F1 => VK_F1,
        KeyCode::F2 => VK_F2,
        KeyCode::F3 => VK_F3,
        KeyCode::F4 => VK_F4,
        KeyCode::F5 => VK_F5,
        KeyCode::F6 => VK_F6,
        KeyCode::F7 => VK_F7,
        KeyCode::F8 => VK_F8,
        KeyCode::F9 => VK_F9,
        KeyCode::F10 => VK_F10,
        KeyCode::F11 => VK_F11,
        KeyCode::F12 => VK_F12,
        KeyCode::F13 => VK_F13,
        KeyCode::F14 => VK_F14,
        KeyCode::F15 => VK_F15,
        KeyCode::F16 => VK_F16,
        KeyCode::F17 => VK_F17,
        KeyCode::F18 => VK_F18,
        KeyCode::F19 => VK_F19,
        KeyCode::F20 => VK_F20,
        KeyCode::F21 => VK_F21,
        KeyCode::F22 => VK_F22,
        KeyCode::F23 => VK_F23,
        KeyCode::F24 => VK_F24,
        _ => 0,
    }
}

} // verus!

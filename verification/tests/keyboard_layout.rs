use winit::cache::LayoutCache;
use winit::construction::{build_numlock_off, build_numlock_on, build_table, needs_probe};
use winit::interner::{get_or_insert_str, StringInterner};
use winit::keyboard::{Key, KeyCode, ModifiersState, NamedKey, NativeKeyCode, Symbol};
use winit::layout::{is_numpad_keycode, native_code, LayoutSource, ScanEntry};
use winit::mapping::{keycode_to_vkey, vkey_to_non_char_key};
use winit::modifiers::{WindowsModifiers, ALT, CAPS_LOCK, CONTROL, SHIFT};
use winit::probe::{
    consume, consume_decoded, decode_answer, peek, peek_decoded, to_unicode_string, Peek,
    ToUnicodeResult,
};
use winit::table::KeyTable;
use winit::vkeys::{
    is_numpad_specific, numpad_vkey, primary_lang_id, VK_BACK, VK_CAPITAL, VK_CONTROL, VK_DIVIDE,
    VK_F1, VK_F24, VK_HANGUL, VK_HANJA, VK_LBUTTON, VK_LCONTROL, VK_LMENU, VK_LSHIFT, VK_LWIN,
    VK_MENU, VK_MULTIPLY, VK_NUMPAD0, VK_NUMPAD8, VK_OEM_1, VK_OEM_FINISH, VK_RETURN, VK_RMENU,
    VK_RSHIFT, VK_RWIN, VK_SHIFT, VK_UP,
};

const US: u64 = 0x0409_0409;
const JAPANESE: u64 = 0x0411_0411;
const KOREAN: u64 = 0x0412_0412;
const VK_A: usize = 0x41;
const VK_2: usize = 0x32;
const VK_E: usize = 0x45;

fn text(s: &str) -> ToUnicodeResult {
    ToUnicodeResult::Str(s.to_string())
}

fn bare_source() -> LayoutSource {
    let entry = ScanEntry { scancode: 0, keycode: KeyCode::Unidentified(NativeKeyCode::Unidentified) };
    LayoutSource {
        scan: vec![entry; 256],
        numpad: vec![ToUnicodeResult::Nothing; 16],
        chars: vec![vec![ToUnicodeResult::Nothing; 256]; 16],
    }
}

fn bind(source: &mut LayoutSource, vk: usize, scancode: u32, keycode: KeyCode) {
    source.scan[vk] = ScanEntry { scancode, keycode };
}

/// A US layout: letters follow Shift and CapsLock, digits follow Shift,
/// and Control with Alt prints what no modifier prints.
fn us_source() -> LayoutSource {
    let mut source = bare_source();
    bind(&mut source, VK_A, 0x1E, KeyCode::KeyA);
    bind(&mut source, VK_2, 0x03, KeyCode::Digit2);
    bind(&mut source, VK_RETURN as usize, 0x1C, KeyCode::Enter);
    bind(&mut source, VK_RMENU as usize, 0xE038, KeyCode::AltRight);
    bind(&mut source, VK_LMENU as usize, 0x38, KeyCode::AltLeft);
    bind(&mut source, VK_UP as usize, 0x48, KeyCode::Numpad8);
    bind(&mut source, VK_NUMPAD8 as usize, 0x48, KeyCode::Numpad8);
    bind(&mut source, VK_DIVIDE as usize, 0xE035, KeyCode::NumpadDivide);
    let digits = ["0", "1", "2", "3", "4", "5", "6", "7", "8", "9", "*", "+"];
    for (i, d) in digits.iter().enumerate() {
        source.numpad[i] = text(d);
    }
    source.numpad[13] = text("-");
    source.numpad[14] = text(".");
    source.numpad[15] = text("/");
    for m in 0..16usize {
        let shift = m & 1 != 0;
        let control = m & 2 != 0;
        let alt = m & 4 != 0;
        let caps = m & 8 != 0;
        if control != alt {
            continue;
        }
        source.chars[m][VK_A] = text(if shift != caps { "A" } else { "a" });
        source.chars[m][VK_2] = text(if shift { "@" } else { "2" });
        source.chars[m][VK_NUMPAD8 as usize] = text("8");
    }
    source
}

/// A layout with a third level: Control with Alt prints a superscript on
/// the key of the digit two, and the key of the letter E is dead there.
fn altgr_source() -> LayoutSource {
    let mut source = us_source();
    bind(&mut source, VK_E, 0x12, KeyCode::KeyE);
    for m in 0..16usize {
        source.chars[m][VK_E] = text("e");
    }
    source.chars[CONTROL as usize | ALT as usize][VK_2] = text("\u{b2}");
    source.chars[SHIFT as usize][VK_E] = ToUnicodeResult::Dead(Some('\u{b4}'));
    source
}

fn character(strings: &StringInterner, key: Key) -> String {
    match key {
        Key::Character(symbol) => strings.resolve(symbol).clone(),
        other => panic!("not a character key: {:?}", other),
    }
}

fn mods(bits: u8) -> WindowsModifiers {
    WindowsModifiers::from_bits(bits)
}

#[test]
fn us_layout_key_a_follows_shift_and_caps_lock() {
    let mut cache = LayoutCache::new();
    let source = us_source();
    assert!(source.is_complete());
    let (id, _) = cache.get_current_layout(US, &source);
    assert_eq!(id, US);
    let at = cache.find_layout(US).unwrap();
    let layout = &cache.layouts[at];
    assert!(!layout.has_alt_graph);
    let press = |m: u8| layout.get_key(mods(m), false, VK_A as i32, 0x1E, KeyCode::KeyA);
    assert_eq!(character(&cache.strings, press(0)), "a");
    assert_eq!(character(&cache.strings, press(SHIFT)), "A");
    assert_eq!(character(&cache.strings, press(CAPS_LOCK)), "A");
    assert_eq!(character(&cache.strings, press(SHIFT | CAPS_LOCK)), "a");
    assert_eq!(press(CONTROL | ALT), press(0));
}

#[test]
fn third_level_character_sets_alt_graph_and_relabels_right_alt() {
    let mut strings = StringInterner::new();
    let source = altgr_source();
    let layout = LayoutCache::prepare_layout(&mut strings, US, &source);
    assert!(layout.has_alt_graph);
    let two = layout.get_key(mods(0), false, VK_2 as i32, 0x03, KeyCode::Digit2);
    let third = layout.get_key(mods(CONTROL | ALT), false, VK_2 as i32, 0x03, KeyCode::Digit2);
    assert_eq!(character(&strings, two), "2");
    assert_eq!(character(&strings, third), "\u{b2}");
    for m in 0..16u8 {
        assert_eq!(
            layout.keys[m as usize].get(&KeyCode::AltRight),
            Some(Key::Named(NamedKey::AltGraph))
        );
        assert_eq!(
            layout.keys[m as usize].get(&KeyCode::AltLeft),
            Some(Key::Named(NamedKey::Alt))
        );
        assert_eq!(
            layout.get_key(mods(m), false, VK_RMENU, 0xE038, KeyCode::AltRight),
            Key::Named(NamedKey::AltGraph)
        );
        assert_eq!(
            layout.get_key(mods(m), false, VK_MENU, 0xE038, KeyCode::AltRight),
            Key::Named(NamedKey::AltGraph)
        );
    }
}

#[test]
fn right_alt_is_alt_without_alt_graph() {
    let mut strings = StringInterner::new();
    let layout = LayoutCache::prepare_layout(&mut strings, US, &us_source());
    assert!(!layout.has_alt_graph);
    for m in 0..16u8 {
        assert_eq!(
            layout.get_key(mods(m), true, VK_RMENU, 0xE038, KeyCode::AltRight),
            Key::Named(NamedKey::Alt)
        );
        assert_eq!(
            layout.keys[m as usize].get(&KeyCode::AltRight),
            Some(Key::Named(NamedKey::Alt))
        );
    }
}

#[test]
fn same_character_from_two_keys_is_one_key() {
    let mut strings = StringInterner::new();
    let mut source = us_source();
    bind(&mut source, 0x38, 0x09, KeyCode::Digit8);
    source.chars[0][0x38] = text("8");
    let layout = LayoutCache::prepare_layout(&mut strings, US, &source);
    let digit = layout.get_key(mods(0), true, 0x38, 0x09, KeyCode::Digit8);
    let numpad = layout.get_key(mods(0), true, VK_NUMPAD8, 0x48, KeyCode::Numpad8);
    assert_eq!(character(&strings, digit), "8");
    assert_eq!(digit, numpad);
    let a = layout.get_key(mods(0), true, VK_A as i32, 0x1E, KeyCode::KeyA);
    assert_ne!(digit, a);
}

#[test]
fn numpad_digit_follows_numlock() {
    let mut strings = StringInterner::new();
    let layout = LayoutCache::prepare_layout(&mut strings, US, &us_source());
    let on = layout.get_key(mods(0), true, VK_NUMPAD8, 0x48, KeyCode::Numpad8);
    assert_eq!(character(&strings, on), "8");
    let off = layout.get_key(mods(0), false, VK_NUMPAD8, 0x48, KeyCode::Numpad8);
    let arrow = layout.get_key(mods(0), false, VK_UP, 0xE048, KeyCode::ArrowUp);
    assert_eq!(off, Key::Named(NamedKey::ArrowUp));
    assert_eq!(off, arrow);
}

#[test]
fn numlock_maps_hold_what_the_source_tells() {
    let mut strings = StringInterner::new();
    let source = us_source();
    let off = build_numlock_off(&source, US);
    assert_eq!(off.get(&VK_NUMPAD8), Some(Key::Named(NamedKey::ArrowUp)));
    assert_eq!(off.get(&VK_UP), None);
    assert_eq!(off.get(&VK_DIVIDE), None);
    let on = build_numlock_on(&mut strings, &source);
    for i in 0..16usize {
        let bound = on.get(&numpad_vkey(i));
        if i == 12 {
            assert_eq!(bound, None);
        } else {
            assert!(matches!(bound, Some(Key::Character(_))));
        }
    }
    assert_eq!(character(&strings, on.get(&VK_MULTIPLY).unwrap()), "*");
    assert_eq!(strings.len(), 15);
}

#[test]
fn every_combination_binds_the_same_positions() {
    let mut strings = StringInterner::new();
    let source = altgr_source();
    let layout = LayoutCache::prepare_layout(&mut strings, US, &source);
    assert_eq!(layout.keys.len(), 16);
    let positions = [
        KeyCode::KeyA,
        KeyCode::KeyE,
        KeyCode::Digit2,
        KeyCode::Enter,
        KeyCode::AltRight,
        KeyCode::AltLeft,
        KeyCode::Numpad8,
        KeyCode::NumpadDivide,
    ];
    for m in 0..16usize {
        for p in positions.iter() {
            assert!(layout.keys[m].contains_key(p));
        }
        assert!(!layout.keys[m].contains_key(&KeyCode::KeyB));
    }
}

#[test]
fn unprobed_key_stays_unidentified_and_divide_is_a_slash() {
    let mut strings = StringInterner::new();
    let layout = LayoutCache::prepare_layout(&mut strings, US, &us_source());
    let held = layout.get_key(mods(CONTROL), false, VK_A as i32, 0x1E, KeyCode::KeyA);
    assert_eq!(held, Key::Unidentified(NativeKeyCode::Windows(0x1E)));
    for m in 0..16u8 {
        let divide = layout.keys[m as usize].get(&KeyCode::NumpadDivide).unwrap();
        if m & (CONTROL | ALT) == 0 {
            assert_eq!(character(&strings, divide), "/");
        } else {
            assert_eq!(divide, Key::Unidentified(NativeKeyCode::Windows(0xE035)));
        }
    }
    let stranger = layout.get_key(mods(0), false, 0x42, 0x30, KeyCode::KeyB);
    assert_eq!(stranger, Key::Unidentified(NativeKeyCode::Windows(0x30)));
    let beyond = layout.get_key(mods(16), false, VK_A as i32, 0x1E, KeyCode::KeyA);
    assert_eq!(beyond, Key::Unidentified(NativeKeyCode::Windows(0x1E)));
}

#[test]
fn dead_key_is_recorded_with_its_character() {
    let mut strings = StringInterner::new();
    let layout = LayoutCache::prepare_layout(&mut strings, US, &altgr_source());
    let dead = layout.get_key(mods(SHIFT), false, VK_E as i32, 0x12, KeyCode::KeyE);
    assert_eq!(dead, Key::Dead(Some('\u{b4}')));
    let plain = layout.get_key(mods(0), false, VK_E as i32, 0x12, KeyCode::KeyE);
    assert_eq!(character(&strings, plain), "e");
}

#[test]
fn table_with_base_tells_whether_a_character_differs() {
    let mut strings = StringInterner::new();
    let source = altgr_source();
    let (base, alone) = build_table(&mut strings, &source, US, mods(0), None);
    assert!(!alone);
    let (_, same) = build_table(&mut strings, &source, US, mods(0), Some(&base));
    assert!(!same);
    let (_, differs) = build_table(&mut strings, &source, US, mods(CONTROL | ALT), Some(&base));
    assert!(differs);
    let (_, us) = build_table(&mut strings, &us_source(), US, mods(CONTROL | ALT), Some(&base));
    assert!(!us);
}

#[test]
fn layout_is_built_once_for_an_identifier() {
    let mut cache = LayoutCache::new();
    assert_eq!(cache.find_layout(US), None);
    let first = us_source();
    {
        let (_, layout) = cache.get_current_layout(US, &first);
        assert!(!layout.has_alt_graph);
    }
    let strings = cache.strings.len();
    let second = altgr_source();
    {
        let (id, layout) = cache.get_current_layout(US, &second);
        assert_eq!(id, US);
        assert!(!layout.has_alt_graph);
    }
    assert_eq!(cache.layouts.len(), 1);
    assert_eq!(cache.strings.len(), strings);
    {
        let (_, layout) = cache.get_current_layout(JAPANESE, &second);
        assert!(layout.has_alt_graph);
        assert_eq!(layout.hkl, JAPANESE);
    }
    assert_eq!(cache.layouts.len(), 2);
    assert_eq!(cache.find_layout(US), Some(0));
    assert_eq!(cache.find_layout(JAPANESE), Some(1));
}

#[test]
fn agnostic_mods_hide_control_and_alt_behind_alt_graph() {
    let mut cache = LayoutCache::new();
    let mut held = [0u8; 256];
    held[VK_SHIFT as usize] = 0x80;
    held[VK_CONTROL as usize] = 0x80;
    held[VK_MENU as usize] = 0x80;
    held[VK_RMENU as usize] = 0x80;
    held[VK_RWIN as usize] = 0x81;
    let plain = cache.get_agnostic_mods(US, &us_source(), &held);
    assert_eq!(plain, ModifiersState { shift: true, control: true, alt: true, super_key: true });
    let graph = cache.get_agnostic_mods(KOREAN, &altgr_source(), &held);
    assert_eq!(graph, ModifiersState { shift: true, control: false, alt: false, super_key: true });
    held[VK_RMENU as usize] = 0x01;
    held[VK_RWIN as usize] = 0x01;
    held[VK_LWIN as usize] = 0x7f;
    let left = cache.get_agnostic_mods(KOREAN, &us_source(), &held);
    assert_eq!(left, ModifiersState { shift: true, control: true, alt: true, super_key: false });
}

#[test]
fn interner_reuses_equal_strings() {
    let mut strings = StringInterner::new();
    let a = get_or_insert_str(&mut strings, "a".to_string());
    let b = get_or_insert_str(&mut strings, "b".to_string());
    let again = get_or_insert_str(&mut strings, String::from("a"));
    assert_eq!(a, Symbol { index: 0 });
    assert_eq!(b, Symbol { index: 1 });
    assert_eq!(a, again);
    assert_ne!(a, b);
    assert_eq!(strings.len(), 2);
    assert_eq!(strings.resolve(a), "a");
    assert_eq!(strings.resolve(b), "b");
    assert_eq!(strings.find(&"b".to_string()), Some(b));
    assert_eq!(strings.find(&"c".to_string()), None);
    assert_eq!(strings.get(Symbol { index: 2 }), None);
    assert_eq!(strings.get(b).map(|s| s.as_str()), Some("b"));
}

#[test]
fn key_table_keeps_the_latest_binding() {
    let mut table: KeyTable<i32> = KeyTable::new();
    assert_eq!(table.get(&VK_UP), None);
    table.insert(VK_UP, Key::Named(NamedKey::ArrowUp));
    table.insert(VK_BACK, Key::Named(NamedKey::Backspace));
    table.insert(VK_UP, Key::Dead(None));
    assert_eq!(table.get(&VK_UP), Some(Key::Dead(None)));
    assert_eq!(table.get(&VK_BACK), Some(Key::Named(NamedKey::Backspace)));
    assert!(!table.contains_key(&VK_RETURN));
}

#[test]
fn active_modifiers_reads_either_side() {
    let mut state = [0u8; 256];
    assert_eq!(WindowsModifiers::active_modifiers(&state).bits, 0);
    state[VK_RSHIFT as usize] = 0x80;
    state[VK_LCONTROL as usize] = 0x81;
    assert_eq!(WindowsModifiers::active_modifiers(&state).bits, SHIFT | CONTROL);
    state[VK_LMENU as usize] = 0xff;
    state[VK_CAPITAL as usize] = 0x01;
    assert_eq!(WindowsModifiers::active_modifiers(&state).bits, 15);
    state[VK_CAPITAL as usize] = 0x80;
    state[VK_RSHIFT as usize] = 0x7f;
    assert_eq!(WindowsModifiers::active_modifiers(&state).bits, CONTROL | ALT);
}

#[test]
fn applied_combination_is_read_back() {
    for bits in 0..16u8 {
        let mut state = [0x55u8; 256];
        state[VK_LSHIFT as usize] = 0xff;
        mods(bits).apply_to_kbd_state(&mut state);
        assert_eq!(WindowsModifiers::active_modifiers(&state).bits, bits);
        assert_eq!(state[0x41], 0x55);
        let shift = if bits & SHIFT != 0 { 0xd5 } else { 0x55 };
        assert_eq!(state[VK_SHIFT as usize], shift);
        assert_eq!(state[VK_RSHIFT as usize], shift);
        assert_eq!(state[VK_LSHIFT as usize], if bits & SHIFT != 0 { 0xff } else { 0x7f });
        assert_eq!(state[VK_CAPITAL as usize], if bits & CAPS_LOCK != 0 { 0x55 } else { 0x54 });
    }
}

#[test]
fn remove_only_ctrl_spares_control_with_alt() {
    assert_eq!(mods(CONTROL).remove_only_ctrl().bits, 0);
    assert_eq!(mods(CONTROL | SHIFT | CAPS_LOCK).remove_only_ctrl().bits, SHIFT | CAPS_LOCK);
    assert_eq!(mods(CONTROL | ALT).remove_only_ctrl().bits, CONTROL | ALT);
    assert_eq!(mods(ALT).remove_only_ctrl().bits, ALT);
    assert_eq!(mods(SHIFT).remove_only_ctrl().bits, SHIFT);
    assert!(mods(5).contains_shift() && mods(5).contains_alt());
    assert!(!mods(5).contains_control() && !mods(5).contains_caps_lock());
    assert_eq!(WindowsModifiers::empty().bits, 0);
}

#[test]
fn virtual_keys_name_keys() {
    let native = NativeKeyCode::Windows(7);
    let name = |vk: i32, hkl: u64, alt_graph: bool| vkey_to_non_char_key(vk, native, hkl, alt_graph);
    assert_eq!(name(VK_BACK, US, false), Key::Named(NamedKey::Backspace));
    assert_eq!(name(VK_F1, US, false), Key::Named(NamedKey::F1));
    assert_eq!(name(VK_F24, US, true), Key::Named(NamedKey::F24));
    assert_eq!(name(VK_LWIN, US, false), Key::Named(NamedKey::Super));
    assert_eq!(name(VK_MENU, US, true), Key::Named(NamedKey::Alt));
    assert_eq!(name(VK_LMENU, US, true), Key::Named(NamedKey::Alt));
    assert_eq!(name(VK_RMENU, US, true), Key::Named(NamedKey::AltGraph));
    assert_eq!(name(VK_RMENU, US, false), Key::Named(NamedKey::Alt));
    assert_eq!(name(VK_LBUTTON, US, false), Key::Unidentified(NativeKeyCode::Unidentified));
    assert_eq!(name(VK_NUMPAD0, US, false), Key::Unidentified(native));
    assert_eq!(name(VK_OEM_1, US, false), Key::Unidentified(native));
    assert_eq!(name(0x41, US, false), Key::Unidentified(native));
    assert_eq!(name(-1, US, false), Key::Unidentified(native));
    assert_eq!(name(VK_HANGUL, KOREAN, false), Key::Named(NamedKey::HangulMode));
    assert_eq!(name(VK_HANGUL, JAPANESE, false), Key::Named(NamedKey::KanaMode));
    assert_eq!(name(VK_HANGUL, US, false), Key::Unidentified(native));
    assert_eq!(name(VK_HANJA, KOREAN, false), Key::Named(NamedKey::HanjaMode));
    assert_eq!(name(VK_HANJA, JAPANESE, false), Key::Named(NamedKey::KanjiMode));
    assert_eq!(name(VK_OEM_FINISH, JAPANESE, false), Key::Named(NamedKey::Katakana));
    assert_eq!(name(VK_OEM_FINISH, KOREAN, false), Key::Unidentified(native));
    assert!(name(VK_BACK, US, false).is_identified());
    assert!(!name(0x41, US, false).is_identified());
}

#[test]
fn key_positions_name_virtual_keys() {
    assert_eq!(keycode_to_vkey(KeyCode::KeyA, US), 0);
    assert_eq!(keycode_to_vkey(KeyCode::AltRight, US), VK_RMENU);
    assert_eq!(keycode_to_vkey(KeyCode::ShiftLeft, US), VK_RSHIFT);
    assert_eq!(keycode_to_vkey(KeyCode::ShiftRight, US), VK_LSHIFT);
    assert_eq!(keycode_to_vkey(KeyCode::Numpad8, US), VK_NUMPAD8);
    assert_eq!(keycode_to_vkey(KeyCode::NumpadEnter, US), VK_RETURN);
    assert_eq!(keycode_to_vkey(KeyCode::F24, US), VK_F24);
    assert_eq!(keycode_to_vkey(KeyCode::F25, US), 0);
    assert_eq!(keycode_to_vkey(KeyCode::Lang1, US), 0);
    assert_eq!(keycode_to_vkey(KeyCode::Lang1, KOREAN), VK_HANGUL);
    assert_eq!(keycode_to_vkey(KeyCode::Lang1, JAPANESE), VK_HANGUL);
    assert_eq!(keycode_to_vkey(KeyCode::Lang2, KOREAN), VK_HANJA);
    assert_eq!(keycode_to_vkey(KeyCode::Lang2, JAPANESE), 0);
    assert_eq!(keycode_to_vkey(KeyCode::Lang3, JAPANESE), VK_OEM_FINISH);
    assert_eq!(keycode_to_vkey(KeyCode::Lang3, KOREAN), 0);
    assert_eq!(keycode_to_vkey(KeyCode::Unidentified(NativeKeyCode::Windows(3)), US), 0);
}

#[test]
fn language_and_numpad_tests() {
    assert_eq!(primary_lang_id(US), 0x09);
    assert_eq!(primary_lang_id(0xffff_0412), 0x12);
    assert_eq!(primary_lang_id(0x0000_0811), 0x11);
    assert!(is_numpad_specific(VK_NUMPAD0));
    assert!(is_numpad_specific(VK_DIVIDE));
    assert!(is_numpad_specific(VK_MULTIPLY));
    assert!(!is_numpad_specific(VK_UP));
    assert!(!is_numpad_specific(0x70));
    assert_eq!(numpad_vkey(0), VK_NUMPAD0);
    assert_eq!(numpad_vkey(15), VK_DIVIDE);
    assert!(is_numpad_keycode(KeyCode::NumpadComma));
    assert!(!is_numpad_keycode(KeyCode::NumpadEnter));
    assert_eq!(native_code(0x1_E048), NativeKeyCode::Windows(0xE048));
    let source = us_source();
    assert!(needs_probe(&source, US, VK_A));
    assert!(!needs_probe(&source, US, VK_RETURN as usize));
    assert!(!needs_probe(&source, US, 0x42));
}

#[test]
fn incomplete_source_is_told_apart() {
    let mut source = bare_source();
    assert!(source.is_complete());
    source.chars[7].pop();
    assert!(!source.is_complete());
    let mut short = bare_source();
    short.numpad.pop();
    assert!(!short.is_complete());
}

#[test]
fn settled_answer_is_decoded() {
    let buffer = [0x61u16, 0x62, 0, 0, 0, 0, 0, 0];
    assert_eq!(peek(1, &buffer), Peek::Settled(text("a")));
    assert_eq!(peek(2, &buffer), Peek::Settled(text("ab")));
    assert_eq!(peek(0, &buffer), Peek::Settled(ToUnicodeResult::Nothing));
    assert_eq!(peek(9, &buffer), Peek::Settled(ToUnicodeResult::Nothing));
    assert!(matches!(peek(-1, &buffer), Peek::Latched(_)));
    let pair = [0xD83Du16, 0xDE00, 0, 0];
    assert_eq!(peek(2, &pair), Peek::Settled(text("\u{1F600}")));
    assert_eq!(peek(1, &pair), Peek::Settled(ToUnicodeResult::Nothing));
    assert_eq!(decode_answer(1, &buffer), Some("a".to_string()));
    assert_eq!(decode_answer(1, &pair), None);
    assert_eq!(decode_answer(-3, &buffer), None);
}

#[test]
fn latched_answer_is_consumed_as_a_dead_key() {
    let accent = [0xB4u16, 0xB4, 0, 0, 0, 0, 0, 0];
    let latch = || match peek(-1, &accent) {
        Peek::Latched(latch) => latch,
        Peek::Settled(result) => panic!("settled on a dead key: {:?}", result),
    };
    assert_eq!(consume(latch(), 2, &accent), ToUnicodeResult::Dead(Some('\u{b4}')));
    assert_eq!(consume(latch(), 0, &accent), ToUnicodeResult::Dead(None));
    assert_eq!(consume(latch(), -1, &accent), ToUnicodeResult::Dead(None));
    let broken = [0xDC00u16, 0];
    assert_eq!(consume(latch(), 1, &broken), ToUnicodeResult::Dead(None));
    assert_eq!(to_unicode_string(-1, &accent, 2, &accent), ToUnicodeResult::Dead(Some('\u{b4}')));
    assert_eq!(to_unicode_string(1, &accent, 2, &broken), text("\u{b4}"));
    assert_eq!(to_unicode_string(0, &accent, 1, &accent), ToUnicodeResult::Nothing);
    assert!(matches!(peek_decoded(-1, Some("x".to_string())), Peek::Latched(_)));
    assert_eq!(peek_decoded(1, Some("x".to_string())), Peek::Settled(text("x")));
    assert_eq!(peek_decoded(1, None), Peek::Settled(ToUnicodeResult::Nothing));
    assert_eq!(consume_decoded(Some("xy".to_string())), ToUnicodeResult::Dead(Some('x')));
    assert_eq!(consume_decoded(Some(String::new())), ToUnicodeResult::Dead(None));
    assert_eq!(consume_decoded(None), ToUnicodeResult::Dead(None));
}

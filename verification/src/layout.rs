//! The resolved tables of one keyboard layout, and how a key press is
//! resolved against them.

use vstd::prelude::*;
use crate::interner::interned;
use crate::keyboard::{Key, KeyCode, KeyText, NamedKey, NativeKeyCode};
use crate::mapping::{non_char_key, vkey_of_keycode, vkey_to_non_char_key};
use crate::modifiers::WindowsModifiers;
use crate::probe::{ProbeText, ToUnicodeResult};
use crate::table::KeyTable;
use crate::vkeys::{is_numpad_specific_spec, numpad_vkeys, VK_MENU};

verus! {

/// The number of modifier combinations: every set over Shift, Control, Alt
/// and CapsLock.
pub const COMBINATIONS: usize = 16;

/// The number of virtual keys.
pub const VKEYS: usize = 256;

/// The bits of the combination of Control and Alt, under which a layout
/// with AltGraph prints its third-level characters.
pub const CTRL_ALT: u8 = 6;

/// What the system says of one virtual key under a layout.
#[derive(Clone, Copy, Debug, PartialEq, Eq)]
pub struct ScanEntry {
    /// The extended scan code of the virtual key; 0 where the layout has no
    /// such key.
    pub scancode: u32,
    /// The key position of that scan code.
    pub keycode: KeyCode,
}

/// Everything the system reports of one layout: the raw material that a
/// `Layout` is built from.
#[derive(Clone, Debug)]
pub struct LayoutSource {
    /// One entry for each virtual key, 0 to 255.
    pub scan: Vec<ScanEntry>,
    /// What each of the sixteen numpad virtual keys prints with every
    /// modifier released, in the order of `numpad_vkeys`.
    pub numpad: Vec<ToUnicodeResult>,
    /// What each virtual key prints under each modifier combination, by the
    /// combination's bits and then by virtual key. Entries of virtual keys
    /// without a scan code, and of those that `needs_probe` turns down, are
    /// never read.
    pub chars: Vec<Vec<ToUnicodeResult>>,
}

impl LayoutSource {
    /// Every table has its full size.
    pub open spec fn wf(&self) -> bool {
        &&& self.scan.len() == VKEYS
        &&& self.numpad.len() == COMBINATIONS
        &&& self.chars.len() == COMBINATIONS
        &&& forall|m: int| 0 <= m < COMBINATIONS ==> (#[trigger] self.chars[m]).len() == VKEYS
    }

    /// Tests `wf` at run time.
    pub fn is_complete(&self) -> (r: bool)
        ensures
            r == self.wf(),
    {
        if self.scan.len() != VKEYS || self.numpad.len() != COMBINATIONS || self.chars.len()
            != COMBINATIONS {
            return false;
        }
        let mut m: usize = 0;
        while m < COMBINATIONS
            invariant
                m <= COMBINATIONS,
                self.chars.len() == COMBINATIONS,
                forall|j: int| 0 <= j < m ==> (#[trigger] self.chars[j]).len() == VKEYS,
            decreases COMBINATIONS - m,
        {
            if self.chars[m].len() != VKEYS {
                return false;
            }
            m += 1;
        }
        true
    }
}

/// The native code that stands for a scan code: its low sixteen bits.
pub open spec fn native_code_spec(scancode: u32) -> NativeKeyCode {
    NativeKeyCode::Windows((scancode & 0xffff) as u16)
}

pub fn native_code(scancode: u32) -> (r: NativeKeyCode)
    ensures
        r == native_code_spec(scancode),
{
    assert(scancode & 0xffff <= 0xffff) by (bit_vector);
    NativeKeyCode::Windows((scancode & 0xffff) as u16)
}

/// The sixteen key positions of the numeric keypad.
pub open spec fn is_numpad_keycode_spec(keycode: KeyCode) -> bool {
    keycode == KeyCode::Numpad0 || keycode == KeyCode::Numpad1 || keycode == KeyCode::Numpad2
        || keycode == KeyCode::Numpad3 || keycode == KeyCode::Numpad4 || keycode
        == KeyCode::Numpad5 || keycode == KeyCode::Numpad6 || keycode == KeyCode::Numpad7
        || keycode == KeyCode::Numpad8 || keycode == KeyCode::Numpad9 || keycode
        == KeyCode::NumpadMultiply || keycode == KeyCode::NumpadAdd || keycode
        == KeyCode::NumpadComma || keycode == KeyCode::NumpadSubtract || keycode
        == KeyCode::NumpadDecimal || keycode == KeyCode::NumpadDivide
}

pub fn is_numpad_keycode(keycode: KeyCode) -> (r: bool)
    ensures
        r == is_numpad_keycode_spec(keycode),
{
    match keycode {
        KeyCode::Numpad0
        | KeyCode::Numpad1
        | KeyCode::Numpad2
        | KeyCode::Numpad3
        | KeyCode::Numpad4
        | KeyCode::Numpad5
        | KeyCode::Numpad6
        | KeyCode::Numpad7
        | KeyCode::Numpad8
        | KeyCode::Numpad9
        | KeyCode::NumpadMultiply
        | KeyCode::NumpadAdd
        | KeyCode::NumpadComma
        | KeyCode::NumpadSubtract
        | KeyCode::NumpadDecimal
        | KeyCode::NumpadDivide => true,
        _ => false,
    }
}

/// The text of a key that holds no handle.
pub open spec fn plain_text(key: Key) -> KeyText {
    key.text(Seq::empty())
}

/// The key that virtual key `vk` names before any probe, on the assumption
/// that the layout has no AltGraph.
pub open spec fn preliminary_key(source: LayoutSource, hkl: u64, vk: int) -> Key {
    non_char_key(vk as i32, native_code_spec(source.scan[vk].scancode), hkl, false)
}

/// Whether the character tables need to know what `vk` prints: it has a
/// scan code, and its virtual key alone names no key.
pub open spec fn needs_probe_spec(source: LayoutSource, hkl: u64, vk: int) -> bool {
    source.scan[vk].scancode != 0 && preliminary_key(source, hkl, vk).is_unidentified()
}

/// The text of the numpad divide key where the probe has none.
pub open spec fn slash() -> Seq<char> {
    "/"@
}

/// What the table of combination `m` holds for virtual key `vk`: the named
/// key where the virtual key settles it; else what the probe found; else a
/// slash for the numpad divide key without Control and Alt; else the
/// unidentified key.
pub open spec fn probed_text(source: LayoutSource, hkl: u64, m: int, vk: int) -> KeyText {
    let preliminary = preliminary_key(source, hkl, vk);
    let mods = WindowsModifiers { bits: m as u8 };
    if !preliminary.is_unidentified() {
        plain_text(preliminary)
    } else {
        match source.chars[m][vk]@ {
            ProbeText::Str(t) => KeyText::Character(t),
            ProbeText::Dead(c) => KeyText::Dead(c),
            ProbeText::Nothing => if !mods.alt() && !mods.control() && source.scan[vk].keycode
                == KeyCode::NumpadDivide {
                KeyText::Character(slash())
            } else {
                plain_text(preliminary)
            },
        }
    }
}

/// The table of combination `m` after the virtual keys below `n`: each
/// virtual key with a scan code binds its key position, a later one in
/// place of an earlier one.
pub open spec fn table_model(source: LayoutSource, hkl: u64, m: int, n: int) -> Map<
    KeyCode,
    KeyText,
>
    decreases n,
{
    if n <= 0 {
        Map::empty()
    } else {
        let before = table_model(source, hkl, m, n - 1);
        if source.scan[n - 1].scancode == 0 {
            before
        } else {
            before.insert(source.scan[n - 1].keycode, probed_text(source, hkl, m, n - 1))
        }
    }
}

/// Virtual key `vk` prints, under combination `m`, a character other than
/// the one that `base` holds for its key position.
pub open spec fn differs_at(
    source: LayoutSource,
    hkl: u64,
    m: int,
    base: Map<KeyCode, KeyText>,
    vk: int,
) -> bool {
    let keycode = source.scan[vk].keycode;
    &&& needs_probe_spec(source, hkl, vk)
    &&& probed_text(source, hkl, m, vk) is Character
    &&& base.dom().contains(keycode)
    &&& base[keycode] is Character
    &&& base[keycode] != probed_text(source, hkl, m, vk)
}

/// The table of no modifiers, against which AltGraph is detected.
pub open spec fn base_model(source: LayoutSource, hkl: u64) -> Map<KeyCode, KeyText> {
    table_model(source, hkl, 0, VKEYS as int)
}

/// A layout has AltGraph exactly when some key prints one character with
/// Control and Alt and another with no modifier.
pub open spec fn has_alt_graph_model(source: LayoutSource, hkl: u64) -> bool {
    exists|vk: int|
        0 <= vk < VKEYS && #[trigger] differs_at(
            source,
            hkl,
            CTRL_ALT as int,
            base_model(source, hkl),
            vk,
        )
}

/// A table with its right Alt entry, if it has one, relabelled AltGraph.
pub open spec fn relabelled(table: Map<KeyCode, KeyText>) -> Map<KeyCode, KeyText> {
    if table.dom().contains(KeyCode::AltRight) {
        table.insert(KeyCode::AltRight, KeyText::Named(NamedKey::AltGraph))
    } else {
        table
    }
}

/// The finished table of combination `m`.
pub open spec fn final_table_model(source: LayoutSource, hkl: u64, m: int) -> Map<
    KeyCode,
    KeyText,
> {
    let table = table_model(source, hkl, m, VKEYS as int);
    if has_alt_graph_model(source, hkl) {
        relabelled(table)
    } else {
        table
    }
}

/// The NumLock-on map after the first `n` numpad virtual keys: each one
/// that prints settled text is bound to that text.
pub open spec fn numlock_on_model(source: LayoutSource, n: int) -> Map<i32, KeyText>
    decreases n,
{
    if n <= 0 {
        Map::empty()
    } else {
        let before = numlock_on_model(source, n - 1);
        match source.numpad[n - 1]@ {
            ProbeText::Str(t) => before.insert(numpad_vkeys()[n - 1], KeyText::Character(t)),
            _ => before,
        }
    }
}

/// Virtual key `vk` is a navigation key that sits on the numeric keypad:
/// it is no numpad virtual key itself, its scan code belongs to a numpad
/// position that has a virtual key of its own, and it names a key.
pub open spec fn aliases_numpad(source: LayoutSource, hkl: u64, vk: int) -> bool {
    let entry = source.scan[vk];
    &&& entry.scancode != 0
    &&& !is_numpad_specific_spec(vk as i32)
    &&& is_numpad_keycode_spec(entry.keycode)
    &&& vkey_of_keycode(entry.keycode, hkl) != 0
    &&& !preliminary_key(source, hkl, vk).is_unidentified()
}

/// The NumLock-off map after the virtual keys below `n`: the numpad
/// virtual key of each aliased position is bound to the navigation key.
pub open spec fn numlock_off_model(source: LayoutSource, hkl: u64, n: int) -> Map<i32, KeyText>
    decreases n,
{
    if n <= 0 {
        Map::empty()
    } else {
        let before = numlock_off_model(source, hkl, n - 1);
        if aliases_numpad(source, hkl, n - 1) {
            before.insert(
                vkey_of_keycode(source.scan[n - 1].keycode, hkl),
                plain_text(preliminary_key(source, hkl, n - 1)),
            )
        } else {
            before
        }
    }
}

/// The strings of the interner after the texts of the first `n` numpad
/// virtual keys were interned, in their order.
pub open spec fn strings_after_numpad(strings: Seq<Seq<char>>, source: LayoutSource, n: int) -> Seq<
    Seq<char>,
>
    decreases n,
{
    if n <= 0 {
        strings
    } else {
        let before = strings_after_numpad(strings, source, n - 1);
        match source.numpad[n - 1]@ {
            ProbeText::Str(t) => interned(before, t),
            _ => before,
        }
    }
}

/// The strings of the interner after the characters that combination `m`
/// prints on the virtual keys below `n` were interned, in their order.
pub open spec fn strings_after_table(
    strings: Seq<Seq<char>>,
    source: LayoutSource,
    hkl: u64,
    m: int,
    n: int,
) -> Seq<Seq<char>>
    decreases n,
{
    if n <= 0 {
        strings
    } else {
        let before = strings_after_table(strings, source, hkl, m, n - 1);
        if source.scan[n - 1].scancode == 0 {
            before
        } else {
            match probed_text(source, hkl, m, n - 1) {
                KeyText::Character(t) => interned(before, t),
                _ => before,
            }
        }
    }
}

/// The strings of the interner after the numpad map and the tables of the
/// combinations below `m` were built.
pub open spec fn strings_after_tables(
    strings: Seq<Seq<char>>,
    source: LayoutSource,
    hkl: u64,
    m: int,
) -> Seq<Seq<char>>
    decreases m,
{
    if m <= 0 {
        strings_after_numpad(strings, source, COMBINATIONS as int)
    } else {
        strings_after_table(
            strings_after_tables(strings, source, hkl, m - 1),
            source,
            hkl,
            m - 1,
            VKEYS as int,
        )
    }
}

/// The strings of the interner after a layout was built: what it held,
/// then every text that the layout prints and that it did not hold yet,
/// each once, in the order in which the layout is built.
pub open spec fn strings_after_layout(strings: Seq<Seq<char>>, source: LayoutSource, hkl: u64) -> Seq<
    Seq<char>,
> {
    strings_after_tables(strings, source, hkl, COMBINATIONS as int)
}

/// A layout with every key's text written out.
pub ghost struct LayoutModel {
    pub numlock_on: Map<i32, KeyText>,
    pub numlock_off: Map<i32, KeyText>,
    pub keys: Seq<Map<KeyCode, KeyText>>,
    pub has_alt_graph: bool,
}

/// The layout that a source describes.
pub open spec fn layout_model(source: LayoutSource, hkl: u64) -> LayoutModel {
    LayoutModel {
        numlock_on: numlock_on_model(source, COMBINATIONS as int),
        numlock_off: numlock_off_model(source, hkl, VKEYS as int),
        keys: Seq::new(COMBINATIONS as nat, |m: int| final_table_model(source, hkl, m)),
        has_alt_graph: has_alt_graph_model(source, hkl),
    }
}

/// Every key of the table holds a handle that `strings` knows.
pub open spec fn table_valid<K>(table: Map<K, Key>, strings: Seq<Seq<char>>) -> bool {
    forall|k: K| table.dom().contains(k) ==> (#[trigger] table[k]).valid_in(strings)
}

/// The table with every key's text written out.
pub open spec fn table_text<K>(table: Map<K, Key>, strings: Seq<Seq<char>>) -> Map<K, KeyText> {
    table.map_values(|key: Key| key.text(strings))
}

/// `longer` holds everything that `shorter` holds, at the same places.
pub open spec fn extends(longer: Seq<Seq<char>>, shorter: Seq<Seq<char>>) -> bool {
    &&& shorter.len() <= longer.len()
    &&& forall|i: int| 0 <= i < shorter.len() ==> longer[i] == shorter[i]
}

/// The resolved key tables of one keyboard layout.
pub struct Layout {
    /// The layout's identifier.
    pub hkl: u64,
    /// What the numpad virtual keys print while NumLock is on.
    pub numlock_on_keys: KeyTable<i32>,
    /// The navigation keys that the numpad virtual keys stand for while
    /// NumLock is off.
    pub numlock_off_keys: KeyTable<i32>,
    /// One table for each modifier combination, by the combination's bits.
    pub keys: Vec<KeyTable<KeyCode>>,
    /// Whether Control with Alt reaches a third level of characters.
    pub has_alt_graph: bool,
}

impl Layout {
    /// The layout has its sixteen tables, and every handle in it is one
    /// that `strings` knows.
    pub open spec fn wf(&self, strings: Seq<Seq<char>>) -> bool {
        &&& self.keys.len() == COMBINATIONS
        &&& table_valid(self.numlock_on_keys@, strings)
        &&& table_valid(self.numlock_off_keys@, strings)
        &&& forall|m: int| 0 <= m < self.keys.len() ==> table_valid((#[trigger] self.keys[m])@, strings)
    }

    /// The layout with every key's text written out.
    pub open spec fn model(&self, strings: Seq<Seq<char>>) -> LayoutModel {
        LayoutModel {
            numlock_on: table_text(self.numlock_on_keys@, strings),
            numlock_off: table_text(self.numlock_off_keys@, strings),
            keys: Seq::new(self.keys.len() as nat, |m: int| table_text(self.keys[m]@, strings)),
            has_alt_graph: self.has_alt_graph,
        }
    }

    /// The key that a press resolves to. In order: the key that the
    /// virtual key names by itself, unless it is the Alt key that does not
    /// tell left from right; the entry of the virtual key in the map for
    /// the NumLock state; the entry of the key position in the table of
    /// the modifier combination; the unidentified key of the scan code.
    pub open spec fn resolved(
        &self,
        mods: WindowsModifiers,
        num_lock_on: bool,
        vkey: i32,
        scancode: u16,
        keycode: KeyCode,
    ) -> Key {
        let native = NativeKeyCode::Windows(scancode);
        let from_vkey = non_char_key(vkey, native, self.hkl, self.has_alt_graph);
        let numlock = if num_lock_on {
            self.numlock_on_keys@
        } else {
            self.numlock_off_keys@
        };
        if vkey != VK_MENU && !from_vkey.is_unidentified() {
            from_vkey
        } else if numlock.dom().contains(vkey) {
            numlock[vkey]
        } else if mods.bits < self.keys.len() && self.keys[mods.bits as int]@.dom().contains(keycode) {
            self.keys[mods.bits as int]@[keycode]
        } else {
            Key::Unidentified(native)
        }
    }

    /// Resolves a key press to its logical key.
    pub fn get_key(
        &self,
        mods: WindowsModifiers,
        num_lock_on: bool,
        vkey: i32,
        scancode: u16,
        keycode: KeyCode,
    ) -> (key: Key)
        ensures
            key == self.resolved(mods, num_lock_on, vkey, scancode, keycode),
    {
        let native = NativeKeyCode::Windows(scancode);
        if vkey != VK_MENU {
            let from_vkey = vkey_to_non_char_key(vkey, native, self.hkl, self.has_alt_graph);
            if from_vkey.is_identified() {
                return from_vkey;
            }
        }
        let numlock = if num_lock_on {
            self.numlock_on_keys.get(&vkey)
        } else {
            self.numlock_off_keys.get(&vkey)
        };
        if let Some(key) = numlock {
            return key;
        }
        if (mods.bits as usize) < self.keys.len() {
            if let Some(key) = self.keys[mods.bits as usize].get(&keycode) {
                return key;
            }
        }
        Key::Unidentified(native)
    }
}

} // verus!

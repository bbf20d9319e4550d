//! Building the tables of a layout from what the system reports of it.

use vstd::prelude::*;
use crate::interner::{get_or_insert_str, StringInterner};
use crate::keyboard::{Key, KeyCode, NamedKey, NativeKeyCode};
use crate::layout::{
    differs_at, extends, is_numpad_keycode, native_code, needs_probe_spec, numlock_off_model,
    numlock_on_model, plain_text, probed_text, relabelled, strings_after_numpad,
    strings_after_table, table_model, table_text, table_valid, LayoutSource, COMBINATIONS, VKEYS,
};
use crate::mapping::{keycode_to_vkey, non_char_key, vkey_to_non_char_key};
use crate::modifiers::WindowsModifiers;
use crate::probe::ToUnicodeResult;
use crate::table::KeyTable;
use crate::vkeys::{is_numpad_specific, numpad_vkey, numpad_vkeys};

verus! {

/// A key that a virtual key names by itself holds no handle: it is a named
/// key or an unidentified one.
pub proof fn lemma_non_char_key_plain(
    vkey: i32,
    native: NativeKeyCode,
    hkl: u64,
    has_alt_graph: bool,
    strings: Seq<Seq<char>>,
)
    ensures
        ({
            let key = non_char_key(vkey, native, hkl, has_alt_graph);
            &&& key is Named || key is Unidentified
            &&& key.valid_in(strings)
            &&& key.text(strings) == plain_text(key)
        }),
{
}

/// A table keeps its meaning while the interner grows.
pub proof fn lemma_table_stable<K>(
    table: Map<K, Key>,
    shorter: Seq<Seq<char>>,
    longer: Seq<Seq<char>>,
)
    requires
        table_valid(table, shorter),
        extends(longer, shorter),
    ensures
        table_valid(table, longer),
        table_text(table, longer) == table_text(table, shorter),
{
    assert forall|k: K| table.dom().contains(k) implies (#[trigger] table[k]).valid_in(longer)
        && table[k].text(longer) == table[k].text(shorter) by {
        assert(table[k].valid_in(shorter));
    }
    assert(table_text(table, longer) =~= table_text(table, shorter));
}

/// Binding a key in a table binds its text in the table's meaning.
pub proof fn lemma_table_insert<K>(table: Map<K, Key>, k: K, key: Key, strings: Seq<Seq<char>>)
    requires
        table_valid(table, strings),
        key.valid_in(strings),
    ensures
        table_valid(table.insert(k, key), strings),
        table_text(table.insert(k, key), strings) == table_text(table, strings).insert(
            k,
            key.text(strings),
        ),
{
    assert forall|j: K| table.insert(k, key).dom().contains(j) implies (#[trigger] table.insert(
        k,
        key,
    )[j]).valid_in(strings) by {
        if j != k {
            assert(table[j].valid_in(strings));
        }
    }
    assert(table_text(table.insert(k, key), strings) =~= table_text(table, strings).insert(
        k,
        key.text(strings),
    ));
}

/// Whether the character tables need to know what `vk` prints. A caller
/// that gathers a `LayoutSource` has to probe exactly these keys.
pub fn needs_probe(source: &LayoutSource, hkl: u64, vk: usize) -> (r: bool)
    requires
        source.wf(),
        vk < VKEYS,
    ensures
        r == needs_probe_spec(*source, hkl, vk as int),
{
    let entry = source.scan[vk];
    if entry.scancode == 0 {
        false
    } else {
        !vkey_to_non_char_key(vk as i32, native_code(entry.scancode), hkl, false).is_identified()
    }
}

/// Builds the map from numpad virtual keys to the navigation keys that
/// share their positions.
pub fn build_numlock_off(source: &LayoutSource, hkl: u64) -> (table: KeyTable<i32>)
    requires
        source.wf(),
    ensures
        forall|strings: Seq<Seq<char>>| #[trigger] table_valid(table@, strings),
        forall|strings: Seq<Seq<char>>| #[trigger]
            table_text(table@, strings) == numlock_off_model(*source, hkl, VKEYS as int),
{
    let mut table: KeyTable<i32> = KeyTable::new();
    let mut vk: usize = 0;
    proof {
        assert(table_text(table@, Seq::empty()) =~= numlock_off_model(*source, hkl, 0));
    }
    while vk < VKEYS
        invariant
            source.wf(),
            vk <= VKEYS,
            table_valid(table@, Seq::empty()),
            table_text(table@, Seq::empty()) == numlock_off_model(*source, hkl, vk as int),
        decreases VKEYS - vk,
    {
        let entry = source.scan[vk];
        if entry.scancode != 0 && !is_numpad_specific(vk as i32) && is_numpad_keycode(
            entry.keycode,
        ) {
            let map_vkey = keycode_to_vkey(entry.keycode, hkl);
            if map_vkey != 0 {
                let native = native_code(entry.scancode);
                let map_value = vkey_to_non_char_key(vk as i32, native, hkl, false);
                if map_value.is_identified() {
                    proof {
                        lemma_non_char_key_plain(vk as i32, native, hkl, false, Seq::empty());
                        lemma_table_insert(table@, map_vkey, map_value, Seq::empty());
                    }
                    table.insert(map_vkey, map_value);
                }
            }
        }
        vk += 1;
    }
    proof {
        assert forall|strings: Seq<Seq<char>>| #[trigger] table_valid(table@, strings) by {
            lemma_table_stable(table@, Seq::empty(), strings);
        }
        assert forall|strings: Seq<Seq<char>>| #[trigger]
            table_text(table@, strings) == numlock_off_model(*source, hkl, VKEYS as int) by {
            lemma_table_stable(table@, Seq::empty(), strings);
        }
    }
    table
}

/// Builds the map from numpad virtual keys to the characters they print
/// while NumLock is on.
pub fn build_numlock_on(strings: &mut StringInterner, source: &LayoutSource) -> (table: KeyTable<
    i32,
>)
    requires
        old(strings).wf(),
        source.wf(),
    ensures
        final(strings).wf(),
        extends(final(strings)@, old(strings)@),
        final(strings)@ == strings_after_numpad(old(strings)@, *source, COMBINATIONS as int),
        table_valid(table@, final(strings)@),
        table_text(table@, final(strings)@) == numlock_on_model(*source, COMBINATIONS as int),
{
    let mut table: KeyTable<i32> = KeyTable::new();
    let mut i: usize = 0;
    proof {
        assert(table_text(table@, strings@) =~= numlock_on_model(*source, 0));
    }
    while i < COMBINATIONS
        invariant
            source.wf(),
            i <= COMBINATIONS,
            strings.wf(),
            extends(strings@, old(strings)@),
            strings@ == strings_after_numpad(old(strings)@, *source, i as int),
            table_valid(table@, strings@),
            table_text(table@, strings@) == numlock_on_model(*source, i as int),
        decreases COMBINATIONS - i,
    {
        let ghost before = strings@;
        match &source.numpad[i] {
            ToUnicodeResult::Str(s) => {
                let symbol = get_or_insert_str(strings, s.clone());
                let key = Key::Character(symbol);
                proof {
                    lemma_table_stable(table@, before, strings@);
                    lemma_table_insert(table@, numpad_vkeys()[i as int], key, strings@);
                }
                table.insert(numpad_vkey(i), key);
            },
            _ => {},
        }
        i += 1;
    }
    table
}

/// Builds the table of one modifier combination. With a `base` table, also
/// tells whether some probed key prints a character other than the one
/// that `base` holds for its position.
pub fn build_table(
    strings: &mut StringInterner,
    source: &LayoutSource,
    hkl: u64,
    mods: WindowsModifiers,
    base: Option<&KeyTable<KeyCode>>,
) -> (r: (KeyTable<KeyCode>, bool))
    requires
        old(strings).wf(),
        source.wf(),
        mods.is_combination(),
        base matches Some(b) ==> table_valid(b@, old(strings)@),
    ensures
        final(strings).wf(),
        extends(final(strings)@, old(strings)@),
        final(strings)@ == strings_after_table(
            old(strings)@,
            *source,
            hkl,
            mods.bits as int,
            VKEYS as int,
        ),
        table_valid(r.0@, final(strings)@),
        table_text(r.0@, final(strings)@) == table_model(
            *source,
            hkl,
            mods.bits as int,
            VKEYS as int,
        ),
        r.1 == (base matches Some(b) && exists|vk: int|
            0 <= vk < VKEYS && #[trigger] differs_at(
                *source,
                hkl,
                mods.bits as int,
                table_text(b@, old(strings)@),
                vk,
            )),
{
    let mut table: KeyTable<KeyCode> = KeyTable::new();
    let mut found = false;
    let has_alt = mods.contains_alt();
    let has_ctrl = mods.contains_control();
    let m = mods.bits as usize;
    let ghost base_text = match base {
        Some(b) => table_text(b@, old(strings)@),
        None => Map::empty(),
    };
    let mut vk: usize = 0;
    proof {
        assert(table_text(table@, strings@) =~= table_model(*source, hkl, m as int, 0));
    }
    while vk < VKEYS
        invariant
            source.wf(),
            vk <= VKEYS,
            m == mods.bits,
            m < COMBINATIONS,
            has_alt == mods.alt(),
            has_ctrl == mods.control(),
            strings.wf(),
            extends(strings@, old(strings)@),
            strings@ == strings_after_table(old(strings)@, *source, hkl, m as int, vk as int),
            table_valid(table@, strings@),
            table_text(table@, strings@) == table_model(*source, hkl, m as int, vk as int),
            base matches Some(b) ==> table_valid(b@, strings@) && table_text(b@, strings@)
                == base_text,
            found == (base matches Some(b) && exists|v: int|
                0 <= v < vk && #[trigger] differs_at(*source, hkl, m as int, base_text, v)),
        decreases VKEYS - vk,
    {
        let entry = source.scan[vk];
        if entry.scancode != 0 {
            let ghost before = strings@;
            let native = native_code(entry.scancode);
            let preliminary = vkey_to_non_char_key(vk as i32, native, hkl, false);
            proof {
                lemma_non_char_key_plain(vk as i32, native, hkl, false, before);
            }
            let probed = !preliminary.is_identified();
            let key = if !probed {
                preliminary
            } else {
                match &source.chars[m][vk] {
                    ToUnicodeResult::Str(s) => Key::Character(get_or_insert_str(strings, s.clone())),
                    ToUnicodeResult::Dead(c) => Key::Dead(*c),
                    ToUnicodeResult::Nothing => {
                        if !has_alt && !has_ctrl && entry.keycode == KeyCode::NumpadDivide {
                            Key::Character(get_or_insert_str(strings, "/".to_owned()))
                        } else {
                            preliminary
                        }
                    },
                }
            };
            proof {
                lemma_non_char_key_plain(vk as i32, native, hkl, false, strings@);
                lemma_table_stable(table@, before, strings@);
                assert(key.valid_in(strings@));
                assert(key.text(strings@) == probed_text(*source, hkl, m as int, vk as int));
                lemma_table_insert(table@, entry.keycode, key, strings@);
            }
            let mut differs = false;
            if probed {
                if let Some(b) = base {
                    proof {
                        lemma_table_stable(b@, before, strings@);
                    }
                    if let Some(Key::Character(without)) = b.get(&entry.keycode) {
                        if let Key::Character(with) = key {
                            assert(b@[entry.keycode].valid_in(strings@));
                            differs = without.index != with.index;
                        }
                    }
                }
            }
            proof {
                assert(differs == (base is Some && differs_at(
                    *source,
                    hkl,
                    m as int,
                    base_text,
                    vk as int,
                )));
            }
            if differs {
                found = true;
            }
            table.insert(entry.keycode, key);
        } else {
            proof {
                assert(!differs_at(*source, hkl, m as int, base_text, vk as int));
            }
        }
        vk += 1;
    }
    (table, found)
}

/// Relabels the right Alt entry of every table as AltGraph.
pub(crate) fn relabel_alt_right(keys: &mut Vec<KeyTable<KeyCode>>, Ghost(strings): Ghost<Seq<Seq<char>>>)
    requires
        forall|m: int| 0 <= m < old(keys).len() ==> table_valid((#[trigger] old(keys)[m])@, strings),
    ensures
        final(keys).len() == old(keys).len(),
        forall|m: int|
            0 <= m < old(keys).len() ==> table_valid((#[trigger] final(keys)[m])@, strings)
                && table_text(final(keys)[m]@, strings) == relabelled(
                table_text(old(keys)[m]@, strings),
            ),
{
    let mut i: usize = 0;
    while i < keys.len()
        invariant
            i <= keys.len(),
            keys.len() == old(keys).len(),
            forall|m: int| i <= m < keys.len() ==> (#[trigger] keys[m]) == old(keys)[m],
            forall|m: int| 0 <= m < keys.len() ==> table_valid((#[trigger] keys[m])@, strings),
            forall|m: int|
                0 <= m < i ==> table_text((#[trigger] keys[m])@, strings) == relabelled(
                    table_text(old(keys)[m]@, strings),
                ),
        decreases keys.len() - i,
    {
        let ghost before = keys@;
        if keys[i].contains_key(&KeyCode::AltRight) {
            proof {
                lemma_table_insert(
                    keys[i as int]@,
                    KeyCode::AltRight,
                    Key::Named(NamedKey::AltGraph),
                    strings,
                );
            }
            keys[i].insert(KeyCode::AltRight, Key::Named(NamedKey::AltGraph));
        }
        proof {
            assert(forall|m: int| 0 <= m < keys.len() && m != i ==> keys[m] == before[m]);
        }
        i += 1;
    }
}

} // verus!

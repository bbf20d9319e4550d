//! What holds of every layout and of every cache.

use vstd::prelude::*;
use crate::cache::{after_lookup, knows, place_of};
use crate::construction::lemma_non_char_key_plain;
use crate::keyboard::{Key, KeyCode, KeyText, NamedKey, NativeKeyCode};
use crate::layout::{
    aliases_numpad, base_model, differs_at, final_table_model, has_alt_graph_model,
    is_numpad_keycode_spec, layout_model, CTRL_ALT,
    numlock_off_model, numlock_on_model, plain_text, preliminary_key, relabelled, table_model,
    table_text, Layout, LayoutSource, COMBINATIONS, VKEYS,
};
use crate::mapping::{non_char_key, vkey_of_keycode};
use crate::modifiers::WindowsModifiers;
use crate::vkeys::{
    is_numpad_specific_spec, numpad_vkeys, numpad_vkeys_are_contiguous, VK_MENU, VK_RMENU,
};

verus! {

/// A layout is built at most once for an identifier: after a cache was
/// asked for it once, asking again stores nothing, whatever layout the
/// second request could have built, and finds the layout of the first.
pub proof fn lemma_layout_built_once(
    layouts: Seq<Layout>,
    locale_id: u64,
    first: Layout,
    second: Layout,
)
    requires
        first.hkl == locale_id,
        forall|i: int, j: int|
            0 <= i < j < layouts.len() ==> (#[trigger] layouts[i]).hkl != (#[trigger] layouts[j]).hkl,
    ensures
        knows(after_lookup(layouts, locale_id, first), locale_id),
        after_lookup(after_lookup(layouts, locale_id, first), locale_id, second) == after_lookup(
            layouts,
            locale_id,
            first,
        ),
        !knows(layouts, locale_id) ==> after_lookup(layouts, locale_id, first)[place_of(
            after_lookup(layouts, locale_id, first),
            locale_id,
        )] == first,
        knows(layouts, locale_id) ==> after_lookup(layouts, locale_id, first)[place_of(
            after_lookup(layouts, locale_id, first),
            locale_id,
        )] == layouts[place_of(layouts, locale_id)],
{
    let after = after_lookup(layouts, locale_id, first);
    if !knows(layouts, locale_id) {
        assert(after[layouts.len() as int].hkl == locale_id);
        let p = place_of(after, locale_id);
        if p < layouts.len() {
            assert(layouts[p].hkl == locale_id);
        }
    }
}

/// The tables of all modifier combinations bind the same key positions
/// before the virtual keys below `n`.
pub proof fn lemma_table_positions(source: LayoutSource, hkl: u64, m: int, n: int)
    ensures
        table_model(source, hkl, m, n).dom() == table_model(source, hkl, 0, n).dom(),
    decreases n,
{
    if n > 0 {
        lemma_table_positions(source, hkl, m, n - 1);
    }
}

/// A key position that the table of no modifiers binds is bound in the
/// table of every modifier combination.
pub proof fn lemma_every_combination_resolves(
    source: LayoutSource,
    hkl: u64,
    m: int,
    keycode: KeyCode,
)
    requires
        0 <= m < COMBINATIONS,
        final_table_model(source, hkl, 0).dom().contains(keycode),
    ensures
        final_table_model(source, hkl, m).dom().contains(keycode),
{
    lemma_table_positions(source, hkl, m, VKEYS as int);
    let plain = table_model(source, hkl, 0, VKEYS as int);
    let other = table_model(source, hkl, m, VKEYS as int);
    assert(relabelled(plain).dom() =~= plain.dom());
    assert(relabelled(other).dom() =~= other.dom());
}

/// The right Alt key resolves by its virtual key alone: to AltGraph on a
/// layout that has it, to Alt on one that has not, whatever the modifiers,
/// the NumLock state and the tables.
pub proof fn lemma_right_alt_resolves(
    layout: Layout,
    mods: WindowsModifiers,
    num_lock_on: bool,
    scancode: u16,
    keycode: KeyCode,
)
    ensures
        layout.resolved(mods, num_lock_on, VK_RMENU, scancode, keycode) == Key::Named(
            if layout.has_alt_graph {
                NamedKey::AltGraph
            } else {
                NamedKey::Alt
            },
        ),
{
}

/// On a layout with AltGraph, the right Alt position is AltGraph in every
/// table that binds it.
pub proof fn lemma_right_alt_relabelled(source: LayoutSource, hkl: u64, m: int)
    requires
        has_alt_graph_model(source, hkl),
        final_table_model(source, hkl, m).dom().contains(KeyCode::AltRight),
    ensures
        final_table_model(source, hkl, m)[KeyCode::AltRight] == KeyText::Named(NamedKey::AltGraph),
{
}

/// A numpad virtual key names no key by itself, so its press resolves
/// through the map of the NumLock state wherever that map binds it.
pub proof fn lemma_numpad_resolves_by_numlock(
    layout: Layout,
    mods: WindowsModifiers,
    num_lock_on: bool,
    vkey: i32,
    scancode: u16,
    keycode: KeyCode,
)
    requires
        is_numpad_specific_spec(vkey),
        num_lock_on ==> layout.numlock_on_keys@.dom().contains(vkey),
        !num_lock_on ==> layout.numlock_off_keys@.dom().contains(vkey),
    ensures
        layout.resolved(mods, num_lock_on, vkey, scancode, keycode) == (if num_lock_on {
            layout.numlock_on_keys@[vkey]
        } else {
            layout.numlock_off_keys@[vkey]
        }),
{
    assert(non_char_key(
        vkey,
        NativeKeyCode::Windows(scancode),
        layout.hkl,
        layout.has_alt_graph,
    ).is_unidentified());
}

proof fn lemma_numlock_on_keeps(source: LayoutSource, i: int, n: int)
    requires
        0 <= i < n <= COMBINATIONS,
        source.numpad[i]@ is Str,
    ensures
        numlock_on_model(source, n).dom().contains(numpad_vkeys()[i]),
        numlock_on_model(source, n)[numpad_vkeys()[i]] == KeyText::Character(
            source.numpad[i]@->Str_0,
        ),
    decreases n,
{
    numpad_vkeys_are_contiguous();
    if n - 1 > i {
        lemma_numlock_on_keeps(source, i, n - 1);
    }
}

/// With NumLock on, a numpad virtual key that prints settled text is
/// bound to a character key of that text.
pub proof fn lemma_numlock_on_prints(source: LayoutSource, i: int)
    requires
        0 <= i < COMBINATIONS,
        source.numpad[i]@ is Str,
    ensures
        numlock_on_model(source, COMBINATIONS as int).dom().contains(numpad_vkeys()[i]),
        numlock_on_model(source, COMBINATIONS as int)[numpad_vkeys()[i]] == KeyText::Character(
            source.numpad[i]@->Str_0,
        ),
{
    lemma_numlock_on_keeps(source, i, COMBINATIONS as int);
}

/// With NumLock off, a numpad virtual key is bound exactly to a
/// navigation key that shares its position: the binding of `vkey` is the
/// key that some virtual key `vk` with `aliases_numpad` names, and every
/// such `vk` gives the numpad virtual key of its position a binding.
pub proof fn lemma_numlock_off_aliases(source: LayoutSource, hkl: u64, n: int)
    requires
        0 <= n <= VKEYS,
    ensures
        forall|vkey: i32| #[trigger]
            numlock_off_model(source, hkl, n).dom().contains(vkey) ==> exists|vk: int|
                0 <= vk < n && #[trigger] aliases_numpad(source, hkl, vk) && vkey_of_keycode(
                    source.scan[vk].keycode,
                    hkl,
                ) == vkey && numlock_off_model(source, hkl, n)[vkey] == plain_text(
                    preliminary_key(source, hkl, vk),
                ),
        forall|vk: int|
            0 <= vk < n && #[trigger] aliases_numpad(source, hkl, vk) ==> numlock_off_model(
                source,
                hkl,
                n,
            ).dom().contains(vkey_of_keycode(source.scan[vk].keycode, hkl)),
    decreases n,
{
    if n > 0 {
        lemma_numlock_off_aliases(source, hkl, n - 1);
        let before = numlock_off_model(source, hkl, n - 1);
        let now = numlock_off_model(source, hkl, n);
        assert forall|vkey: i32| #[trigger] now.dom().contains(vkey) implies exists|vk: int|
            0 <= vk < n && #[trigger] aliases_numpad(source, hkl, vk) && vkey_of_keycode(
                source.scan[vk].keycode,
                hkl,
            ) == vkey && now[vkey] == plain_text(preliminary_key(source, hkl, vk)) by {
            if aliases_numpad(source, hkl, n - 1) && vkey == vkey_of_keycode(
                source.scan[n - 1].keycode,
                hkl,
            ) {
                assert(aliases_numpad(source, hkl, n - 1));
            } else {
                assert(before.dom().contains(vkey));
                let vk = choose|vk: int|
                    0 <= vk < n - 1 && #[trigger] aliases_numpad(source, hkl, vk)
                        && vkey_of_keycode(source.scan[vk].keycode, hkl) == vkey && before[vkey]
                        == plain_text(preliminary_key(source, hkl, vk));
                assert(aliases_numpad(source, hkl, vk));
            }
        }
    }
}

/// A press resolves to a key that the layout's interner knows.
pub proof fn lemma_resolved_valid(
    layout: Layout,
    strings: Seq<Seq<char>>,
    mods: WindowsModifiers,
    num_lock_on: bool,
    vkey: i32,
    scancode: u16,
    keycode: KeyCode,
)
    requires
        layout.wf(strings),
    ensures
        layout.resolved(mods, num_lock_on, vkey, scancode, keycode).valid_in(strings),
{
    lemma_non_char_key_plain(
        vkey,
        NativeKeyCode::Windows(scancode),
        layout.hkl,
        layout.has_alt_graph,
        strings,
    );
    if mods.bits < layout.keys.len() {
        let table = layout.keys[mods.bits as int];
        if table@.dom().contains(keycode) {
            assert(table@[keycode].valid_in(strings));
        }
    }
}

/// Two presses that resolve to characters resolve to the same key exactly
/// when the characters are the same, whatever the key positions and
/// whichever layouts of one cache they were resolved under.
pub proof fn lemma_same_text_same_key(
    strings: Seq<Seq<char>>,
    first_layout: Layout,
    first: (WindowsModifiers, bool, i32, u16, KeyCode),
    second_layout: Layout,
    second: (WindowsModifiers, bool, i32, u16, KeyCode),
)
    requires
        strings.no_duplicates(),
        first_layout.wf(strings),
        second_layout.wf(strings),
    ensures
        ({
            let a = first_layout.resolved(first.0, first.1, first.2, first.3, first.4);
            let b = second_layout.resolved(second.0, second.1, second.2, second.3, second.4);
            a is Character && b is Character ==> (a.text(strings) == b.text(strings) <==> a == b)
        }),
{
    lemma_resolved_valid(first_layout, strings, first.0, first.1, first.2, first.3, first.4);
    lemma_resolved_valid(second_layout, strings, second.0, second.1, second.2, second.3, second.4);
}

/// With NumLock on, the press of a numpad virtual key that prints settled
/// text resolves to the character key of that text, under every modifier
/// combination.
pub proof fn lemma_numpad_prints_with_numlock(
    layout: Layout,
    strings: Seq<Seq<char>>,
    source: LayoutSource,
    i: int,
    mods: WindowsModifiers,
    scancode: u16,
    keycode: KeyCode,
)
    requires
        layout.model(strings) == layout_model(source, layout.hkl),
        0 <= i < COMBINATIONS,
        source.numpad[i]@ is Str,
    ensures
        layout.resolved(mods, true, numpad_vkeys()[i], scancode, keycode).text(strings)
            == KeyText::Character(source.numpad[i]@->Str_0),
{
    let vkey = numpad_vkeys()[i];
    numpad_vkeys_are_contiguous();
    lemma_numlock_on_prints(source, i);
    let told = table_text(layout.numlock_on_keys@, strings);
    assert(told == numlock_on_model(source, COMBINATIONS as int));
    assert(told.dom().contains(vkey));
    assert(layout.numlock_on_keys@.dom().contains(vkey));
    lemma_numpad_resolves_by_numlock(layout, mods, true, vkey, scancode, keycode);
}

/// The virtual key of a numpad position is a numpad virtual key.
pub proof fn lemma_numpad_position_has_numpad_vkey(keycode: KeyCode, hkl: u64)
    requires
        is_numpad_keycode_spec(keycode),
    ensures
        is_numpad_specific_spec(vkey_of_keycode(keycode, hkl)),
{
}

/// With NumLock off, the press of the numpad virtual key of a position
/// that a navigation key shares resolves to a navigation key of that
/// position: the key that some virtual key with `aliases_numpad` and the
/// same position names.
pub proof fn lemma_numpad_navigates_without_numlock(
    layout: Layout,
    strings: Seq<Seq<char>>,
    source: LayoutSource,
    vk: int,
    mods: WindowsModifiers,
    scancode: u16,
    keycode: KeyCode,
)
    requires
        layout.model(strings) == layout_model(source, layout.hkl),
        0 <= vk < VKEYS,
        aliases_numpad(source, layout.hkl, vk),
    ensures
        ({
            let vkey = vkey_of_keycode(source.scan[vk].keycode, layout.hkl);
            exists|alias: int|
                0 <= alias < VKEYS && #[trigger] aliases_numpad(source, layout.hkl, alias)
                    && vkey_of_keycode(source.scan[alias].keycode, layout.hkl) == vkey
                    && layout.resolved(mods, false, vkey, scancode, keycode).text(strings)
                    == plain_text(preliminary_key(source, layout.hkl, alias))
        }),
{
    let hkl = layout.hkl;
    let vkey = vkey_of_keycode(source.scan[vk].keycode, hkl);
    lemma_numlock_off_aliases(source, hkl, VKEYS as int);
    lemma_numpad_position_has_numpad_vkey(source.scan[vk].keycode, hkl);
    let told = table_text(layout.numlock_off_keys@, strings);
    assert(told == numlock_off_model(source, hkl, VKEYS as int));
    assert(told.dom().contains(vkey));
    assert(layout.numlock_off_keys@.dom().contains(vkey));
    lemma_numpad_resolves_by_numlock(layout, mods, false, vkey, scancode, keycode);
    let alias = choose|alias: int|
        0 <= alias < VKEYS && #[trigger] aliases_numpad(source, hkl, alias) && vkey_of_keycode(
            source.scan[alias].keycode,
            hkl,
        ) == vkey && numlock_off_model(source, hkl, VKEYS as int)[vkey] == plain_text(
            preliminary_key(source, hkl, alias),
        );
    assert(aliases_numpad(source, hkl, alias));
}

/// The NumLock-on map binds numpad virtual keys only.
pub proof fn lemma_numlock_on_domain(source: LayoutSource, n: int)
    requires
        0 <= n <= COMBINATIONS,
    ensures
        forall|vkey: i32| #[trigger]
            numlock_on_model(source, n).dom().contains(vkey) ==> is_numpad_specific_spec(vkey),
    decreases n,
{
    numpad_vkeys_are_contiguous();
    if n > 0 {
        lemma_numlock_on_domain(source, n - 1);
        assert(is_numpad_specific_spec(numpad_vkeys()[n - 1]));
        let before = numlock_on_model(source, n - 1);
        assert forall|vkey: i32| #[trigger]
            numlock_on_model(source, n).dom().contains(vkey) implies is_numpad_specific_spec(
            vkey,
        ) by {
            if vkey != numpad_vkeys()[n - 1] {
                assert(before.dom().contains(vkey));
            }
        }
    }
}

/// On a layout with AltGraph, the Alt key that does not tell left from
/// right resolves to AltGraph where it is pressed at the right Alt
/// position, under every modifier combination whose table binds that
/// position.
pub proof fn lemma_generic_alt_at_right_position(
    layout: Layout,
    strings: Seq<Seq<char>>,
    source: LayoutSource,
    mods: WindowsModifiers,
    num_lock_on: bool,
    scancode: u16,
)
    requires
        layout.model(strings) == layout_model(source, layout.hkl),
        layout.has_alt_graph,
        mods.is_combination(),
        final_table_model(source, layout.hkl, mods.bits as int).dom().contains(KeyCode::AltRight),
    ensures
        layout.resolved(mods, num_lock_on, VK_MENU, scancode, KeyCode::AltRight).text(strings)
            == KeyText::Named(NamedKey::AltGraph),
{
    let hkl = layout.hkl;
    let m = mods.bits as int;
    lemma_numlock_on_domain(source, COMBINATIONS as int);
    lemma_numlock_off_aliases(source, hkl, VKEYS as int);
    let on = table_text(layout.numlock_on_keys@, strings);
    let off = table_text(layout.numlock_off_keys@, strings);
    assert(on == numlock_on_model(source, COMBINATIONS as int));
    assert(off == numlock_off_model(source, hkl, VKEYS as int));
    if off.dom().contains(VK_MENU) {
        let alias = choose|alias: int|
            0 <= alias < VKEYS && #[trigger] aliases_numpad(source, hkl, alias) && vkey_of_keycode(
                source.scan[alias].keycode,
                hkl,
            ) == VK_MENU;
        lemma_numpad_position_has_numpad_vkey(source.scan[alias].keycode, hkl);
    }
    assert(!on.dom().contains(VK_MENU));
    assert(!layout.numlock_on_keys@.dom().contains(VK_MENU));
    assert(!layout.numlock_off_keys@.dom().contains(VK_MENU));
    assert(layout.model(strings).keys.len() == COMBINATIONS);
    assert(layout.model(strings).keys[m] == table_text(layout.keys[m]@, strings));
    assert(layout_model(source, hkl).keys[m] == final_table_model(source, hkl, m));
    assert(layout.keys[m]@.dom().contains(KeyCode::AltRight));
    lemma_right_alt_relabelled(source, hkl, m);
}

/// In a layout built from a source, a key position that the table of no
/// modifiers binds is bound in the table of every modifier combination.
pub proof fn lemma_layout_binds_same_positions(
    layout: Layout,
    strings: Seq<Seq<char>>,
    source: LayoutSource,
    m: int,
    keycode: KeyCode,
)
    requires
        layout.model(strings) == layout_model(source, layout.hkl),
        0 <= m < COMBINATIONS,
        layout.keys[0]@.dom().contains(keycode),
    ensures
        layout.keys.len() == COMBINATIONS,
        layout.keys[m]@.dom().contains(keycode),
{
    let hkl = layout.hkl;
    assert(layout.model(strings).keys.len() == COMBINATIONS);
    assert(layout.model(strings).keys[0] == table_text(layout.keys[0]@, strings));
    assert(layout.model(strings).keys[m] == table_text(layout.keys[m]@, strings));
    assert(layout_model(source, hkl).keys[0] == final_table_model(source, hkl, 0));
    assert(layout_model(source, hkl).keys[m] == final_table_model(source, hkl, m));
    assert(final_table_model(source, hkl, 0).dom().contains(keycode));
    lemma_every_combination_resolves(source, hkl, m, keycode);
}

/// One key that prints a character with Control and Alt other than the
/// character it prints with no modifier gives the layout AltGraph, and
/// with it the right Alt position is AltGraph in every table that binds
/// it.
pub proof fn lemma_third_level_gives_alt_graph(source: LayoutSource, hkl: u64, vk: int, m: int)
    requires
        0 <= vk < VKEYS,
        differs_at(source, hkl, CTRL_ALT as int, base_model(source, hkl), vk),
    ensures
        has_alt_graph_model(source, hkl),
        layout_model(source, hkl).has_alt_graph,
        final_table_model(source, hkl, m).dom().contains(KeyCode::AltRight) ==> final_table_model(
            source,
            hkl,
            m,
        )[KeyCode::AltRight] == KeyText::Named(NamedKey::AltGraph),
{
}

} // verus!

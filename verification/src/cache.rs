//! The store of the layouts that have been built, one for each layout
//! identifier, with the interner that their keys share.

use vstd::prelude::*;
use crate::construction::{
    build_numlock_off, build_numlock_on, build_table, lemma_table_stable, relabel_alt_right,
};
use crate::interner::StringInterner;
use crate::keyboard::{KeyCode, ModifiersState};
use crate::layout::{
    base_model, differs_at, extends, has_alt_graph_model, layout_model, numlock_on_model,
    strings_after_layout, strings_after_tables, table_model, table_text, table_valid, Layout,
    LayoutSource, COMBINATIONS, CTRL_ALT, VKEYS,
};
use crate::modifiers::{is_down, WindowsModifiers};
use crate::table::KeyTable;
use crate::vkeys::{VK_CONTROL, VK_LWIN, VK_MENU, VK_RMENU, VK_RWIN, VK_SHIFT};

verus! {

/// Some layout of the list has the identifier.
pub open spec fn knows(layouts: Seq<Layout>, locale_id: u64) -> bool {
    exists|i: int| 0 <= i < layouts.len() && (#[trigger] layouts[i]).hkl == locale_id
}

/// The place of the layout with the identifier.
pub open spec fn place_of(layouts: Seq<Layout>, locale_id: u64) -> int {
    choose|i: int| 0 <= i < layouts.len() && (#[trigger] layouts[i]).hkl == locale_id
}

/// The layouts of a cache after it was asked for `locale_id`: as before
/// where it knew the identifier, else with the fresh layout at the end.
pub open spec fn after_lookup(layouts: Seq<Layout>, locale_id: u64, fresh: Layout) -> Seq<Layout> {
    if knows(layouts, locale_id) {
        layouts
    } else {
        layouts.push(fresh)
    }
}

/// The modifiers that applications are told, read off a key-state array.
/// On a layout with AltGraph, a held right Alt key is that modifier, which
/// the system shows as Control with Alt: neither is reported then.
pub open spec fn agnostic_mods(has_alt_graph: bool, key_state: Seq<u8>) -> ModifiersState {
    let alt_graph_held = has_alt_graph && is_down(key_state[VK_RMENU as int]);
    ModifiersState {
        shift: is_down(key_state[VK_SHIFT as int]),
        control: is_down(key_state[VK_CONTROL as int]) && !alt_graph_held,
        alt: is_down(key_state[VK_MENU as int]) && !alt_graph_held,
        super_key: is_down(key_state[VK_LWIN as int]) || is_down(key_state[VK_RWIN as int]),
    }
}

impl Layout {
    /// The modifiers that applications are told while this layout is
    /// active and the keys are as `key_state` says.
    pub fn agnostic_mods(&self, key_state: &[u8; 256]) -> (mods: ModifiersState)
        ensures
            mods == agnostic_mods(self.has_alt_graph, key_state@),
    {
        let filter_out_altgr = self.has_alt_graph && key_state[VK_RMENU as usize] & 0x80 != 0;
        ModifiersState {
            shift: key_state[VK_SHIFT as usize] & 0x80 != 0,
            control: key_state[VK_CONTROL as usize] & 0x80 != 0 && !filter_out_altgr,
            alt: key_state[VK_MENU as usize] & 0x80 != 0 && !filter_out_altgr,
            super_key: key_state[VK_LWIN as usize] & 0x80 != 0 || key_state[VK_RWIN as usize] & 0x80
                != 0,
        }
    }
}

/// The layouts built so far and the interner of their strings.
pub struct LayoutCache {
    /// The layouts, in the order in which they were first asked for.
    pub layouts: Vec<Layout>,
    pub strings: StringInterner,
}

impl LayoutCache {
    /// The interner holds no string twice, every layout's handles are the
    /// interner's, and no identifier has two layouts.
    pub open spec fn wf(&self) -> bool {
        &&& self.strings.wf()
        &&& forall|i: int| 0 <= i < self.layouts.len() ==> (#[trigger] self.layouts[i]).wf(self.strings@)
        &&& forall|i: int, j: int|
            0 <= i < j < self.layouts.len() ==> (#[trigger] self.layouts[i]).hkl != (
            #[trigger] self.layouts[j]).hkl
    }

    pub fn new() -> (cache: LayoutCache)
        ensures
            cache.wf(),
            cache.layouts@.len() == 0,
            cache.strings@.len() == 0,
    {
        LayoutCache { layouts: Vec::new(), strings: StringInterner::new() }
    }

    /// The place of the layout of `locale_id`, if it has been built.
    pub fn find_layout(&self, locale_id: u64) -> (r: Option<usize>)
        ensures
            match r {
                Some(i) => i < self.layouts.len() && self.layouts[i as int].hkl == locale_id,
                None => !knows(self.layouts@, locale_id),
            },
            self.wf() && r is Some ==> r == Some(place_of(self.layouts@, locale_id) as usize),
    {
        let mut i: usize = 0;
        while i < self.layouts.len()
            invariant
                i <= self.layouts.len(),
                forall|j: int| 0 <= j < i ==> (#[trigger] self.layouts[j]).hkl != locale_id,
            decreases self.layouts.len() - i,
        {
            if self.layouts[i].hkl == locale_id {
                return Some(i);
            }
            i += 1;
        }
        None
    }

    /// Builds the layout of `locale_id` from what the system reports of
    /// it. The tables of the sixteen modifier combinations are built in
    /// the order of their bits, so the table of no modifiers is there when
    /// the table of Control with Alt is compared against it.
    pub fn prepare_layout(strings: &mut StringInterner, locale_id: u64, source: &LayoutSource) -> (layout:
        Layout)
        requires
            old(strings).wf(),
            source.wf(),
        ensures
            final(strings).wf(),
            extends(final(strings)@, old(strings)@),
            final(strings)@ == strings_after_layout(old(strings)@, *source, locale_id),
            layout.hkl == locale_id,
            layout.wf(final(strings)@),
            layout.model(final(strings)@) == layout_model(*source, locale_id),
    {
        let numlock_off_keys = build_numlock_off(source, locale_id);
        let numlock_on_keys = build_numlock_on(strings, source);
        let mut keys: Vec<KeyTable<KeyCode>> = Vec::new();
        let mut has_alt_graph = false;
        let mut m: u8 = 0;
        while m < 16
            invariant
                source.wf(),
                m <= 16,
                keys.len() == m,
                strings.wf(),
                extends(strings@, old(strings)@),
                strings@ == strings_after_tables(old(strings)@, *source, locale_id, m as int),
                table_valid(numlock_on_keys@, strings@),
                table_text(numlock_on_keys@, strings@) == numlock_on_model(
                    *source,
                    COMBINATIONS as int,
                ),
                forall|j: int| 0 <= j < m ==> table_valid((#[trigger] keys[j])@, strings@),
                forall|j: int|
                    0 <= j < m ==> table_text((#[trigger] keys[j])@, strings@) == table_model(
                        *source,
                        locale_id,
                        j,
                        VKEYS as int,
                    ),
                has_alt_graph == (m > CTRL_ALT && has_alt_graph_model(*source, locale_id)),
            decreases 16 - m,
        {
            let ghost before = strings@;
            let ghost tables = keys@;
            let mods = WindowsModifiers::from_bits(m);
            proof {
                if m == CTRL_ALT {
                    assert(table_valid(tables[0]@, before));
                    assert(table_text(tables[0]@, before) == base_model(*source, locale_id));
                }
            }
            let (table, differs) = if m == CTRL_ALT {
                build_table(strings, source, locale_id, mods, Some(&keys[0]))
            } else {
                build_table(strings, source, locale_id, mods, None)
            };
            proof {
                if m == CTRL_ALT {
                    let base = table_text(tables[0]@, before);
                    assert(base == base_model(*source, locale_id));
                    assert(mods.bits as int == CTRL_ALT as int);
                    if differs {
                        let vk = choose|vk: int|
                            0 <= vk < VKEYS && #[trigger] differs_at(
                                *source,
                                locale_id,
                                mods.bits as int,
                                base,
                                vk,
                            );
                        assert(differs_at(*source, locale_id, CTRL_ALT as int, base, vk));
                    }
                    assert(differs == has_alt_graph_model(*source, locale_id));
                }
                lemma_table_stable(numlock_on_keys@, before, strings@);
                assert forall|j: int| 0 <= j < m implies table_valid((#[trigger] tables[j])@, strings@)
                    && table_text(tables[j]@, strings@) == table_model(
                    *source,
                    locale_id,
                    j,
                    VKEYS as int,
                ) by {
                    lemma_table_stable(tables[j]@, before, strings@);
                }
            }
            if m == CTRL_ALT {
                has_alt_graph = differs;
            }
            keys.push(table);
            m += 1;
        }
        let ghost built = keys@;
        if has_alt_graph {
            relabel_alt_right(&mut keys, Ghost(strings@));
        }
        let layout = Layout {
            hkl: locale_id,
            numlock_on_keys,
            numlock_off_keys,
            keys,
            has_alt_graph,
        };
        proof {
            assert(layout.model(strings@).keys =~= layout_model(*source, locale_id).keys);
        }
        layout
    }

    /// Returns the layout of `locale_id`, the identifier of the layout
    /// that is active. A layout that has been built is returned as it is,
    /// and `source` is not looked at: it may be anything then, an empty
    /// source too. Else the layout is built from `source` and stored.
    pub fn get_current_layout(&mut self, locale_id: u64, source: &LayoutSource) -> (r: (u64, &Layout))
        requires
            old(self).wf(),
            knows(old(self).layouts@, locale_id) || source.wf(),
        ensures
            final(self).wf(),
            r.0 == locale_id,
            r.1.hkl == locale_id,
            knows(final(self).layouts@, locale_id),
            *r.1 == final(self).layouts[place_of(final(self).layouts@, locale_id)],
            final(self).layouts@ == after_lookup(old(self).layouts@, locale_id, *r.1),
            knows(old(self).layouts@, locale_id) ==> final(self).layouts@ == old(self).layouts@
                && final(self).strings@ == old(self).strings@,
            !knows(old(self).layouts@, locale_id) ==> final(self).layouts@ == old(
                self,
            ).layouts@.push(*r.1) && final(self).strings@ == strings_after_layout(
                old(self).strings@,
                *source,
                locale_id,
            ) && r.1.model(final(self).strings@) == layout_model(*source, locale_id),
    {
        match self.find_layout(locale_id) {
            Some(i) => (locale_id, &self.layouts[i]),
            None => {
                let ghost before = self.strings@;
                let layout = Self::prepare_layout(&mut self.strings, locale_id, source);
                proof {
                    assert forall|i: int| 0 <= i < self.layouts.len() implies (
                    #[trigger] self.layouts[i]).wf(self.strings@) by {
                        lemma_layout_stable(self.layouts[i], before, self.strings@);
                    }
                }
                self.layouts.push(layout);
                let i = self.layouts.len() - 1;
                (locale_id, &self.layouts[i])
            },
        }
    }

    /// The modifiers that applications are told, under the active layout
    /// `locale_id` and with the keys as `key_state` says. The layout is
    /// built from `source` if need be, as `get_current_layout` does.
    pub fn get_agnostic_mods(
        &mut self,
        locale_id: u64,
        source: &LayoutSource,
        key_state: &[u8; 256],
    ) -> (mods: ModifiersState)
        requires
            old(self).wf(),
            knows(old(self).layouts@, locale_id) || source.wf(),
        ensures
            final(self).wf(),
            knows(final(self).layouts@, locale_id),
            mods == agnostic_mods(
                final(self).layouts[place_of(final(self).layouts@, locale_id)].has_alt_graph,
                key_state@,
            ),
            knows(old(self).layouts@, locale_id) ==> final(self).layouts@ == old(self).layouts@
                && final(self).strings@ == old(self).strings@,
            !knows(old(self).layouts@, locale_id) ==> mods == agnostic_mods(
                has_alt_graph_model(*source, locale_id),
                key_state@,
            ),
    {
        let (_, layout) = self.get_current_layout(locale_id, source);
        layout.agnostic_mods(key_state)
    }
}

/// A layout keeps its meaning while the interner grows.
pub proof fn lemma_layout_stable(layout: Layout, shorter: Seq<Seq<char>>, longer: Seq<Seq<char>>)
    requires
        layout.wf(shorter),
        extends(longer, shorter),
    ensures
        layout.wf(longer),
        layout.model(longer) == layout.model(shorter),
{
    lemma_table_stable(layout.numlock_on_keys@, shorter, longer);
    lemma_table_stable(layout.numlock_off_keys@, shorter, longer);
    assert forall|m: int| 0 <= m < layout.keys.len() implies table_valid(
        (#[trigger] layout.keys[m])@,
        longer,
    ) && table_text(layout.keys[m]@, longer) == table_text(layout.keys[m]@, shorter) by {
        lemma_table_stable(layout.keys[m]@, shorter, longer);
    }
    assert(layout.model(longer).keys =~= layout.model(shorter).keys);
}

} // verus!

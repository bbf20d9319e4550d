//! A small map from keys to `Key`s, kept as a list of bindings.

use vstd::prelude::*;
use crate::keyboard::{Key, KeyCode};

verus! {

/// A type that can key a `KeyTable`: its values can be told apart at run
/// time exactly as the specifications tell them apart.
pub trait TableKey: Sized + Copy {
    fn same(&self, other: &Self) -> (r: bool)
        ensures
            r == (*self == *other),
    ;
}

impl TableKey for i32 {
    fn same(&self, other: &Self) -> (r: bool) {
        *self == *other
    }
}

impl TableKey for KeyCode {
    fn same(&self, other: &Self) -> (r: bool) {
        *self == *other
    }
}

/// The map that a list of bindings stands for: a later binding of a key
/// replaces an earlier one.
pub open spec fn bindings_map<K>(bindings: Seq<(K, Key)>) -> Map<K, Key>
    decreases bindings.len(),
{
    if bindings.len() == 0 {
        Map::empty()
    } else {
        bindings_map(bindings.drop_last()).insert(bindings.last().0, bindings.last().1)
    }
}

proof fn lemma_bindings_dom_finite<K>(bindings: Seq<(K, Key)>)
    ensures
        bindings_map(bindings).dom().finite(),
    decreases bindings.len(),
{
    if bindings.len() > 0 {
        lemma_bindings_dom_finite(bindings.drop_last());
    }
}

/// A finite map from `K` to `Key`.
pub struct KeyTable<K> {
    bindings: Vec<(K, Key)>,
}

impl<K> View for KeyTable<K> {
    type V = Map<K, Key>;

    closed spec fn view(&self) -> Map<K, Key> {
        bindings_map(self.bindings@)
    }
}

impl<K: TableKey> KeyTable<K> {
    pub fn new() -> (r: KeyTable<K>)
        ensures
            r@ == Map::<K, Key>::empty(),
    {
        KeyTable { bindings: Vec::new() }
    }

    /// Binds `key` to `value`, in place of what it was bound to.
    pub fn insert(&mut self, key: K, value: Key)
        ensures
            final(self)@ == old(self)@.insert(key, value),
    {
        self.bindings.push((key, value));
        assert(self.bindings@.drop_last() =~= old(self).bindings@);
    }

    /// What `key` is bound to.
    pub fn get(&self, key: &K) -> (r: Option<Key>)
        ensures
            r == (if self@.dom().contains(*key) {
                Some(self@[*key])
            } else {
                None::<Key>
            }),
    {
        let mut i: usize = self.bindings.len();
        assert(self.bindings@.take(i as int) =~= self.bindings@);
        while i > 0
            invariant
                i <= self.bindings.len(),
                self@.dom().contains(*key) == bindings_map(
                    self.bindings@.take(i as int),
                ).dom().contains(*key),
                self@.dom().contains(*key) ==> self@[*key] == bindings_map(
                    self.bindings@.take(i as int),
                )[*key],
            decreases i,
        {
            let ghost prefix = self.bindings@.take(i as int);
            assert(prefix.drop_last() =~= self.bindings@.take(i - 1));
            i -= 1;
            if self.bindings[i].0.same(key) {
                return Some(self.bindings[i].1);
            }
        }
        assert(self.bindings@.take(0) =~= Seq::<(K, Key)>::empty());
        None
    }

    pub fn contains_key(&self, key: &K) -> (r: bool)
        ensures
            r == self@.dom().contains(*key),
    {
        self.get(key).is_some()
    }
}

} // verus!

//! Deduplicated storage for the strings that keys print.

use vstd::prelude::*;
use crate::keyboard::{Key, Symbol};

verus! {

/// Holds each distinct string once and hands out handles to them. Strings
/// are only ever added, so a handle stays good for the interner's life.
pub struct StringInterner {
    strings: Vec<String>,
}

impl View for StringInterner {
    type V = Seq<Seq<char>>;

    /// The strings held, in the order in which they came.
    closed spec fn view(&self) -> Seq<Seq<char>> {
        self.strings@.map_values(|s: String| s@)
    }
}

impl StringInterner {
    /// No string is held twice.
    pub open spec fn wf(&self) -> bool {
        self@.no_duplicates()
    }

    pub fn new() -> (r: StringInterner)
        ensures
            r@ == Seq::<Seq<char>>::empty(),
            r.wf(),
    {
        let r = StringInterner { strings: Vec::new() };
        assert(r@ =~= Seq::<Seq<char>>::empty());
        r
    }

    /// The number of distinct strings held.
    pub fn len(&self) -> (n: usize)
        ensures
            n == self@.len(),
    {
        self.strings.len()
    }

    /// The handle of `string`, if it is held.
    pub fn find(&self, string: &String) -> (r: Option<Symbol>)
        ensures
            match r {
                Some(s) => s.index < self@.len() && self@[s.index as int] == string@,
                None => !self@.contains(string@),
            },
    {
        let mut i: usize = 0;
        while i < self.strings.len()
            invariant
                i <= self.strings.len(),
                forall|j: int| 0 <= j < i ==> self@[j] != string@,
            decreases self.strings.len() - i,
        {
            if self.strings[i] == *string {
                return Some(Symbol { index: i });
            }
            i += 1;
        }
        None
    }

    /// The string that a handle stands for.
    pub fn resolve(&self, symbol: Symbol) -> (r: &String)
        requires
            symbol.index < self@.len(),
        ensures
            r@ == self@[symbol.index as int],
    {
        &self.strings[symbol.index]
    }

    /// The string that a handle stands for, or `None` for a handle that
    /// this interner never handed out.
    pub fn get(&self, symbol: Symbol) -> (r: Option<&String>)
        ensures
            match r {
                Some(s) => symbol.index < self@.len() && s@ == self@[symbol.index as int],
                None => symbol.index >= self@.len(),
            },
    {
        if symbol.index < self.strings.len() {
            Some(&self.strings[symbol.index])
        } else {
            None
        }
    }
}

/// What interning leaves in the store: `strings` itself where it holds
/// `text`, else `strings` with `text` appended.
pub open spec fn interned(strings: Seq<Seq<char>>, text: Seq<char>) -> Seq<Seq<char>> {
    if strings.contains(text) {
        strings
    } else {
        strings.push(text)
    }
}

/// Returns the handle of the held string equal to `string`, storing
/// `string` first where none is held yet. Nothing is ever removed.
pub fn get_or_insert_str(strings: &mut StringInterner, string: String) -> (r: Symbol)
    requires
        old(strings).wf(),
    ensures
        final(strings).wf(),
        r.index < final(strings)@.len(),
        final(strings)@[r.index as int] == string@,
        final(strings)@ == interned(old(strings)@, string@),
        old(strings)@.contains(string@) ==> final(strings)@ == old(strings)@,
        !old(strings)@.contains(string@) ==> final(strings)@ == old(strings)@.push(string@)
            && r.index == old(strings)@.len(),
{
    match strings.find(&string) {
        Some(existing) => existing,
        None => {
            let index = strings.strings.len();
            strings.strings.push(string);
            assert(strings@ =~= old(strings)@.push(string@));
            Symbol { index }
        },
    }
}

/// Handles of one interner are equal exactly when their strings are: keys
/// that print the same text are the same key.
pub proof fn lemma_equal_text_equal_handle(strings: Seq<Seq<char>>, a: Symbol, b: Symbol)
    requires
        strings.no_duplicates(),
        a.index < strings.len(),
        b.index < strings.len(),
    ensures
        (strings[a.index as int] == strings[b.index as int]) <==> a == b,
{
}

/// Two character keys of one interner with the same text are the same key.
pub proof fn lemma_character_keys_identical(strings: Seq<Seq<char>>, a: Key, b: Key)
    requires
        strings.no_duplicates(),
        a is Character,
        b is Character,
        a.valid_in(strings),
        b.valid_in(strings),
    ensures
        (a.text(strings) == b.text(strings)) <==> a == b,
{
}

/// Interning the same text twice gives the same handle, and the second
/// time stores nothing.
pub proof fn lemma_interned_twice(strings: Seq<Seq<char>>, text: Seq<char>)
    requires
        strings.no_duplicates(),
    ensures
        interned(strings, text).no_duplicates(),
        interned(strings, text).contains(text),
        interned(interned(strings, text), text) == interned(strings, text),
        strings.is_prefix_of(interned(strings, text)),
{
    let after = interned(strings, text);
    if !strings.contains(text) {
        assert(after[strings.len() as int] == text);
        assert forall|i: int, j: int| 0 <= i < after.len() && 0 <= j < after.len() && i != j implies after[i] != after[j] by {
            if i < strings.len() {
                assert(strings.contains(after[i]));
            }
            if j < strings.len() {
                assert(strings.contains(after[j]));
            }
        }
    }
}

} // verus!

//! Reading what the system's key-to-text conversion answers.
//!
//! The conversion is asked with a virtual key, a scan code and a key-state
//! array, and writes UTF-16 units into a buffer. It answers with a count:
//! positive for that many units of settled text, zero for no text, negative
//! for a dead key. A dead-key answer leaves the system latched: the very next
//! conversion composes with the dead key. So the protocol has two phases.
//! `peek` reads the first answer. Where it reports `Latched`, the same query
//! must be made once more before any other, and `consume` reads its answer.
//! `Latched` carries a `DeadKeyLatch`, which only `peek` hands out and only
//! `consume` takes: no second phase without a first, and a latch that is
//! dropped unused is a dead key left in the system.

use vstd::prelude::*;
use vstd::slice::slice_subrange;
use vstd::string::StrSliceExecFns;

verus! {

/// What a key turned out to print.
#[derive(Clone, Debug, PartialEq, Eq)]
pub enum ToUnicodeResult {
    /// Settled text.
    Str(String),
    /// A dead key, with the character that shows it where there is one.
    Dead(Option<char>),
    /// No text.
    Nothing,
}

/// A `ToUnicodeResult` with its text as a sequence of characters.
pub ghost enum ProbeText {
    Str(Seq<char>),
    Dead(Option<char>),
    Nothing,
}

impl View for ToUnicodeResult {
    type V = ProbeText;

    open spec fn view(&self) -> ProbeText {
        match self {
            ToUnicodeResult::Str(s) => ProbeText::Str(s@),
            ToUnicodeResult::Dead(c) => ProbeText::Dead(*c),
            ToUnicodeResult::Nothing => ProbeText::Nothing,
        }
    }
}

/// Stands for a dead key that the system holds latched. It is made by
/// `peek` alone and used up by `consume`.
#[derive(Debug, PartialEq, Eq)]
#[must_use]
pub struct DeadKeyLatch {
    sealed: (),
}

/// Where the protocol stands after the first answer.
#[derive(Debug, PartialEq, Eq)]
pub enum Peek {
    /// The answer is final; the system holds no dead key.
    Settled(ToUnicodeResult),
    /// A dead key is latched: repeat the query and hand its answer to
    /// `consume` before asking anything else.
    Latched(DeadKeyLatch),
}

/// The text that a sequence of UTF-16 units encodes, or `None` where the
/// units are no valid UTF-16.
pub uninterp spec fn utf16_decoded(units: Seq<u16>) -> Option<Seq<char>>;

/// Calls `String::from_utf16`, which decodes a slice of UTF-16 units and
/// fails on invalid data. The contract gives the decoded text the name
/// `utf16_decoded` and claims nothing else of it.
#[verifier::external_body]
fn decode_utf16(units: &[u16]) -> (r: Option<String>)
    ensures
        match r {
            Some(s) => utf16_decoded(units@) == Some(s@),
            None => utf16_decoded(units@) is None,
        },
{
    String::from_utf16(units).ok()
}

/// The units that an answer of `len` delivers in `buffer`: the first `len`,
/// where `len` is positive and the buffer holds that many.
pub open spec fn delivered(len: i32, buffer: Seq<u16>) -> Option<Seq<u16>> {
    if 0 < len <= buffer.len() {
        Some(buffer.take(len as int))
    } else {
        None
    }
}

/// The text of an answer: the delivered units decoded. `None` where nothing
/// was delivered or the units do not decode.
pub open spec fn answer_text(len: i32, buffer: Seq<u16>) -> Option<Seq<char>> {
    match delivered(len, buffer) {
        Some(units) => utf16_decoded(units),
        None => None,
    }
}

pub open spec fn settled_text(text: Option<Seq<char>>) -> ProbeText {
    match text {
        Some(t) => ProbeText::Str(t),
        None => ProbeText::Nothing,
    }
}

pub open spec fn dead_text(text: Option<Seq<char>>) -> ProbeText {
    match text {
        Some(t) => if t.len() > 0 {
            ProbeText::Dead(Some(t[0]))
        } else {
            ProbeText::Dead(None)
        },
        None => ProbeText::Dead(None),
    }
}

/// Decodes what an answer delivered.
pub fn decode_answer(len: i32, buffer: &[u16]) -> (r: Option<String>)
    ensures
        match r {
            Some(s) => answer_text(len, buffer@) == Some(s@),
            None => answer_text(len, buffer@) is None,
        },
{
    if len > 0 && len as usize <= buffer.len() {
        let units = slice_subrange(buffer, 0, len as usize);
        assert(units@ =~= buffer@.take(len as int));
        decode_utf16(units)
    } else {
        None
    }
}

/// The first phase, on an answer whose text is already decoded: a negative
/// count latches; else the text, if any, is the result.
pub fn peek_decoded(len: i32, text: Option<String>) -> (r: Peek)
    ensures
        len < 0 ==> r is Latched,
        len >= 0 ==> (r matches Peek::Settled(res) && res@ == settled_text(
            match text {
                Some(s) => Some(s@),
                None => None,
            },
        )),
{
    if len < 0 {
        Peek::Latched(DeadKeyLatch { sealed: () })
    } else {
        match text {
            Some(s) => Peek::Settled(ToUnicodeResult::Str(s)),
            None => Peek::Settled(ToUnicodeResult::Nothing),
        }
    }
}

/// The second phase, on an answer whose text is already decoded: the key is
/// dead, and the first character of the text, if any, shows it.
pub fn consume_decoded(text: Option<String>) -> (r: ToUnicodeResult)
    ensures
        r@ == dead_text(
            match text {
                Some(s) => Some(s@),
                None => None,
            },
        ),
{
    match text {
        Some(s) => {
            if s.as_str().unicode_len() > 0 {
                ToUnicodeResult::Dead(Some(s.as_str().get_char(0)))
            } else {
                ToUnicodeResult::Dead(None)
            }
        },
        None => ToUnicodeResult::Dead(None),
    }
}

/// Reads the answer to the first query of a key.
pub fn peek(len: i32, buffer: &[u16]) -> (r: Peek)
    ensures
        len < 0 ==> r is Latched,
        len >= 0 ==> (r matches Peek::Settled(res) && res@ == settled_text(
            answer_text(len, buffer@),
        )),
{
    if len < 0 {
        Peek::Latched(DeadKeyLatch { sealed: () })
    } else {
        peek_decoded(len, decode_answer(len, buffer))
    }
}

/// Reads the answer to the repeated query that clears a latched dead key,
/// and uses the latch up. The result is a dead key whatever the answer
/// holds.
pub fn consume(latch: DeadKeyLatch, len: i32, buffer: &[u16]) -> (r: ToUnicodeResult)
    ensures
        r@ == dead_text(answer_text(len, buffer@)),
        r is Dead,
{
    let DeadKeyLatch { sealed: _ } = latch;
    consume_decoded(decode_answer(len, buffer))
}

/// Reads a whole exchange: the first answer and the answer to the repeated
/// query. The second answer counts only where the first one latched; a
/// caller whose first answer settled has no second query to make and may
/// hand in anything.
pub fn to_unicode_string(first_len: i32, first: &[u16], second_len: i32, second: &[u16]) -> (r:
    ToUnicodeResult)
    ensures
        first_len >= 0 ==> r@ == settled_text(answer_text(first_len, first@)),
        first_len < 0 ==> r@ == dead_text(answer_text(second_len, second@)),
{
    match peek(first_len, first) {
        Peek::Settled(res) => res,
        Peek::Latched(latch) => consume(latch, second_len, second),
    }
}

} // verus!

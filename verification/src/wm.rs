//! What is remembered of the window manager of each screen: the hints it
//! supports and its name.

use vstd::prelude::*;
use crate::geometry::{Screen, XConnection};

verus! {

/// The predefined atom of the type of Latin-1 strings.
pub const XCB_ATOM_STRING: u32 = 31;

/// Why a property could not be read.
#[derive(Debug, Clone, Copy, PartialEq, Eq)]
pub enum PropertyError {
    InvalidPropertyType { expected: u32, actual: u32 },
    InvalidPropertyFormat { expected_format: u8, actual_format: u8 },
    Unset,
    /// The server answered with an error.
    Xcb,
}

/// What the server answers about the window manager of one screen.
#[derive(Debug)]
pub struct WmReplies {
    /// The list of supported hints, a property of the root window.
    pub supported: Result<Vec<u32>, PropertyError>,
    /// The answers that lead to the window manager's name.
    pub name: NameReplies,
}

/// What the server answers on the way to the window manager's name.
#[derive(Debug)]
pub struct NameReplies {
    /// The supporting-window property of the root window.
    pub root_check: Result<Vec<u32>, PropertyError>,
    /// The supporting-window property of the window that `root_check`
    /// names.
    pub child_check: Result<Vec<u32>, PropertyError>,
    /// The name property of that window, asked for as UTF-8.
    pub name: Result<Vec<u8>, PropertyError>,
    /// The same property asked for as a Latin-1 string. It counts only
    /// where `needs_latin_name` holds of `name`.
    pub latin_name: Result<Vec<u8>, PropertyError>,
}

/// The text that a sequence of bytes encodes in UTF-8, or `None` where the
/// bytes are no valid UTF-8.
pub uninterp spec fn utf8_decoded(bytes: Seq<u8>) -> Option<Seq<char>>;

/// Calls `String::from_utf8`, which turns a vector of bytes into a string
/// and fails where the bytes are no valid UTF-8. The contract gives the
/// decoded text the name `utf8_decoded` and claims nothing else of it.
#[verifier::external_body]
fn decode_utf8(bytes: Vec<u8>) -> (r: Option<String>)
    ensures
        match r {
            Some(s) => utf8_decoded(bytes@) == Some(s@),
            None => utf8_decoded(bytes@) is None,
        },
{
    String::from_utf8(bytes).ok()
}

pub open spec fn text_of(s: Option<String>) -> Option<Seq<char>> {
    match s {
        Some(s) => Some(s@),
        None => None,
    }
}

pub open spec fn first_id(reply: Result<Vec<u32>, PropertyError>) -> Option<u32> {
    match reply {
        Ok(ids) => if ids@.len() > 0 {
            Some(ids@[0])
        } else {
            None
        },
        Err(_) => None,
    }
}

/// The name arrived as a Latin-1 string where UTF-8 was asked for, so it
/// has to be asked for again as what it is.
pub open spec fn needs_latin_name_spec(name: Result<Vec<u8>, PropertyError>) -> bool {
    name matches Err(PropertyError::InvalidPropertyType { expected, actual }) && actual
        == XCB_ATOM_STRING
}

/// The bytes of the window manager's name. There are none unless the root
/// window names a supporting window and that window names itself.
pub open spec fn wm_name_bytes(replies: NameReplies) -> Option<Seq<u8>> {
    let root = first_id(replies.root_check);
    let child = first_id(replies.child_check);
    if root is None || child is None || root != child {
        None
    } else {
        let reply = if needs_latin_name_spec(replies.name) {
            replies.latin_name
        } else {
            replies.name
        };
        match reply {
            Ok(bytes) => Some(bytes@),
            Err(_) => None,
        }
    }
}

/// The window manager's name: its bytes decoded, where there are any and
/// they decode.
pub open spec fn wm_name_spec(replies: NameReplies) -> Option<Seq<char>> {
    match wm_name_bytes(replies) {
        Some(bytes) => utf8_decoded(bytes),
        None => None,
    }
}

pub open spec fn supported_hints_spec(reply: Result<Vec<u32>, PropertyError>) -> Seq<u32> {
    match reply {
        Ok(hints) => hints@,
        Err(_) => Seq::empty(),
    }
}

fn first_of(reply: &Result<Vec<u32>, PropertyError>) -> (r: Option<u32>)
    ensures
        r == first_id(*reply),
{
    match reply {
        Ok(ids) => if ids.len() > 0 {
            Some(ids[0])
        } else {
            None
        },
        Err(_) => None,
    }
}

/// Whether the name has to be asked for again as a Latin-1 string.
pub fn needs_latin_name(name: &Result<Vec<u8>, PropertyError>) -> (r: bool)
    ensures
        r == needs_latin_name_spec(*name),
{
    match name {
        Err(PropertyError::InvalidPropertyType { expected: _, actual }) => *actual
            == XCB_ATOM_STRING,
        _ => false,
    }
}

/// Picks the bytes of the window manager's name out of the answers.
pub fn select_wm_name(replies: NameReplies) -> (r: Option<Vec<u8>>)
    ensures
        match r {
            Some(bytes) => wm_name_bytes(replies) == Some(bytes@),
            None => wm_name_bytes(replies) is None,
        },
{
    let root = first_of(&replies.root_check);
    let child = first_of(&replies.child_check);
    match (root, child) {
        (Some(root_window), Some(child_window)) => {
            if root_window != child_window {
                return None;
            }
            let latin = needs_latin_name(&replies.name);
            let reply = if latin {
                replies.latin_name
            } else {
                replies.name
            };
            match reply {
                Ok(bytes) => Some(bytes),
                Err(_) => None,
            }
        },
        _ => None,
    }
}

/// The text of the bytes of a name.
pub fn decode_wm_name(bytes: Option<Vec<u8>>) -> (r: Option<String>)
    ensures
        text_of(r) == (match bytes {
            Some(b) => utf8_decoded(b@),
            None => None,
        }),
{
    match bytes {
        Some(b) => decode_utf8(b),
        None => None,
    }
}

impl XConnection {
    /// The hints that the window manager supports: the list it gave, or
    /// none where the list could not be read.
    pub fn get_supported_hints(reply: Result<Vec<u32>, PropertyError>) -> (r: Vec<u32>)
        ensures
            r@ == supported_hints_spec(reply),
    {
        match reply {
            Ok(hints) => hints,
            Err(_) => Vec::new(),
        }
    }

    /// The name of the window manager, from the answers about one screen.
    pub fn get_wm_name(replies: NameReplies) -> (r: Option<String>)
        ensures
            text_of(r) == wm_name_spec(replies),
    {
        decode_wm_name(select_wm_name(replies))
    }

    /// Replaces what is remembered of every screen's window manager by
    /// what `replies` tells, one entry for each screen in order.
    pub fn update_cached_wm_info(&mut self, replies: Vec<WmReplies>)
        requires
            replies.len() == old(self).screens.len(),
        ensures
            final(self).screens.len() == old(self).screens.len(),
            forall|i: int|
                0 <= i < old(self).screens.len() ==> {
                    &&& (#[trigger] final(self).screens[i]).root == old(self).screens[i].root
                    &&& final(self).screens[i].supported_hints@ == supported_hints_spec(
                        replies[i].supported,
                    )
                    &&& text_of(final(self).screens[i].wm_name) == wm_name_spec(replies[i].name)
                },
    {
        let mut replies = replies;
        let ghost all = replies@;
        let mut n: usize = replies.len();
        while n > 0
            invariant
                n == replies.len(),
                n <= self.screens.len(),
                self.screens.len() == old(self).screens.len(),
                all.len() == self.screens.len(),
                replies@ == all.take(n as int),
                forall|i: int| 0 <= i < n ==> (#[trigger] self.screens[i]) == old(self).screens[i],
                forall|i: int|
                    n <= i < self.screens.len() ==> {
                        &&& (#[trigger] self.screens[i]).root == old(self).screens[i].root
                        &&& self.screens[i].supported_hints@ == supported_hints_spec(
                            all[i].supported,
                        )
                        &&& text_of(self.screens[i].wm_name) == wm_name_spec(all[i].name)
                    },
            decreases n,
        {
            let ghost before = self.screens@;
            let reply = replies.pop().unwrap();
            n -= 1;
            assert(reply == all[n as int]);
            assert(replies@ =~= all.take(n as int));
            let root = self.screens[n].root;
            let wm_name = Self::get_wm_name(reply.name);
            let supported_hints = Self::get_supported_hints(reply.supported);
            self.screens[n] = Screen { root, supported_hints, wm_name };
            assert(forall|i: int| 0 <= i < self.screens.len() && i != n ==> self.screens[i] == before[i]);
        }
    }
}

} // verus!

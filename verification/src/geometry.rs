//! Rectangles, window frames and the heuristic that sizes a frame from
//! what an X server reports.

use vstd::prelude::*;

verus! {

/// An axis-aligned rectangle.
#[derive(Debug, Clone, Copy, PartialEq, Eq)]
pub struct AaRect {
    x: i64,
    y: i64,
    width: i64,
    height: i64,
}

pub open spec fn spec_min(a: int, b: int) -> int {
    if a <= b {
        a
    } else {
        b
    }
}

pub open spec fn spec_max(a: int, b: int) -> int {
    if a >= b {
        a
    } else {
        b
    }
}

/// The length that two intervals share: `[a, a + la]` and `[b, b + lb]`.
pub open spec fn shared_length(a: int, la: int, b: int, lb: int) -> int {
    spec_max(0, spec_min(a + la, b + lb) - spec_max(a, b))
}

fn shared(a: i64, la: i64, b: i64, lb: i64) -> (r: i64)
    requires
        i32::MIN <= a <= i32::MAX,
        i32::MIN <= b <= i32::MAX,
        0 <= la <= u32::MAX,
        0 <= lb <= u32::MAX,
    ensures
        r == shared_length(a as int, la as int, b as int, lb as int),
        0 <= r <= u32::MAX,
{
    let end = if a + la <= b + lb {
        a + la
    } else {
        b + lb
    };
    let start = if a >= b {
        a
    } else {
        b
    };
    if end - start > 0 {
        end - start
    } else {
        0
    }
}

impl AaRect {
    #[verifier::type_invariant]
    spec fn in_range(&self) -> bool {
        &&& i32::MIN <= self.x <= i32::MAX
        &&& i32::MIN <= self.y <= i32::MAX
        &&& 0 <= self.width <= u32::MAX
        &&& 0 <= self.height <= u32::MAX
    }

    /// The corner with the smallest coordinates.
    pub closed spec fn origin(&self) -> (int, int) {
        (self.x as int, self.y as int)
    }

    /// The width and the height.
    pub closed spec fn extent(&self) -> (int, int) {
        (self.width as int, self.height as int)
    }

    /// The area that this rectangle shares with `other`.
    pub open spec fn overlap(&self, other: &AaRect) -> int {
        shared_length(self.origin().0, self.extent().0, other.origin().0, other.extent().0)
            * shared_length(self.origin().1, self.extent().1, other.origin().1, other.extent().1)
    }

    pub fn new(position: (i32, i32), size: (u32, u32)) -> (r: AaRect)
        ensures
            r.origin() == (position.0 as int, position.1 as int),
            r.extent() == (size.0 as int, size.1 as int),
    {
        AaRect {
            x: position.0 as i64,
            y: position.1 as i64,
            width: size.0 as i64,
            height: size.1 as i64,
        }
    }

    /// Whether the point lies in the rectangle, its border included.
    pub fn contains_point(&self, x: i64, y: i64) -> (r: bool)
        ensures
            r == (self.origin().0 <= x <= self.origin().0 + self.extent().0 && self.origin().1 <= y
                <= self.origin().1 + self.extent().1),
    {
        proof {
            use_type_invariant(self);
        }
        x >= self.x && x <= self.x + self.width && y >= self.y && y <= self.y + self.height
    }

    /// The area that this rectangle shares with `other`. The area has to
    /// fit the result: two rectangles that share more than `i64::MAX`
    /// are left out.
    pub fn get_overlapping_area(&self, other: &AaRect) -> (area: i64)
        requires
            self.overlap(other) <= i64::MAX,
        ensures
            area == self.overlap(other),
            area >= 0,
    {
        proof {
            use_type_invariant(self);
            use_type_invariant(other);
        }
        let x_overlap = shared(self.x, self.width, other.x, other.width);
        let y_overlap = shared(self.y, self.height, other.y, other.height);
        assert(x_overlap * y_overlap >= 0) by (nonlinear_arith)
            requires
                x_overlap >= 0,
                y_overlap >= 0,
        ;
        x_overlap * y_overlap
    }

    /// The area that this rectangle shares with `other`, or `None` where
    /// it does not fit the result.
    pub fn checked_overlapping_area(&self, other: &AaRect) -> (area: Option<i64>)
        ensures
            area == (if self.overlap(other) <= i64::MAX {
                Some(self.overlap(other) as i64)
            } else {
                None
            }),
    {
        proof {
            use_type_invariant(self);
            use_type_invariant(other);
        }
        let x_overlap = shared(self.x, self.width, other.x, other.width);
        let y_overlap = shared(self.y, self.height, other.y, other.height);
        assert(0 <= x_overlap * y_overlap <= 0xffff_ffff * 0xffff_ffff) by (nonlinear_arith)
            requires
                0 <= x_overlap <= 0xffff_ffff,
                0 <= y_overlap <= 0xffff_ffff,
        ;
        let product: u64 = (x_overlap as u64) * (y_overlap as u64);
        if product <= 0x7fff_ffff_ffff_ffff {
            Some(product as i64)
        } else {
            None
        }
    }

    /// Two rectangles whose sides all fit sixteen bits, as those of
    /// screens do, share an area that fits the result.
    pub proof fn lemma_small_overlap_fits(&self, other: &AaRect)
        requires
            self.extent().0 <= u16::MAX,
            self.extent().1 <= u16::MAX,
            self.extent().0 >= 0,
            self.extent().1 >= 0,
            other.extent().0 >= 0,
            other.extent().1 >= 0,
        ensures
            0 <= self.overlap(other) <= i64::MAX,
    {
        let w = shared_length(self.origin().0, self.extent().0, other.origin().0, other.extent().0);
        let h = shared_length(self.origin().1, self.extent().1, other.origin().1, other.extent().1);
        assert(0 <= w <= u16::MAX);
        assert(0 <= h <= u16::MAX);
        assert(0 <= w * h <= 0xffff * 0xffff) by (nonlinear_arith)
            requires
                0 <= w <= 0xffff,
                0 <= h <= 0xffff,
        ;
    }
}

/// Where a window sits under the root window.
#[derive(Debug, Default, Clone, Copy, PartialEq, Eq)]
pub struct TranslatedCoords {
    pub x_rel_root: i16,
    pub y_rel_root: i16,
    pub child: u32,
}

/// The geometry of a window, relative to its parent.
#[derive(Debug, Default, Clone, Copy, PartialEq, Eq)]
pub struct Geometry {
    pub root: u32,
    pub x_rel_parent: i16,
    pub y_rel_parent: i16,
    pub width: u16,
    pub height: u16,
    pub border: u16,
    pub depth: u8,
}

/// The widths of the four sides of a window's frame.
#[derive(Debug, Clone, Copy, PartialEq, Eq)]
pub struct FrameExtents {
    pub left: u32,
    pub right: u32,
    pub top: u32,
    pub bottom: u32,
}

impl FrameExtents {
    pub fn new(left: u32, right: u32, top: u32, bottom: u32) -> (r: FrameExtents)
        ensures
            r == (FrameExtents { left, right, top, bottom }),
    {
        FrameExtents { left, right, top, bottom }
    }

    /// A frame of the same width on every side.
    pub fn from_border(border: u32) -> (r: FrameExtents)
        ensures
            r == (FrameExtents { left: border, right: border, top: border, bottom: border }),
    {
        Self::new(border, border, border, border)
    }

    /// Reads the frame off the value of the frame-extents property: its
    /// first four items are left, right, top and bottom.
    pub fn from_property(extents: &Vec<u32>) -> (r: Option<FrameExtents>)
        ensures
            r == frame_of_property(extents@),
    {
        if extents.len() >= 4 {
            Some(FrameExtents::new(extents[0], extents[1], extents[2], extents[3]))
        } else {
            None
        }
    }
}

pub open spec fn frame_of_property(extents: Seq<u32>) -> Option<FrameExtents> {
    if extents.len() >= 4 {
        Some(
            FrameExtents {
                left: extents[0],
                right: extents[1],
                top: extents[2],
                bottom: extents[3],
            },
        )
    } else {
        None
    }
}

/// How the frame of a window was found.
#[derive(Debug, Clone, Copy, PartialEq, Eq, Structural)]
pub enum FrameExtentsHeuristicPath {
    /// The window manager told.
    Supported,
    /// Measured between the window and its outermost ancestor.
    UnsupportedNested,
    /// Taken from the window's border.
    UnsupportedBordered,
}

#[derive(Debug, Clone, Copy, PartialEq, Eq)]
pub struct FrameExtentsHeuristic {
    pub frame_extents: FrameExtents,
    pub heuristic_path: FrameExtentsHeuristicPath,
}

pub open spec fn saturating_sum(a: u32, b: u32) -> u32 {
    if a + b > u32::MAX {
        u32::MAX
    } else {
        (a + b) as u32
    }
}

impl FrameExtentsHeuristic {
    /// The position of the frame's corner, from that of the window's
    /// client area. A frame taken from the border moves nothing. The
    /// result has to fit: the frame's left and top fit `i32`, and so do
    /// the differences.
    pub fn inner_pos_to_outer(&self, x: i32, y: i32) -> (r: (i32, i32))
        requires
            self.heuristic_path != FrameExtentsHeuristicPath::UnsupportedBordered ==> x
                - self.frame_extents.left >= i32::MIN && y - self.frame_extents.top >= i32::MIN,
        ensures
            self.heuristic_path == FrameExtentsHeuristicPath::UnsupportedBordered ==> r == (x, y),
            self.heuristic_path != FrameExtentsHeuristicPath::UnsupportedBordered ==> r.0 == x
                - self.frame_extents.left && r.1 == y - self.frame_extents.top,
    {
        if self.heuristic_path != FrameExtentsHeuristicPath::UnsupportedBordered {
            ((x as i64 - self.frame_extents.left as i64) as i32, (y as i64
                - self.frame_extents.top as i64) as i32)
        } else {
            (x, y)
        }
    }

    /// The size of the frame, from that of the window's client area: the
    /// sides are added on, and a sum that does not fit stops at the
    /// largest value.
    pub fn inner_size_to_outer(&self, width: u32, height: u32) -> (r: (u32, u32))
        ensures
            r.0 == saturating_sum(
                width,
                saturating_sum(self.frame_extents.left, self.frame_extents.right),
            ),
            r.1 == saturating_sum(
                height,
                saturating_sum(self.frame_extents.top, self.frame_extents.bottom),
            ),
    {
        (
            width.saturating_add(self.frame_extents.left.saturating_add(self.frame_extents.right)),
            height.saturating_add(self.frame_extents.top.saturating_add(self.frame_extents.bottom)),
        )
    }
}

/// One screen of an X server, with what its window manager was last
/// found to support.
#[derive(Debug, Clone)]
pub struct Screen {
    pub root: u32,
    pub supported_hints: Vec<u32>,
    pub wm_name: Option<String>,
}

impl Screen {
    pub fn hint_is_supported(&self, hint: u32) -> (r: bool)
        ensures
            r == self.supported_hints@.contains(hint),
    {
        contains_id(&self.supported_hints, hint)
    }
}

/// Whether a list of identifiers holds `id`.
pub fn contains_id(ids: &Vec<u32>, id: u32) -> (r: bool)
    ensures
        r == ids@.contains(id),
{
    let mut i: usize = 0;
    while i < ids.len()
        invariant
            i <= ids.len(),
            forall|j: int| 0 <= j < i ==> ids@[j] != id,
        decreases ids.len() - i,
    {
        if ids[i] == id {
            return true;
        }
        i += 1;
    }
    false
}

/// A window that somebody else owns, and the screen it is on.
#[derive(Debug, Clone)]
pub struct UnownedWindow {
    pub xwindow: u32,
    pub screen: Screen,
}

/// What is known of the screens of an X server.
#[derive(Debug, Clone)]
pub struct XConnection {
    pub screens: Vec<Screen>,
}

/// What the server answers about a window and its surroundings.
#[derive(Debug, Clone)]
pub struct WindowReplies {
    /// Where the window sits under the root window, and the child of the
    /// root that holds it.
    pub coords: TranslatedCoords,
    /// The geometry of the window itself.
    pub inner: Geometry,
    /// The value of the client-list property of the root window, where it
    /// could be read.
    pub client_list: Option<Vec<u32>>,
    /// The value of the frame-extents property of the window, where it
    /// could be read.
    pub frame_extents: Option<Vec<u32>>,
    /// The geometry of the outermost ancestor of the window below the
    /// root, where it was asked for.
    pub outer: Option<Geometry>,
}

/// The outermost window of a chain of parents: the last one before `root`.
/// `parents[0]` is the parent of `window`, `parents[1]` the parent of that,
/// and so on. `None` where the chain ends before it comes to `root`.
pub open spec fn outermost(window: u32, root: u32, parents: Seq<u32>) -> Option<u32>
    decreases parents.len(),
{
    if parents.len() == 0 {
        None
    } else if parents[0] == root {
        Some(window)
    } else {
        outermost(parents[0], root, parents.drop_first())
    }
}

pub open spec fn top_level(supported: bool, client_list: Option<Seq<u32>>, window: u32) -> Option<
    bool,
> {
    if !supported {
        None
    } else {
        match client_list {
            Some(list) => Some(list.contains(window)),
            None => None,
        }
    }
}

/// A window is nested unless the root's child that holds it is the window
/// itself or is known to be a top-level window.
pub open spec fn nested(xwindow: u32, child: u32, child_top_level: Option<bool>) -> bool {
    !(xwindow == child || child_top_level == Some(true))
}

/// The difference of two sixteen-bit coordinates, kept within sixteen bits
/// and then read as unsigned.
pub open spec fn offset_between(inner: i16, outer: i16) -> u16 {
    let d = inner - outer;
    let s = if d > i16::MAX {
        i16::MAX as int
    } else if d < i16::MIN {
        i16::MIN as int
    } else {
        d
    };
    if s >= 0 {
        s as u16
    } else {
        (s + 0x10000) as u16
    }
}

pub open spec fn saturating_diff(a: u16, b: u16) -> u16 {
    if a >= b {
        (a - b) as u16
    } else {
        0
    }
}

/// The frame between a window and its outermost ancestor: half the extra
/// width on each side, the vertical offset on top, the rest of the extra
/// height below.
pub open spec fn nested_frame(inner: Geometry, inner_y_rel_root: i16, outer: Geometry) -> FrameExtents {
    let diff_x = saturating_diff(outer.width, inner.width);
    let diff_y = saturating_diff(outer.height, inner.height);
    let offset_y = offset_between(inner_y_rel_root, outer.y_rel_parent);
    FrameExtents {
        left: (diff_x / 2) as u32,
        right: (diff_x / 2) as u32,
        top: offset_y as u32,
        bottom: saturating_diff(diff_y, offset_y) as u32,
    }
}

/// The frame of a window and how it was found. Where the window manager
/// tells the frame, that is it, but for a window that is not nested,
/// whose frame is empty. Else a nested window is measured against its
/// outermost ancestor, and any other window has its border as frame.
pub open spec fn frame_heuristic(
    is_nested: bool,
    told: Option<FrameExtents>,
    inner: Geometry,
    inner_y_rel_root: i16,
    outer: Option<Geometry>,
) -> FrameExtentsHeuristic {
    match told {
        Some(frame) => FrameExtentsHeuristic {
            frame_extents: if is_nested {
                frame
            } else {
                FrameExtents { left: 0, right: 0, top: 0, bottom: 0 }
            },
            heuristic_path: FrameExtentsHeuristicPath::Supported,
        },
        None => if is_nested {
            FrameExtentsHeuristic {
                frame_extents: nested_frame(inner, inner_y_rel_root, outer->Some_0),
                heuristic_path: FrameExtentsHeuristicPath::UnsupportedNested,
            }
        } else {
            FrameExtentsHeuristic {
                frame_extents: FrameExtents {
                    left: inner.border as u32,
                    right: inner.border as u32,
                    top: inner.border as u32,
                    bottom: inner.border as u32,
                },
                heuristic_path: FrameExtentsHeuristicPath::UnsupportedBordered,
            }
        },
    }
}

impl XConnection {
    /// The frame that the window manager tells for a window: none where
    /// it does not support the hint `extents_atom` or where the property's
    /// value, `property`, could not be read or is too short.
    pub fn get_frame_extents(
        &self,
        window: &UnownedWindow,
        extents_atom: u32,
        property: &Option<Vec<u32>>,
    ) -> (r: Option<FrameExtents>)
        ensures
            r == (if !window.screen.supported_hints@.contains(extents_atom) {
                None
            } else {
                match property {
                    Some(extents) => frame_of_property(extents@),
                    None => None,
                }
            }),
            !window.screen.supported_hints@.contains(extents_atom) ==> r is None,
    {
        if !window.screen.hint_is_supported(extents_atom) {
            return None;
        }
        match property {
            Some(extents) => FrameExtents::from_property(extents),
            None => None,
        }
    }

    /// Whether `window` is a top-level window of the screen: unknown where
    /// the window manager does not support the hint `client_list_atom` or
    /// the list could not be read.
    pub fn is_top_level(
        &self,
        screen: &Screen,
        client_list_atom: u32,
        client_list: &Option<Vec<u32>>,
        window: u32,
    ) -> (r: Option<bool>)
        ensures
            r == top_level(
                screen.supported_hints@.contains(client_list_atom),
                match client_list {
                    Some(list) => Some(list@),
                    None => None,
                },
                window,
            ),
    {
        if !screen.hint_is_supported(client_list_atom) {
            return None;
        }
        match client_list {
            Some(list) => Some(contains_id(list, window)),
            None => None,
        }
    }

    /// Walks up a chain of parents to the outermost window below `root`.
    pub fn climb_hierarchy(&self, window: u32, root: u32, parents: &Vec<u32>) -> (r: Option<u32>)
        ensures
            r == outermost(window, root, parents@),
    {
        let mut outer_window = window;
        let mut i: usize = 0;
        assert(parents@.skip(0) =~= parents@);
        while i < parents.len()
            invariant
                i <= parents.len(),
                outermost(window, root, parents@) == outermost(
                    outer_window,
                    root,
                    parents@.skip(i as int),
                ),
            decreases parents.len() - i,
        {
            let candidate = parents[i];
            proof {
                let rest = parents@.skip(i as int);
                assert(rest[0] == candidate);
                assert(rest.drop_first() =~= parents@.skip(i + 1));
            }
            if candidate == root {
                return Some(outer_window);
            }
            outer_window = candidate;
            i += 1;
        }
        None
    }

    /// Whether the answers show the window nested in a frame.
    pub open spec fn is_nested(
        window: &UnownedWindow,
        client_list_atom: u32,
        replies: &WindowReplies,
    ) -> bool {
        nested(
            window.xwindow,
            replies.coords.child,
            top_level(
                window.screen.supported_hints@.contains(client_list_atom),
                match replies.client_list {
                    Some(list) => Some(list@),
                    None => None,
                },
                replies.coords.child,
            ),
        )
    }

    /// The frame that the window manager tells in the answers, if any.
    pub open spec fn told_frame(
        window: &UnownedWindow,
        extents_atom: u32,
        replies: &WindowReplies,
    ) -> Option<FrameExtents> {
        if !window.screen.supported_hints@.contains(extents_atom) {
            None
        } else {
            match replies.frame_extents {
                Some(extents) => frame_of_property(extents@),
                None => None,
            }
        }
    }

    /// Tells from the answers whether the window is nested in a frame.
    pub fn window_is_nested(
        &self,
        window: &UnownedWindow,
        client_list_atom: u32,
        replies: &WindowReplies,
    ) -> (r: bool)
        ensures
            r == Self::is_nested(window, client_list_atom, replies),
    {
        let child = replies.coords.child;
        let child_top_level = self.is_top_level(
            &window.screen,
            client_list_atom,
            &replies.client_list,
            child,
        );
        !(window.xwindow == child || is_known_true(child_top_level))
    }

    /// Whether the heuristic measures the window against its outermost
    /// ancestor, and so needs that ancestor's geometry.
    pub fn needs_outer_geometry(is_nested: bool, told: &Option<FrameExtents>) -> (r: bool)
        ensures
            r == (told is None && is_nested),
    {
        told.is_none() && is_nested
    }

    /// Sizes the frame of a window from what the server answered about it.
    /// `client_list_atom` and `extents_atom` are the atoms of the two
    /// properties. The geometry of the outermost ancestor has to be there
    /// where `needs_outer_geometry` says so.
    pub fn get_frame_extents_heuristic(
        &self,
        window: &UnownedWindow,
        client_list_atom: u32,
        extents_atom: u32,
        replies: &WindowReplies,
    ) -> (r: FrameExtentsHeuristic)
        requires
            Self::told_frame(window, extents_atom, replies) is None && Self::is_nested(
                window,
                client_list_atom,
                replies,
            ) ==> replies.outer is Some,
        ensures
            r == frame_heuristic(
                Self::is_nested(window, client_list_atom, replies),
                Self::told_frame(window, extents_atom, replies),
                replies.inner,
                replies.coords.y_rel_root,
                replies.outer,
            ),
    {
        let is_nested = self.window_is_nested(window, client_list_atom, replies);
        let told = self.get_frame_extents(window, extents_atom, &replies.frame_extents);
        frame_from_replies(
            is_nested,
            told,
            replies.inner,
            replies.coords.y_rel_root,
            replies.outer,
        )
    }
}

fn is_known_true(answer: Option<bool>) -> (r: bool)
    ensures
        r == (answer == Some(true)),
{
    match answer {
        Some(b) => b,
        None => false,
    }
}

fn offset(inner: i16, outer: i16) -> (r: u16)
    ensures
        r == offset_between(inner, outer),
{
    let d: i32 = inner as i32 - outer as i32;
    let s: i32 = if d > i16::MAX as i32 {
        i16::MAX as i32
    } else if d < i16::MIN as i32 {
        i16::MIN as i32
    } else {
        d
    };
    if s >= 0 {
        s as u16
    } else {
        (s + 0x10000) as u16
    }
}

/// Sizes the frame of a window from the facts that the heuristic rests
/// on. The geometry of the outermost ancestor has to be there for a
/// nested window whose frame the window manager does not tell.
pub fn frame_from_replies(
    is_nested: bool,
    told: Option<FrameExtents>,
    inner: Geometry,
    inner_y_rel_root: i16,
    outer: Option<Geometry>,
) -> (r: FrameExtentsHeuristic)
    requires
        told is None && is_nested ==> outer is Some,
    ensures
        r == frame_heuristic(is_nested, told, inner, inner_y_rel_root, outer),
{
    match told {
        Some(frame) => {
            let frame_extents = if is_nested {
                frame
            } else {
                FrameExtents::new(0, 0, 0, 0)
            };
            FrameExtentsHeuristic {
                frame_extents,
                heuristic_path: FrameExtentsHeuristicPath::Supported,
            }
        },
        None => {
            if is_nested {
                let outer_geometry = outer.unwrap();
                let diff_x = outer_geometry.width.saturating_sub(inner.width);
                let diff_y = outer_geometry.height.saturating_sub(inner.height);
                let offset_y = offset(inner_y_rel_root, outer_geometry.y_rel_parent);
                let left = diff_x / 2;
                let bottom = diff_y.saturating_sub(offset_y);
                FrameExtentsHeuristic {
                    frame_extents: FrameExtents::new(
                        left as u32,
                        left as u32,
                        offset_y as u32,
                        bottom as u32,
                    ),
                    heuristic_path: FrameExtentsHeuristicPath::UnsupportedNested,
                }
            } else {
                FrameExtentsHeuristic {
                    frame_extents: FrameExtents::from_border(inner.border as u32),
                    heuristic_path: FrameExtentsHeuristicPath::UnsupportedBordered,
                }
            }
        },
    }
}

} // verus!

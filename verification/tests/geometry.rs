use winit::geometry::{
    contains_id, frame_from_replies, AaRect, FrameExtents, FrameExtentsHeuristic,
    FrameExtentsHeuristicPath, Geometry, Screen, TranslatedCoords, UnownedWindow, WindowReplies,
    XConnection,
};
use winit::wm::{
    decode_wm_name, needs_latin_name, select_wm_name, NameReplies, PropertyError, WmReplies,
    XCB_ATOM_STRING,
};

const EXTENTS: u32 = 400;
const CLIENTS: u32 = 401;

fn screen(hints: Vec<u32>) -> Screen {
    Screen { root: 1, supported_hints: hints, wm_name: None }
}

fn connection() -> XConnection {
    XConnection { screens: vec![screen(vec![]), Screen { root: 2, supported_hints: vec![9], wm_name: Some("old".to_string()) }] }
}

fn geometry(y: i16, width: u16, height: u16, border: u16) -> Geometry {
    Geometry { root: 1, x_rel_parent: 0, y_rel_parent: y, width, height, border, depth: 24 }
}

fn replies(child: u32) -> WindowReplies {
    WindowReplies {
        coords: TranslatedCoords { x_rel_root: 10, y_rel_root: 30, child },
        inner: geometry(0, 800, 600, 3),
        client_list: Some(vec![50, 60]),
        frame_extents: Some(vec![1, 2, 23, 4, 99]),
        outer: Some(geometry(5, 810, 640, 0)),
    }
}

fn name_replies(root: Vec<u32>, child: Vec<u32>, name: Result<Vec<u8>, PropertyError>) -> NameReplies {
    NameReplies {
        root_check: Ok(root),
        child_check: Ok(child),
        name,
        latin_name: Ok(b"IceWM 1.3".to_vec()),
    }
}

fn wm_replies(supported: Result<Vec<u32>, PropertyError>, name: NameReplies) -> WmReplies {
    WmReplies { supported, name }
}

#[test]
fn rectangle_contains_its_border() {
    let rect = AaRect::new((-10, 20), (30, 40));
    assert!(rect.contains_point(-10, 20));
    assert!(rect.contains_point(20, 60));
    assert!(rect.contains_point(0, 30));
    assert!(!rect.contains_point(21, 30));
    assert!(!rect.contains_point(0, 19));
    assert!(!rect.contains_point(-11, 61));
}

#[test]
fn overlapping_area_of_rectangles() {
    let a = AaRect::new((0, 0), (100, 50));
    let b = AaRect::new((60, 30), (100, 100));
    assert_eq!(a.get_overlapping_area(&b), 40 * 20);
    assert_eq!(b.get_overlapping_area(&a), 800);
    assert_eq!(a.get_overlapping_area(&a), 5000);
    let apart = AaRect::new((200, 0), (10, 10));
    assert_eq!(a.get_overlapping_area(&apart), 0);
    let touching = AaRect::new((100, 0), (10, 10));
    assert_eq!(a.get_overlapping_area(&touching), 0);
    assert_eq!(a.checked_overlapping_area(&b), Some(800));
    let vast = AaRect::new((i32::MIN, i32::MIN), (u32::MAX, u32::MAX));
    assert_eq!(vast.checked_overlapping_area(&vast), None);
    let half = AaRect::new((i32::MIN, i32::MIN), (u32::MAX, 1 << 31));
    assert_eq!(vast.checked_overlapping_area(&half), Some(((1i64 << 32) - 1) << 31));
    let wide = AaRect::new((i32::MIN, i32::MIN), (u32::MAX, 1));
    let tall = AaRect::new((i32::MIN, i32::MIN), (65535, 65535));
    assert_eq!(wide.get_overlapping_area(&tall), 65535);
}

#[test]
fn frame_extents_from_border_and_property() {
    assert_eq!(FrameExtents::new(1, 2, 3, 4), FrameExtents { left: 1, right: 2, top: 3, bottom: 4 });
    assert_eq!(FrameExtents::from_border(7), FrameExtents::new(7, 7, 7, 7));
    assert_eq!(FrameExtents::from_property(&vec![1, 2, 3, 4, 5]), Some(FrameExtents::new(1, 2, 3, 4)));
    assert_eq!(FrameExtents::from_property(&vec![1, 2, 3]), None);
}

#[test]
fn inner_to_outer_conversions() {
    let framed = FrameExtentsHeuristic {
        frame_extents: FrameExtents::new(4, 6, 20, 8),
        heuristic_path: FrameExtentsHeuristicPath::Supported,
    };
    assert_eq!(framed.inner_pos_to_outer(100, 100), (96, 80));
    assert_eq!(framed.inner_pos_to_outer(0, -5), (-4, -25));
    assert_eq!(framed.inner_size_to_outer(800, 600), (810, 628));
    assert_eq!(framed.inner_size_to_outer(u32::MAX - 3, u32::MAX), (u32::MAX, u32::MAX));
    let bordered = FrameExtentsHeuristic {
        frame_extents: FrameExtents::from_border(3),
        heuristic_path: FrameExtentsHeuristicPath::UnsupportedBordered,
    };
    assert_eq!(bordered.inner_pos_to_outer(100, 100), (100, 100));
    assert_eq!(bordered.inner_size_to_outer(800, 600), (806, 606));
    let huge = FrameExtentsHeuristic {
        frame_extents: FrameExtents::new(u32::MAX, 1, u32::MAX, u32::MAX),
        heuristic_path: FrameExtentsHeuristicPath::UnsupportedNested,
    };
    assert_eq!(huge.inner_size_to_outer(0, 5), (u32::MAX, u32::MAX));
}

#[test]
fn frame_told_by_the_window_manager() {
    let conn = connection();
    let window = UnownedWindow { xwindow: 77, screen: screen(vec![EXTENTS, CLIENTS]) };
    let nested = conn.get_frame_extents_heuristic(&window, CLIENTS, EXTENTS, &replies(90));
    assert_eq!(nested.heuristic_path, FrameExtentsHeuristicPath::Supported);
    assert_eq!(nested.frame_extents, FrameExtents::new(1, 2, 23, 4));
    let own = conn.get_frame_extents_heuristic(&window, CLIENTS, EXTENTS, &replies(77));
    assert_eq!(own.frame_extents, FrameExtents::new(0, 0, 0, 0));
    assert_eq!(own.heuristic_path, FrameExtentsHeuristicPath::Supported);
    let top = conn.get_frame_extents_heuristic(&window, CLIENTS, EXTENTS, &replies(60));
    assert_eq!(top.frame_extents, FrameExtents::new(0, 0, 0, 0));
}

#[test]
fn frame_measured_or_taken_from_the_border() {
    let conn = connection();
    let window = UnownedWindow { xwindow: 77, screen: screen(vec![CLIENTS]) };
    let nested = conn.get_frame_extents_heuristic(&window, CLIENTS, EXTENTS, &replies(90));
    assert_eq!(nested.heuristic_path, FrameExtentsHeuristicPath::UnsupportedNested);
    assert_eq!(nested.frame_extents, FrameExtents::new(5, 5, 25, 15));
    let bordered = conn.get_frame_extents_heuristic(&window, CLIENTS, EXTENTS, &replies(60));
    assert_eq!(bordered.heuristic_path, FrameExtentsHeuristicPath::UnsupportedBordered);
    assert_eq!(bordered.frame_extents, FrameExtents::from_border(3));
    let blind = UnownedWindow { xwindow: 77, screen: screen(vec![]) };
    let unknown = conn.get_frame_extents_heuristic(&blind, CLIENTS, EXTENTS, &replies(60));
    assert_eq!(unknown.heuristic_path, FrameExtentsHeuristicPath::UnsupportedNested);
    let above = frame_from_replies(true, None, geometry(0, 800, 600, 0), -5, Some(geometry(5, 700, 620, 0)));
    assert_eq!(above.frame_extents, FrameExtents::new(0, 0, 65526, 0));
    let far = frame_from_replies(true, None, geometry(0, 1, 1, 0), i16::MAX, Some(geometry(-2, 3, 40000, 0)));
    assert_eq!(far.frame_extents, FrameExtents::new(1, 1, 32767, 39999 - 32767));
    assert!(XConnection::needs_outer_geometry(true, &None));
    assert!(!XConnection::needs_outer_geometry(false, &None));
    assert!(!XConnection::needs_outer_geometry(true, &Some(FrameExtents::from_border(1))));
}

#[test]
fn top_level_and_frame_queries() {
    let conn = connection();
    let knowing = screen(vec![CLIENTS, EXTENTS]);
    assert_eq!(conn.is_top_level(&knowing, CLIENTS, &Some(vec![5, 6]), 6), Some(true));
    assert_eq!(conn.is_top_level(&knowing, CLIENTS, &Some(vec![5, 6]), 7), Some(false));
    assert_eq!(conn.is_top_level(&knowing, CLIENTS, &None, 6), None);
    assert_eq!(conn.is_top_level(&screen(vec![]), CLIENTS, &Some(vec![6]), 6), None);
    assert!(knowing.hint_is_supported(EXTENTS));
    assert!(!knowing.hint_is_supported(3));
    assert!(contains_id(&vec![1, 2, 3], 3));
    assert!(!contains_id(&vec![], 3));
    let window = UnownedWindow { xwindow: 77, screen: knowing };
    assert_eq!(conn.get_frame_extents(&window, EXTENTS, &Some(vec![1, 1, 1])), None);
    assert_eq!(conn.get_frame_extents(&window, EXTENTS, &None), None);
    assert_eq!(
        conn.get_frame_extents(&window, EXTENTS, &Some(vec![1, 2, 3, 4])),
        Some(FrameExtents::new(1, 2, 3, 4))
    );
    assert_eq!(conn.get_frame_extents(&window, 5, &Some(vec![1, 2, 3, 4])), None);
}

#[test]
fn hierarchy_is_climbed_to_the_window_below_the_root() {
    let conn = connection();
    assert_eq!(conn.climb_hierarchy(77, 1, &vec![80, 90, 1, 5]), Some(90));
    assert_eq!(conn.climb_hierarchy(77, 1, &vec![1]), Some(77));
    assert_eq!(conn.climb_hierarchy(77, 1, &vec![80, 90]), None);
    assert_eq!(conn.climb_hierarchy(77, 1, &vec![]), None);
}

#[test]
fn window_manager_name_needs_a_window_that_names_itself() {
    let utf8 = || Ok("Mutter \u{2713}".as_bytes().to_vec());
    assert_eq!(
        XConnection::get_wm_name(name_replies(vec![8, 9], vec![8], utf8())),
        Some("Mutter \u{2713}".to_string())
    );
    assert_eq!(XConnection::get_wm_name(name_replies(vec![8], vec![9], utf8())), None);
    assert_eq!(XConnection::get_wm_name(name_replies(vec![], vec![8], utf8())), None);
    assert_eq!(XConnection::get_wm_name(name_replies(vec![8], vec![], utf8())), None);
    assert_eq!(XConnection::get_wm_name(name_replies(vec![8], vec![8], Ok(vec![0xff, 0x41]))), None);
    assert_eq!(XConnection::get_wm_name(name_replies(vec![8], vec![8], Err(PropertyError::Unset))), None);
    let mut unread = name_replies(vec![8], vec![8], utf8());
    unread.root_check = Err(PropertyError::Xcb);
    assert_eq!(XConnection::get_wm_name(unread), None);
}

#[test]
fn latin_name_is_read_where_the_type_says_so() {
    let latin = Err(PropertyError::InvalidPropertyType { expected: 300, actual: XCB_ATOM_STRING });
    assert!(needs_latin_name(&latin));
    assert_eq!(
        XConnection::get_wm_name(name_replies(vec![8], vec![8], latin)),
        Some("IceWM 1.3".to_string())
    );
    let other = Err(PropertyError::InvalidPropertyType { expected: 300, actual: 4 });
    assert!(!needs_latin_name(&other));
    assert_eq!(XConnection::get_wm_name(name_replies(vec![8], vec![8], other)), None);
    let format = Err(PropertyError::InvalidPropertyFormat { expected_format: 8, actual_format: 32 });
    assert!(!needs_latin_name(&format));
    assert_eq!(select_wm_name(name_replies(vec![8], vec![8], Ok(vec![1, 2]))), Some(vec![1, 2]));
    assert_eq!(decode_wm_name(Some(vec![0x61, 0xc3, 0xa9])), Some("a\u{e9}".to_string()));
    assert_eq!(decode_wm_name(Some(vec![0xc3])), None);
    assert_eq!(decode_wm_name(None), None);
}

#[test]
fn cached_wm_info_is_replaced_for_every_screen() {
    let mut conn = connection();
    let unread = wm_replies(
        Err(PropertyError::Unset),
        name_replies(vec![8], vec![9], Ok(b"x".to_vec())),
    );
    let known = wm_replies(
        Ok(vec![EXTENTS, CLIENTS]),
        name_replies(vec![8], vec![8], Ok(b"i3".to_vec())),
    );
    conn.update_cached_wm_info(vec![known, unread]);
    assert_eq!(conn.screens.len(), 2);
    assert_eq!(conn.screens[0].root, 1);
    assert_eq!(conn.screens[0].supported_hints, vec![EXTENTS, CLIENTS]);
    assert_eq!(conn.screens[0].wm_name, Some("i3".to_string()));
    assert_eq!(conn.screens[1].root, 2);
    assert_eq!(conn.screens[1].supported_hints, Vec::<u32>::new());
    assert_eq!(conn.screens[1].wm_name, None);
    assert_eq!(XConnection::get_supported_hints(Ok(vec![4])), vec![4]);
    assert_eq!(XConnection::get_supported_hints(Err(PropertyError::Xcb)), Vec::<u32>::new());
}

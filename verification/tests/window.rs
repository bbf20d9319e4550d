use winit::unix::{
    ARGBColor, Button, ButtonState, DeviceId, DeviceIdExtUnix, Element, MonitorHandleExtUnix,
    PlatformSpecificWindowBuilderAttributes, WindowBuilderExtUnix, WindowExtUnix, XVisualInfos,
    XWindowType,
};
use winit::window::{
    CursorIcon, EventLoopWindowTarget, ExternalError, Fullscreen, Icon, MonitorHandle,
    NotSupportedError, OsError, PhysicalPosition, PhysicalSize, UserAttentionType, VideoMode,
    Window, WindowAttributes, WindowBuilder, WindowId,
};

fn target() -> EventLoopWindowTarget {
    EventLoopWindowTarget { windows_made: 0 }
}

fn mode(monitor: u32) -> VideoMode {
    VideoMode {
        size: PhysicalSize { width: 1920, height: 1080 },
        bit_depth: 32,
        refresh_rate: 60,
        monitor: MonitorHandle { inner: monitor },
    }
}

#[test]
fn default_attributes() {
    let attrs = WindowAttributes::default();
    assert_eq!(attrs.inner_size, None);
    assert_eq!(attrs.min_inner_size, None);
    assert_eq!(attrs.max_inner_size, None);
    assert_eq!(attrs.position, None);
    assert!(attrs.resizable);
    assert_eq!(attrs.title, "winit window");
    assert!(!attrs.maximized);
    assert_eq!(attrs.fullscreen, None);
    assert!(attrs.visible);
    assert!(!attrs.transparent);
    assert!(attrs.decorations);
    assert!(!attrs.always_on_top);
    assert_eq!(attrs.window_icon, None);
    assert_eq!(CursorIcon::default(), CursorIcon::Default);
    assert_eq!(UserAttentionType::default(), UserAttentionType::Informational);
    let platform = PlatformSpecificWindowBuilderAttributes::default();
    assert_eq!(platform.x11_window_types, vec![XWindowType::Normal]);
    assert_eq!(platform.visual_infos, XVisualInfos { visual_id: None, depth: None });
    assert!(!platform.override_redirect);
    assert_eq!(platform.class, None);
}

#[test]
fn builder_sets_each_attribute() {
    let icon = Icon { rgba: vec![0, 0, 0, 255], width: 1, height: 1 };
    let builder = WindowBuilder::new()
        .with_inner_size(PhysicalSize { width: 640, height: 480 })
        .with_min_inner_size(PhysicalSize { width: 10, height: 20 })
        .with_max_inner_size(PhysicalSize { width: 1000, height: 2000 })
        .with_position(PhysicalPosition { x: -5, y: 7 })
        .with_resizable(false)
        .with_title("editor".to_string())
        .with_fullscreen(Some(Fullscreen::Borderless(None)))
        .with_maximized(true)
        .with_visible(false)
        .with_transparent(true)
        .with_decorations(false)
        .with_always_on_top(true)
        .with_window_icon(Some(icon.clone()));
    let attrs = &builder.window;
    assert_eq!(attrs.inner_size, Some(PhysicalSize { width: 640, height: 480 }));
    assert_eq!(attrs.min_inner_size, Some(PhysicalSize { width: 10, height: 20 }));
    assert_eq!(attrs.max_inner_size, Some(PhysicalSize { width: 1000, height: 2000 }));
    assert_eq!(attrs.position, Some(PhysicalPosition { x: -5, y: 7 }));
    assert!(!attrs.resizable);
    assert_eq!(attrs.title, "editor");
    assert_eq!(attrs.fullscreen, Some(Fullscreen::Borderless(None)));
    assert!(attrs.maximized);
    assert!(!attrs.visible);
    assert!(attrs.transparent);
    assert!(!attrs.decorations);
    assert!(attrs.always_on_top);
    assert_eq!(attrs.window_icon, Some(icon));
    assert_eq!(builder.platform_specific.screen_id, None);
}

#[test]
fn builder_sets_each_unix_attribute() {
    let builder = WindowBuilder::new()
        .with_x11_visual(XVisualInfos { visual_id: Some(33), depth: Some(24) })
        .with_x11_screen(2)
        .with_class("instance".to_string(), "class".to_string())
        .with_override_redirect(true)
        .with_x11_window_type(vec![XWindowType::Dialog, XWindowType::Utility])
        .with_gtk_theme_variant("dark".to_string())
        .with_resize_increments(PhysicalSize { width: 8, height: 16 })
        .with_base_size(PhysicalSize { width: 4, height: 2 })
        .with_app_id("org.example".to_string());
    let platform = &builder.platform_specific;
    assert_eq!(platform.visual_infos, XVisualInfos { visual_id: Some(33), depth: Some(24) });
    assert_eq!(platform.screen_id, Some(2));
    assert_eq!(platform.class, Some(("instance".to_string(), "class".to_string())));
    assert!(platform.override_redirect);
    assert_eq!(platform.x11_window_types, vec![XWindowType::Dialog, XWindowType::Utility]);
    assert_eq!(platform.gtk_theme_variant, Some("dark".to_string()));
    assert_eq!(platform.resize_increments, Some(PhysicalSize { width: 8, height: 16 }));
    assert_eq!(platform.base_size, Some(PhysicalSize { width: 4, height: 2 }));
    assert_eq!(platform.app_id, Some("org.example".to_string()));
    assert_eq!(builder.window.title, "winit window");
}

#[test]
fn built_windows_are_numbered_and_ask_to_be_drawn() {
    let mut target = target();
    let first = Window::new(&mut target).unwrap();
    let second = WindowBuilder::new().with_title("b".to_string()).build(&mut target).unwrap();
    assert_eq!(first.id(), WindowId(0));
    assert_eq!(second.id(), WindowId(1));
    assert_eq!(target.windows_made, 2);
    assert!(first.redraw_requested);
    assert!(second.redraw_requested);
    assert_eq!(first.attributes.title, "winit window");
    assert_eq!(second.attributes.title, "b");
    assert!(second.cursor_visible && !second.cursor_grab && !second.minimized);
    assert!(first.is_ready());
    let mut full = EventLoopWindowTarget { windows_made: u64::MAX };
    assert_eq!(Window::new(&mut full).err(), Some(OsError { code: 0 }));
    assert_eq!(full.windows_made, u64::MAX);
}

#[test]
fn window_setters_change_one_thing() {
    let mut target = target();
    let mut window = Window::new(&mut target).unwrap();
    window.redraw_requested = false;
    window.dead_key_pending = true;
    window.set_maximized(true);
    assert!(window.is_maximized());
    window.set_inner_size(PhysicalSize { width: 3, height: 4 });
    assert!(!window.is_maximized());
    assert_eq!(window.inner_size(), PhysicalSize { width: 3, height: 4 });
    assert_eq!(window.outer_size(), PhysicalSize { width: 3, height: 4 });
    window.set_maximized(true);
    assert_eq!(window.inner_position(), Err(NotSupportedError {}));
    assert_eq!(window.outer_position(), Err(NotSupportedError {}));
    window.set_outer_position(PhysicalPosition { x: 1, y: 2 });
    assert!(!window.is_maximized());
    assert_eq!(window.inner_position(), Ok(PhysicalPosition { x: 1, y: 2 }));
    assert_eq!(window.outer_position(), Ok(PhysicalPosition { x: 1, y: 2 }));
    window.set_min_inner_size(Some(PhysicalSize { width: 1, height: 1 }));
    window.set_max_inner_size(Some(PhysicalSize { width: 9, height: 9 }));
    assert_eq!(window.attributes.min_inner_size, Some(PhysicalSize { width: 1, height: 1 }));
    assert_eq!(window.attributes.max_inner_size, Some(PhysicalSize { width: 9, height: 9 }));
    window.set_min_inner_size(None);
    assert_eq!(window.attributes.min_inner_size, None);
    window.set_title("notes");
    assert_eq!(window.attributes.title, "notes");
    window.set_resizable(false);
    window.set_minimized(true);
    window.set_decorations(false);
    window.set_always_on_top(true);
    window.set_window_icon(Some(Icon { rgba: vec![1, 2, 3, 4], width: 1, height: 1 }));
    window.set_ime_position(PhysicalPosition { x: 5, y: 6 });
    window.request_user_attention(Some(UserAttentionType::Critical));
    window.set_cursor_icon(CursorIcon::Hand);
    window.set_cursor_visible(false);
    assert!(!window.attributes.resizable && window.minimized && !window.attributes.decorations);
    assert!(window.attributes.always_on_top && !window.cursor_visible);
    assert_eq!(window.attributes.window_icon.as_ref().map(|i| i.rgba.len()), Some(4));
    assert_eq!(window.ime_position, Some(PhysicalPosition { x: 5, y: 6 }));
    assert_eq!(window.attention, Some(UserAttentionType::Critical));
    assert_eq!(window.cursor_icon, CursorIcon::Hand);
    assert!(!window.redraw_requested && window.dead_key_pending);
    window.request_redraw();
    window.reset_dead_keys();
    assert!(window.redraw_requested && !window.dead_key_pending);
    assert_eq!(window.id(), WindowId(0));
    assert_eq!(window.inner_size(), PhysicalSize { width: 3, height: 4 });
}

#[test]
fn cursor_requests_are_recorded() {
    let mut target = target();
    let mut window = Window::new(&mut target).unwrap();
    assert_eq!(window.set_cursor_position(PhysicalPosition { x: 1, y: 1 }), Ok(()));
    assert_eq!(window.cursor_position, Some(PhysicalPosition { x: 1, y: 1 }));
    assert_eq!(window.set_cursor_grab(true), Ok(()));
    assert!(window.cursor_grab);
    assert_eq!(window.drag_window(), Ok(()));
    assert!(window.dragging && !window.cursor_grab);
    assert_eq!(window.set_cursor_grab(true), Ok(()));
    assert_eq!(window.set_cursor_grab(false), Ok::<(), ExternalError>(()));
    assert!(!window.cursor_grab);
}

#[test]
fn monitors_and_fullscreen() {
    let mut target = target();
    let mut window = Window::new(&mut target).unwrap();
    assert_eq!(window.inner_size(), PhysicalSize { width: 0, height: 0 });
    assert_eq!(window.primary_monitor(), None);
    assert_eq!(window.current_monitor(), None);
    assert_eq!(window.available_monitors(), vec![]);
    window.monitors = vec![MonitorHandle { inner: 4 }, MonitorHandle { inner: 5 }];
    assert_eq!(window.primary_monitor(), Some(MonitorHandle { inner: 4 }));
    assert_eq!(window.current_monitor(), Some(MonitorHandle { inner: 4 }));
    assert_eq!(window.available_monitors(), vec![MonitorHandle { inner: 4 }, MonitorHandle { inner: 5 }]);
    assert_eq!(window.fullscreen(), None);
    window.set_fullscreen(Some(Fullscreen::Borderless(Some(MonitorHandle { inner: 5 }))));
    assert_eq!(window.current_monitor(), Some(MonitorHandle { inner: 5 }));
    window.release();
    assert_eq!(window.fullscreen(), Some(Fullscreen::Borderless(Some(MonitorHandle { inner: 5 }))));
    window.set_fullscreen(Some(Fullscreen::Borderless(None)));
    assert_eq!(window.current_monitor(), Some(MonitorHandle { inner: 4 }));
    window.set_fullscreen(Some(Fullscreen::Exclusive(mode(9))));
    assert_eq!(window.current_monitor(), Some(MonitorHandle { inner: 9 }));
    window.release();
    assert_eq!(window.fullscreen(), None);
    assert_eq!(MonitorHandle { inner: 9 }.native_id(), 9);
}

#[test]
fn unix_identifiers_and_theme_parts() {
    assert_eq!(DeviceId::X(12).xinput_id(), Some(12));
    assert_eq!(DeviceId::Wayland.xinput_id(), None);
    assert_ne!(Button::Close, Button::Maximize);
    assert_ne!(ButtonState::Hovered, ButtonState::Idle);
    assert_ne!(Element::Bar, Element::Text);
    let colour = ARGBColor { a: 255, r: 1, g: 2, b: 3 };
    assert_eq!(colour, ARGBColor { a: 255, r: 1, g: 2, b: 3 });
    assert_eq!(XVisualInfos::default(), XVisualInfos { visual_id: None, depth: None });
}

//! What only the Unix platforms offer: the hints of an X11 window and the
//! theme of a Wayland window's decorations.

use vstd::prelude::*;
use crate::window::{MonitorHandle, PhysicalSize, Window, WindowBuilder};

verus! {

/// The kind of an X11 window, which tells the window manager how to treat
/// it.
#[derive(Debug, Clone, Copy, PartialEq, Eq, Hash)]
pub enum XWindowType {
    Desktop,
    Dock,
    Toolbar,
    Menu,
    Utility,
    Splash,
    Dialog,
    DropdownMenu,
    PopupMenu,
    Tooltip,
    Notification,
    Combo,
    Dnd,
    Normal,
}

/// The visual that an X11 window is created with.
#[derive(Copy, Clone, Debug, PartialEq, Eq)]
pub struct XVisualInfos {
    pub visual_id: Option<u32>,
    pub depth: Option<u8>,
}

impl Default for XVisualInfos {
    fn default() -> (r: XVisualInfos)
        ensures
            r == (XVisualInfos { visual_id: None, depth: None }),
    {
        XVisualInfos { visual_id: None, depth: None }
    }
}

/// What a window builder holds for the Unix platforms alone.
#[derive(Debug, Clone)]
pub struct PlatformSpecificWindowBuilderAttributes {
    pub visual_infos: XVisualInfos,
    pub screen_id: Option<u32>,
    pub resize_increments: Option<PhysicalSize>,
    pub base_size: Option<PhysicalSize>,
    /// The instance and the class of the window.
    pub class: Option<(String, String)>,
    pub override_redirect: bool,
    pub x11_window_types: Vec<XWindowType>,
    pub gtk_theme_variant: Option<String>,
    pub app_id: Option<String>,
}

impl PlatformSpecificWindowBuilderAttributes {
    /// Nothing is set, and the window is a normal one.
    pub open spec fn is_default(&self) -> bool {
        &&& self.visual_infos == (XVisualInfos { visual_id: None, depth: None })
        &&& self.screen_id is None
        &&& self.resize_increments is None
        &&& self.base_size is None
        &&& self.class is None
        &&& !self.override_redirect
        &&& self.x11_window_types@ == seq![XWindowType::Normal]
        &&& self.gtk_theme_variant is None
        &&& self.app_id is None
    }
}

impl Default for PlatformSpecificWindowBuilderAttributes {
    fn default() -> (r: PlatformSpecificWindowBuilderAttributes)
        ensures
            r.is_default(),
    {
        let mut x11_window_types = Vec::new();
        x11_window_types.push(XWindowType::Normal);
        PlatformSpecificWindowBuilderAttributes {
            visual_infos: XVisualInfos::default(),
            screen_id: None,
            resize_increments: None,
            base_size: None,
            class: None,
            override_redirect: false,
            x11_window_types,
            gtk_theme_variant: None,
            app_id: None,
        }
    }
}

/// Additional methods on `WindowBuilder` that are specific to Unix.
pub trait WindowBuilderExtUnix: Sized {
    fn with_x11_visual(self, visual_infos: XVisualInfos) -> Self;

    fn with_x11_screen(self, screen_id: u32) -> Self;

    /// Build window with the class hint. Only relevant on X11.
    fn with_class(self, class: String, instance: String) -> Self;

    /// Build window with the override-redirect flag. Only relevant on X11.
    fn with_override_redirect(self, override_redirect: bool) -> Self;

    /// Build window with the window-type hints. Only relevant on X11.
    fn with_x11_window_type(self, x11_window_type: Vec<XWindowType>) -> Self;

    /// Build window with the theme-variant hint. Only relevant on X11.
    fn with_gtk_theme_variant(self, variant: String) -> Self;

    /// Build window with the resize increment hint. Only relevant on X11.
    fn with_resize_increments(self, increments: PhysicalSize) -> Self;

    /// Build window with the base size hint. Only relevant on X11.
    fn with_base_size(self, base_size: PhysicalSize) -> Self;

    /// Build window with a given application ID. Only relevant on Wayland.
    fn with_app_id(self, app_id: String) -> Self;
}

impl WindowBuilderExtUnix for WindowBuilder {
    fn with_x11_visual(self, visual_infos: XVisualInfos) -> (r: WindowBuilder)
        ensures
            r.window == self.window,
            r.platform_specific == (PlatformSpecificWindowBuilderAttributes {
                visual_infos,
                ..self.platform_specific
            }),
    {
        let mut builder = self;
        builder.platform_specific.visual_infos = visual_infos;
        builder
    }

    fn with_x11_screen(self, screen_id: u32) -> (r: WindowBuilder)
        ensures
            r.window == self.window,
            r.platform_specific == (PlatformSpecificWindowBuilderAttributes {
                screen_id: Some(screen_id),
                ..self.platform_specific
            }),
    {
        let mut builder = self;
        builder.platform_specific.screen_id = Some(screen_id);
        builder
    }

    fn with_class(self, instance: String, class: String) -> (r: WindowBuilder)
        ensures
            r.window == self.window,
            r.platform_specific == (PlatformSpecificWindowBuilderAttributes {
                class: Some((instance, class)),
                ..self.platform_specific
            }),
    {
        let mut builder = self;
        builder.platform_specific.class = Some((instance, class));
        builder
    }

    fn with_override_redirect(self, override_redirect: bool) -> (r: WindowBuilder)
        ensures
            r.window == self.window,
            r.platform_specific == (PlatformSpecificWindowBuilderAttributes {
                override_redirect,
                ..self.platform_specific
            }),
    {
        let mut builder = self;
        builder.platform_specific.override_redirect = override_redirect;
        builder
    }

    fn with_x11_window_type(self, x11_window_types: Vec<XWindowType>) -> (r: WindowBuilder)
        ensures
            r.window == self.window,
            r.platform_specific == (PlatformSpecificWindowBuilderAttributes {
                x11_window_types,
                ..self.platform_specific
            }),
    {
        let mut builder = self;
        builder.platform_specific.x11_window_types = x11_window_types;
        builder
    }

    fn with_gtk_theme_variant(self, variant: String) -> (r: WindowBuilder)
        ensures
            r.window == self.window,
            r.platform_specific == (PlatformSpecificWindowBuilderAttributes {
                gtk_theme_variant: Some(variant),
                ..self.platform_specific
            }),
    {
        let mut builder = self;
        builder.platform_specific.gtk_theme_variant = Some(variant);
        builder
    }

    fn with_resize_increments(self, increments: PhysicalSize) -> (r: WindowBuilder)
        ensures
            r.window == self.window,
            r.platform_specific == (PlatformSpecificWindowBuilderAttributes {
                resize_increments: Some(increments),
                ..self.platform_specific
            }),
    {
        let mut builder = self;
        builder.platform_specific.resize_increments = Some(increments);
        builder
    }

    fn with_base_size(self, base_size: PhysicalSize) -> (r: WindowBuilder)
        ensures
            r.window == self.window,
            r.platform_specific == (PlatformSpecificWindowBuilderAttributes {
                base_size: Some(base_size),
                ..self.platform_specific
            }),
    {
        let mut builder = self;
        builder.platform_specific.base_size = Some(base_size);
        builder
    }

    fn with_app_id(self, app_id: String) -> (r: WindowBuilder)
        ensures
            r.window == self.window,
            r.platform_specific == (PlatformSpecificWindowBuilderAttributes {
                app_id: Some(app_id),
                ..self.platform_specific
            }),
    {
        let mut builder = self;
        builder.platform_specific.app_id = Some(app_id);
        builder
    }
}

/// Additional methods on `MonitorHandle` that are specific to Linux.
pub trait MonitorHandleExtUnix {
    /// Returns the inner identifier of the monitor.
    fn native_id(&self) -> u32;
}

impl MonitorHandleExtUnix for MonitorHandle {
    fn native_id(&self) -> (r: u32)
        ensures
            r == self.inner,
    {
        self.inner
    }
}

/// An input device, by the platform that reports it.
#[derive(Debug, Clone, Copy, PartialEq, Eq, Hash)]
pub enum DeviceId {
    /// A device of an X server, with its xinput identifier.
    X(u32),
    Wayland,
}

/// Additional methods on `DeviceId` that are specific to Unix.
pub trait DeviceIdExtUnix {
    /// Returns the native xinput identifier of the device: `None` if the
    /// device does not belong to an X server.
    fn xinput_id(&self) -> Option<u32>;
}

impl DeviceIdExtUnix for DeviceId {
    fn xinput_id(&self) -> (r: Option<u32>)
        ensures
            r == (match *self {
                DeviceId::X(id) => Some(id),
                DeviceId::Wayland => None,
            }),
    {
        match *self {
            DeviceId::X(id) => Some(id),
            DeviceId::Wayland => None,
        }
    }
}

/// Additional methods on `Window` that are specific to Unix.
pub trait WindowExtUnix {
    /// Always returns true: every window is ready for drawing.
    fn is_ready(&self) -> bool;
}

impl WindowExtUnix for Window {
    fn is_ready(&self) -> (r: bool)
        ensures
            r,
    {
        true
    }
}

/// A button on Wayland's client side decorations.
#[derive(Clone, Copy, Debug, PartialEq, Eq)]
pub enum Button {
    /// Button that maximizes the window.
    Maximize,
    /// Button that minimizes the window.
    Minimize,
    /// Button that closes the window.
    Close,
}

/// A button state of the button on Wayland's client side decorations.
#[derive(Clone, Copy, Debug, PartialEq, Eq)]
pub enum ButtonState {
    /// Button is being hovered over by pointer.
    Hovered,
    /// Button is not being hovered over by pointer.
    Idle,
    /// Button is disabled.
    Disabled,
}

/// A part of Wayland's client side decorations.
#[derive(Clone, Copy, Debug, PartialEq, Eq)]
pub enum Element {
    /// Bar itself.
    Bar,
    /// Separator between window and title bar.
    Separator,
    /// Title bar text.
    Text,
}

/// A colour with its opacity.
#[derive(Clone, Copy, Debug, PartialEq, Eq)]
pub struct ARGBColor {
    pub a: u8,
    pub r: u8,
    pub g: u8,
    pub b: u8,
}

} // verus!

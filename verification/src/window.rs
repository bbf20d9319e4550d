//! The description of a window: what an application asks of it, and what
//! it is told back. The platform that shows the window reads the
//! description and carries it out.

use vstd::prelude::*;
use crate::unix::PlatformSpecificWindowBuilderAttributes;

verus! {

/// A position in physical pixels.
#[derive(Debug, Clone, Copy, PartialEq, Eq, Hash, Structural)]
pub struct PhysicalPosition {
    pub x: i32,
    pub y: i32,
}

/// A size in physical pixels.
#[derive(Debug, Clone, Copy, PartialEq, Eq, Hash, Structural)]
pub struct PhysicalSize {
    pub width: u32,
    pub height: u32,
}

/// A monitor, by the identifier that the platform gives it.
#[derive(Debug, Clone, Copy, PartialEq, Eq, Hash, Structural)]
pub struct MonitorHandle {
    pub inner: u32,
}

/// A mode that a monitor can be switched to.
#[derive(Debug, Clone, Copy, PartialEq, Eq, Hash)]
pub struct VideoMode {
    pub size: PhysicalSize,
    pub bit_depth: u16,
    pub refresh_rate: u16,
    pub monitor: MonitorHandle,
}

/// An icon: rows of pixels, four bytes each.
#[derive(Debug, Clone, PartialEq, Eq)]
pub struct Icon {
    pub rgba: Vec<u8>,
    pub width: u32,
    pub height: u32,
}

/// The platform could not do what was asked.
#[derive(Debug, Clone, Copy, PartialEq, Eq)]
pub struct OsError {
    pub code: i32,
}

/// The platform has no such operation.
#[derive(Debug, Clone, Copy, PartialEq, Eq)]
pub struct NotSupportedError {}

/// Why an operation that reaches outside the application failed.
#[derive(Debug, Clone, Copy, PartialEq, Eq)]
pub enum ExternalError {
    NotSupported(NotSupportedError),
    Os(OsError),
}

/// Identifier of a window. Unique for each window of one event loop.
#[derive(Debug, Copy, Clone, PartialEq, Eq, PartialOrd, Ord, Hash)]
pub struct WindowId(pub u64);

/// Describes the appearance of the mouse cursor.
#[derive(Debug, Copy, Clone, PartialEq, Eq, Hash)]
pub enum CursorIcon {
    /// The platform-dependent default cursor.
    Default,
    /// A simple crosshair.
    Crosshair,
    /// A hand (often used to indicate links in web browsers).
    Hand,
    /// Self explanatory.
    Arrow,
    /// Indicates something is to be moved.
    Move,
    /// Indicates text that may be selected or edited.
    Text,
    /// Program busy indicator.
    Wait,
    /// Help indicator (often rendered as a "?")
    Help,
    /// Progress indicator: work is going on, but the user may still
    /// interact with the program.
    Progress,
    /// Cursor showing that something cannot be done.
    NotAllowed,
    ContextMenu,
    Cell,
    VerticalText,
    Alias,
    Copy,
    NoDrop,
    /// Indicates something can be grabbed.
    Grab,
    /// Indicates something is grabbed.
    Grabbing,
    AllScroll,
    ZoomIn,
    ZoomOut,
    /// Indicate that some edge is to be moved.
    EResize,
    NResize,
    NeResize,
    NwResize,
    SResize,
    SeResize,
    SwResize,
    WResize,
    EwResize,
    NsResize,
    NeswResize,
    NwseResize,
    ColResize,
    RowResize,
}

impl Default for CursorIcon {
    fn default() -> (r: CursorIcon)
        ensures
            r == CursorIcon::Default,
    {
        CursorIcon::Default
    }
}

/// Fullscreen modes.
#[derive(Clone, Copy, Debug, PartialEq, Eq)]
pub enum Fullscreen {
    Exclusive(VideoMode),
    /// `None` means the monitor that the window is on.
    Borderless(Option<MonitorHandle>),
}

/// The colours of a window's decorations.
#[derive(Clone, Copy, Debug, PartialEq, Eq)]
pub enum Theme {
    Light,
    Dark,
}

/// How urgently a window asks for the user's attention.
#[derive(Debug, Clone, Copy, PartialEq, Eq)]
pub enum UserAttentionType {
    Critical,
    Informational,
}

impl Default for UserAttentionType {
    fn default() -> (r: UserAttentionType)
        ensures
            r == UserAttentionType::Informational,
    {
        UserAttentionType::Informational
    }
}

/// Attributes to use when creating a window.
#[derive(Debug, Clone)]
pub struct WindowAttributes {
    /// The size of the client area. `None` leaves it to the platform.
    pub inner_size: Option<PhysicalSize>,
    /// The smallest size that the client area may take, if any.
    pub min_inner_size: Option<PhysicalSize>,
    /// The largest size that the client area may take, if any.
    pub max_inner_size: Option<PhysicalSize>,
    /// The position of the window. `None` leaves it to the platform.
    pub position: Option<PhysicalPosition>,
    /// Whether the window is resizable.
    pub resizable: bool,
    /// The fullscreen state of the window.
    pub fullscreen: Option<Fullscreen>,
    /// The title of the window in the title bar.
    pub title: String,
    /// Whether the window is maximized.
    pub maximized: bool,
    /// Whether the window is visible.
    pub visible: bool,
    /// Whether the background of the window is transparent.
    pub transparent: bool,
    /// Whether the window has borders and bars.
    pub decorations: bool,
    /// Whether the window stays on top of other windows.
    pub always_on_top: bool,
    /// The window icon.
    pub window_icon: Option<Icon>,
}

/// The title of a window that was given none.
pub open spec fn default_title() -> Seq<char> {
    "winit window"@
}

impl WindowAttributes {
    /// The attributes of a window that nothing was asked of: resizable,
    /// visible and decorated, with the default title and nothing else.
    pub open spec fn is_default(&self) -> bool {
        &&& self.inner_size is None
        &&& self.min_inner_size is None
        &&& self.max_inner_size is None
        &&& self.position is None
        &&& self.resizable
        &&& self.fullscreen is None
        &&& self.title@ == default_title()
        &&& !self.maximized
        &&& self.visible
        &&& !self.transparent
        &&& self.decorations
        &&& !self.always_on_top
        &&& self.window_icon is None
    }
}

impl Default for WindowAttributes {
    fn default() -> (r: WindowAttributes)
        ensures
            r.is_default(),
    {
        WindowAttributes {
            inner_size: None,
            min_inner_size: None,
            max_inner_size: None,
            position: None,
            resizable: true,
            title: "winit window".to_owned(),
            maximized: false,
            fullscreen: None,
            visible: true,
            transparent: false,
            decorations: true,
            always_on_top: false,
            window_icon: None,
        }
    }
}

/// Object that allows you to build windows.
#[derive(Debug, Clone)]
pub struct WindowBuilder {
    /// The attributes to use to create the window.
    pub window: WindowAttributes,
    /// Platform-specific configuration.
    pub platform_specific: PlatformSpecificWindowBuilderAttributes,
}

/// Where windows are made: it numbers them.
#[derive(Debug, Clone, Copy, PartialEq, Eq)]
pub struct EventLoopWindowTarget {
    /// The number of windows made so far.
    pub windows_made: u64,
}

impl WindowBuilder {
    /// Initializes a new `WindowBuilder` with default values.
    pub fn new() -> (r: WindowBuilder)
        ensures
            r.window.is_default(),
            r.platform_specific.is_default(),
    {
        WindowBuilder {
            window: WindowAttributes::default(),
            platform_specific: PlatformSpecificWindowBuilderAttributes::default(),
        }
    }

    /// Asks for a client area of the given size.
    pub fn with_inner_size(self, size: PhysicalSize) -> (r: WindowBuilder)
        ensures
            r.platform_specific == self.platform_specific,
            r.window == (WindowAttributes { inner_size: Some(size), ..self.window }),
    {
        let mut builder = self;
        builder.window.inner_size = Some(size);
        builder
    }

    /// Sets the smallest size that the client area may take.
    pub fn with_min_inner_size(self, min_size: PhysicalSize) -> (r: WindowBuilder)
        ensures
            r.platform_specific == self.platform_specific,
            r.window == (WindowAttributes { min_inner_size: Some(min_size), ..self.window }),
    {
        let mut builder = self;
        builder.window.min_inner_size = Some(min_size);
        builder
    }

    /// Sets the largest size that the client area may take.
    pub fn with_max_inner_size(self, max_size: PhysicalSize) -> (r: WindowBuilder)
        ensures
            r.platform_specific == self.platform_specific,
            r.window == (WindowAttributes { max_inner_size: Some(max_size), ..self.window }),
    {
        let mut builder = self;
        builder.window.max_inner_size = Some(max_size);
        builder
    }

    /// Asks for the window to be placed at the given position.
    pub fn with_position(self, position: PhysicalPosition) -> (r: WindowBuilder)
        ensures
            r.platform_specific == self.platform_specific,
            r.window == (WindowAttributes { position: Some(position), ..self.window }),
    {
        let mut builder = self;
        builder.window.position = Some(position);
        builder
    }

    /// Sets whether the window can be resized.
    pub fn with_resizable(self, resizable: bool) -> (r: WindowBuilder)
        ensures
            r.platform_specific == self.platform_specific,
            r.window == (WindowAttributes { resizable: resizable, ..self.window }),
    {
        let mut builder = self;
        builder.window.resizable = resizable;
        builder
    }

    /// Sets the title of the window.
    pub fn with_title(self, title: String) -> (r: WindowBuilder)
        ensures
            r.platform_specific == self.platform_specific,
            r.window == (WindowAttributes { title: title, ..self.window }),
    {
        let mut builder = self;
        builder.window.title = title;
        builder
    }

    /// Sets the fullscreen state that the window starts in.
    pub fn with_fullscreen(self, fullscreen: Option<Fullscreen>) -> (r: WindowBuilder)
        ensures
            r.platform_specific == self.platform_specific,
            r.window == (WindowAttributes { fullscreen: fullscreen, ..self.window }),
    {
        let mut builder = self;
        builder.window.fullscreen = fullscreen;
        builder
    }

    /// Sets whether the window starts maximized.
    pub fn with_maximized(self, maximized: bool) -> (r: WindowBuilder)
        ensures
            r.platform_specific == self.platform_specific,
            r.window == (WindowAttributes { maximized: maximized, ..self.window }),
    {
        let mut builder = self;
        builder.window.maximized = maximized;
        builder
    }

    /// Sets whether the window is shown as soon as it is built.
    pub fn with_visible(self, visible: bool) -> (r: WindowBuilder)
        ensures
            r.platform_specific == self.platform_specific,
            r.window == (WindowAttributes { visible: visible, ..self.window }),
    {
        let mut builder = self;
        builder.window.visible = visible;
        builder
    }

    /// Sets whether the background of the window is transparent.
    pub fn with_transparent(self, transparent: bool) -> (r: WindowBuilder)
        ensures
            r.platform_specific == self.platform_specific,
            r.window == (WindowAttributes { transparent: transparent, ..self.window }),
    {
        let mut builder = self;
        builder.window.transparent = transparent;
        builder
    }

    /// Sets whether the window has a border and a title bar.
    pub fn with_decorations(self, decorations: bool) -> (r: WindowBuilder)
        ensures
            r.platform_specific == self.platform_specific,
            r.window == (WindowAttributes { decorations: decorations, ..self.window }),
    {
        let mut builder = self;
        builder.window.decorations = decorations;
        builder
    }

    /// Sets whether the window stays above all others.
    pub fn with_always_on_top(self, always_on_top: bool) -> (r: WindowBuilder)
        ensures
            r.platform_specific == self.platform_specific,
            r.window == (WindowAttributes { always_on_top: always_on_top, ..self.window }),
    {
        let mut builder = self;
        builder.window.always_on_top = always_on_top;
        builder
    }

    /// Sets the icon of the window.
    pub fn with_window_icon(self, window_icon: Option<Icon>) -> (r: WindowBuilder)
        ensures
            r.platform_specific == self.platform_specific,
            r.window == (WindowAttributes { window_icon: window_icon, ..self.window }),
    {
        let mut builder = self;
        builder.window.window_icon = window_icon;
        builder
    }

    /// Builds the window: it gets the next identifier of `window_target`
    /// and the attributes of this builder, and asks to be drawn. Fails
    /// where the identifiers have run out.
    pub fn build(self, window_target: &mut EventLoopWindowTarget) -> (r: Result<Window, OsError>)
        ensures
            old(window_target).windows_made == u64::MAX ==> r is Err && *final(window_target)
                == *old(window_target),
            old(window_target).windows_made < u64::MAX ==> (r matches Ok(w) && w.is_fresh(
                WindowId(old(window_target).windows_made),
                self.window,
            ) && final(window_target).windows_made == old(window_target).windows_made + 1),
    {
        if window_target.windows_made == u64::MAX {
            return Err(OsError { code: 0 });
        }
        let id = WindowId(window_target.windows_made);
        window_target.windows_made = window_target.windows_made + 1;
        Ok(
            Window {
                id,
                attributes: self.window,
                minimized: false,
                redraw_requested: true,
                dead_key_pending: false,
                ime_position: None,
                attention: None,
                cursor_icon: CursorIcon::Default,
                cursor_position: None,
                cursor_grab: false,
                cursor_visible: true,
                dragging: false,
                monitors: Vec::new(),
            },
        )
    }
}

/// Represents a window: what it is asked to be.
#[derive(Debug, Clone)]
pub struct Window {
    pub id: WindowId,
    pub attributes: WindowAttributes,
    pub minimized: bool,
    /// The window has asked to be drawn again.
    pub redraw_requested: bool,
    /// A dead key was pressed and waits for the key it composes with.
    pub dead_key_pending: bool,
    pub ime_position: Option<PhysicalPosition>,
    pub attention: Option<UserAttentionType>,
    pub cursor_icon: CursorIcon,
    /// Where the cursor was last put, in the client area.
    pub cursor_position: Option<PhysicalPosition>,
    pub cursor_grab: bool,
    pub cursor_visible: bool,
    /// The window follows the cursor until the button is released.
    pub dragging: bool,
    /// The monitors of the system, the primary one first.
    pub monitors: Vec<MonitorHandle>,
}

impl Window {
    /// This is the window that `build` makes from an identifier and
    /// attributes: it asks to be drawn, and nothing else has happened to
    /// it.
    pub open spec fn is_fresh(&self, id: WindowId, attributes: WindowAttributes) -> bool {
        &&& self.id == id
        &&& self.attributes == attributes
        &&& !self.minimized
        &&& self.redraw_requested
        &&& !self.dead_key_pending
        &&& self.ime_position is None
        &&& self.attention is None
        &&& self.cursor_icon == CursorIcon::Default
        &&& self.cursor_position is None
        &&& !self.cursor_grab
        &&& self.cursor_visible
        &&& !self.dragging
        &&& self.monitors@.len() == 0
    }

    /// Creates a window with default attributes.
    pub fn new(event_loop: &mut EventLoopWindowTarget) -> (r: Result<Window, OsError>)
        ensures
            old(event_loop).windows_made == u64::MAX ==> r is Err && *final(event_loop)
                == *old(event_loop),
            old(event_loop).windows_made < u64::MAX ==> (r matches Ok(w) && w.is_fresh(
                WindowId(old(event_loop).windows_made),
                w.attributes,
            ) && w.attributes.is_default() && final(event_loop).windows_made == old(
                event_loop,
            ).windows_made + 1),
    {
        let builder = WindowBuilder::new();
        builder.build(event_loop)
    }

    /// Returns an identifier unique to the window.
    pub fn id(&self) -> (r: WindowId)
        ensures
            r == self.id,
    {
        self.id
    }

    /// Asks for the window to be drawn again once the pending events are done with.
    pub fn request_redraw(&mut self)
        ensures
            *final(self) == (Window { redraw_requested: true, ..*old(self) }),
    {
        self.redraw_requested = true;
    }

    /// Forgets a dead key that was pressed, so that the text typed next is not composed with it.
    pub fn reset_dead_keys(&mut self)
        ensures
            *final(self) == (Window { dead_key_pending: false, ..*old(self) }),
    {
        self.dead_key_pending = false;
    }

    /// Moves the window. A maximized window stops being maximized.
    pub fn set_outer_position(&mut self, position: PhysicalPosition)
        ensures
            *final(self) == (Window {
                attributes: WindowAttributes { position: Some(position), maximized: false, ..old(self).attributes },
                ..*old(self)
            }),
    {
        self.attributes.position = Some(position);
        self.attributes.maximized = false;
    }

    /// Resizes the client area. A maximized window stops being maximized.
    pub fn set_inner_size(&mut self, size: PhysicalSize)
        ensures
            *final(self) == (Window {
                attributes: WindowAttributes { inner_size: Some(size), maximized: false, ..old(self).attributes },
                ..*old(self)
            }),
    {
        self.attributes.inner_size = Some(size);
        self.attributes.maximized = false;
    }

    /// Sets or lifts the smallest size that the client area may take.
    pub fn set_min_inner_size(&mut self, min_size: Option<PhysicalSize>)
        ensures
            *final(self) == (Window {
                attributes: WindowAttributes { min_inner_size: min_size, ..old(self).attributes },
                ..*old(self)
            }),
    {
        self.attributes.min_inner_size = min_size;
    }

    /// Sets or lifts the largest size that the client area may take.
    pub fn set_max_inner_size(&mut self, max_size: Option<PhysicalSize>)
        ensures
            *final(self) == (Window {
                attributes: WindowAttributes { max_inner_size: max_size, ..old(self).attributes },
                ..*old(self)
            }),
    {
        self.attributes.max_inner_size = max_size;
    }

    /// Shows or hides the window.
    pub fn set_visible(&mut self, visible: bool)
        ensures
            *final(self) == (Window {
                attributes: WindowAttributes { visible: visible, ..old(self).attributes },
                ..*old(self)
            }),
    {
        self.attributes.visible = visible;
    }

    /// Sets whether the window can be resized.
    pub fn set_resizable(&mut self, resizable: bool)
        ensures
            *final(self) == (Window {
                attributes: WindowAttributes { resizable: resizable, ..old(self).attributes },
                ..*old(self)
            }),
    {
        self.attributes.resizable = resizable;
    }

    /// Maximizes the window or restores it.
    pub fn set_maximized(&mut self, maximized: bool)
        ensures
            *final(self) == (Window {
                attributes: WindowAttributes { maximized: maximized, ..old(self).attributes },
                ..*old(self)
            }),
    {
        self.attributes.maximized = maximized;
    }

    /// Makes the window fullscreen or restores it.
    pub fn set_fullscreen(&mut self, fullscreen: Option<Fullscreen>)
        ensures
            *final(self) == (Window {
                attributes: WindowAttributes { fullscreen: fullscreen, ..old(self).attributes },
                ..*old(self)
            }),
    {
        self.attributes.fullscreen = fullscreen;
    }

    /// Turns the border and the title bar on or off.
    pub fn set_decorations(&mut self, decorations: bool)
        ensures
            *final(self) == (Window {
                attributes: WindowAttributes { decorations: decorations, ..old(self).attributes },
                ..*old(self)
            }),
    {
        self.attributes.decorations = decorations;
    }

    /// Sets whether the window stays above all others.
    pub fn set_always_on_top(&mut self, always_on_top: bool)
        ensures
            *final(self) == (Window {
                attributes: WindowAttributes { always_on_top: always_on_top, ..old(self).attributes },
                ..*old(self)
            }),
    {
        self.attributes.always_on_top = always_on_top;
    }

    /// Sets or removes the icon of the window.
    pub fn set_window_icon(&mut self, window_icon: Option<Icon>)
        ensures
            *final(self) == (Window {
                attributes: WindowAttributes { window_icon: window_icon, ..old(self).attributes },
                ..*old(self)
            }),
    {
        self.attributes.window_icon = window_icon;
    }

    /// Minimizes the window or restores it.
    pub fn set_minimized(&mut self, minimized: bool)
        ensures
            *final(self) == (Window { minimized: minimized, ..*old(self) }),
    {
        self.minimized = minimized;
    }

    /// Sets where the candidate box of an input method appears, in the client area.
    pub fn set_ime_position(&mut self, position: PhysicalPosition)
        ensures
            *final(self) == (Window { ime_position: Some(position), ..*old(self) }),
    {
        self.ime_position = Some(position);
    }

    /// Asks for the user's attention, or takes the request back with `None`.
    pub fn request_user_attention(&mut self, request_type: Option<UserAttentionType>)
        ensures
            *final(self) == (Window { attention: request_type, ..*old(self) }),
    {
        self.attention = request_type;
    }

    /// Sets the icon of the cursor over the window.
    pub fn set_cursor_icon(&mut self, cursor: CursorIcon)
        ensures
            *final(self) == (Window { cursor_icon: cursor, ..*old(self) }),
    {
        self.cursor_icon = cursor;
    }

    /// Shows or hides the cursor over the window.
    pub fn set_cursor_visible(&mut self, visible: bool)
        ensures
            *final(self) == (Window { cursor_visible: visible, ..*old(self) }),
    {
        self.cursor_visible = visible;
    }

    /// The position of the client area, where the window has one.
    pub fn inner_position(&self) -> (r: Result<PhysicalPosition, NotSupportedError>)
        ensures
            r == (match self.attributes.position {
                Some(p) => Ok::<PhysicalPosition, NotSupportedError>(p),
                None => Err(NotSupportedError {  }),
            }),
    {
        match self.attributes.position {
            Some(p) => Ok(p),
            None => Err(NotSupportedError {  }),
        }
    }

    /// The position of the window, where it has one. With no frame
    /// around the client area, this is the position of the client area.
    pub fn outer_position(&self) -> (r: Result<PhysicalPosition, NotSupportedError>)
        ensures
            r == (match self.attributes.position {
                Some(p) => Ok::<PhysicalPosition, NotSupportedError>(p),
                None => Err(NotSupportedError {  }),
            }),
    {
        self.inner_position()
    }

    /// The size of the client area; empty while none was asked for.
    pub fn inner_size(&self) -> (r: PhysicalSize)
        ensures
            r == (match self.attributes.inner_size {
                Some(s) => s,
                None => PhysicalSize { width: 0, height: 0 },
            }),
    {
        match self.attributes.inner_size {
            Some(s) => s,
            None => PhysicalSize { width: 0, height: 0 },
        }
    }

    /// The size of the window. With no frame around the client area, this
    /// is the size of the client area.
    pub fn outer_size(&self) -> (r: PhysicalSize)
        ensures
            r == (match self.attributes.inner_size {
                Some(s) => s,
                None => PhysicalSize { width: 0, height: 0 },
            }),
    {
        self.inner_size()
    }

    /// Modifies the title of the window.
    pub fn set_title(&mut self, title: &str)
        ensures
            final(self).attributes.title@ == title@,
            *final(self) == (Window {
                attributes: WindowAttributes {
                    title: final(self).attributes.title,
                    ..old(self).attributes
                },
                ..*old(self)
            }),
    {
        self.attributes.title = title.to_owned();
    }

    /// Gets the window's current maximized state.
    pub fn is_maximized(&self) -> (r: bool)
        ensures
            r == self.attributes.maximized,
    {
        self.attributes.maximized
    }

    /// Gets the window's current fullscreen state.
    pub fn fullscreen(&self) -> (r: Option<Fullscreen>)
        ensures
            r == self.attributes.fullscreen,
    {
        self.attributes.fullscreen
    }

    /// Puts the cursor at a position in the client area.
    pub fn set_cursor_position(&mut self, position: PhysicalPosition) -> (r: Result<
        (),
        ExternalError,
    >)
        ensures
            r is Ok,
            *final(self) == (Window { cursor_position: Some(position), ..*old(self) }),
    {
        self.cursor_position = Some(position);
        Ok(())
    }

    /// Grabs the cursor, so that it cannot leave the window, or lets it
    /// go.
    pub fn set_cursor_grab(&mut self, grab: bool) -> (r: Result<(), ExternalError>)
        ensures
            r is Ok,
            *final(self) == (Window { cursor_grab: grab, ..*old(self) }),
    {
        self.cursor_grab = grab;
        Ok(())
    }

    /// Moves the window with the cursor until the button is released. The
    /// cursor is let go of.
    pub fn drag_window(&mut self) -> (r: Result<(), ExternalError>)
        ensures
            r is Ok,
            *final(self) == (Window { dragging: true, cursor_grab: false, ..*old(self) }),
    {
        self.dragging = true;
        self.cursor_grab = false;
        Ok(())
    }

    /// The monitor that the window is on: the one it is fullscreen on,
    /// else the primary one.
    pub fn current_monitor(&self) -> (r: Option<MonitorHandle>)
        ensures
            r == (match self.attributes.fullscreen {
                Some(Fullscreen::Exclusive(mode)) => Some(mode.monitor),
                Some(Fullscreen::Borderless(Some(monitor))) => Some(monitor),
                _ => if self.monitors@.len() > 0 {
                    Some(self.monitors@[0])
                } else {
                    None
                },
            }),
    {
        match self.attributes.fullscreen {
            Some(Fullscreen::Exclusive(mode)) => Some(mode.monitor),
            Some(Fullscreen::Borderless(Some(monitor))) => Some(monitor),
            _ => self.primary_monitor(),
        }
    }

    /// All the monitors of the system.
    pub fn available_monitors(&self) -> (r: Vec<MonitorHandle>)
        ensures
            r@ == self.monitors@,
    {
        let mut all: Vec<MonitorHandle> = Vec::new();
        let mut i: usize = 0;
        while i < self.monitors.len()
            invariant
                i <= self.monitors.len(),
                all@ == self.monitors@.take(i as int),
            decreases self.monitors.len() - i,
        {
            all.push(self.monitors[i]);
            assert(self.monitors@.take(i + 1) =~= self.monitors@.take(i as int).push(
                self.monitors@[i as int],
            ));
            i += 1;
        }
        assert(self.monitors@.take(i as int) =~= self.monitors@);
        all
    }

    /// The primary monitor of the system, where there is one.
    pub fn primary_monitor(&self) -> (r: Option<MonitorHandle>)
        ensures
            r == (if self.monitors@.len() > 0 {
                Some(self.monitors@[0])
            } else {
                None
            }),
    {
        if self.monitors.len() > 0 {
            Some(self.monitors[0])
        } else {
            None
        }
    }

    /// What is left to do when the window goes away: a window that holds
    /// a monitor in an exclusive video mode gives it back.
    pub fn release(&mut self)
        ensures
            old(self).attributes.fullscreen matches Some(Fullscreen::Exclusive(_)) ==> *final(self)
                == (Window {
                attributes: WindowAttributes { fullscreen: None, ..old(self).attributes },
                ..*old(self)
            }),
            !(old(self).attributes.fullscreen matches Some(Fullscreen::Exclusive(_)))
                ==> *final(self) == *old(self),
    {
        if let Some(Fullscreen::Exclusive(_)) = self.fullscreen() {
            self.set_fullscreen(None);
        }
    }
}

} // verus!

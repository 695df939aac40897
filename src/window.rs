use vstd::prelude::*;

verus! {

/// Scale factors are fixed-point numbers in thousandths: `1000` is a scale
/// factor of one.
pub const SCALE_ONE: u32 = 1000;

/// A point in whole pixels.
#[derive(Debug, Clone, Copy, PartialEq, Eq, Structural)]
pub struct IVec2 {
    pub x: i32,
    pub y: i32,
}

/// Where a monitor is chosen from.
#[derive(Debug, Clone, Copy, PartialEq, Eq, Structural)]
pub enum MonitorSelection {
    /// The monitor the window is on.
    Current,
    /// The system's primary monitor.
    Primary,
    /// The monitor at this index among the available monitors.
    Index(usize),
}

/// Where a window is placed.
#[derive(Debug, Clone, Copy, PartialEq, Eq, Structural)]
pub enum WindowPosition {
    /// The window manager decides.
    Automatic,
    /// Centered on the selected monitor.
    Centered(MonitorSelection),
    /// At these physical coordinates.
    At(i32, i32),
}

/// How a window occupies the screen.
#[derive(Debug, Clone, Copy, PartialEq, Eq, Structural)]
pub enum WindowMode {
    /// An ordinary window.
    Windowed,
    /// Covers the monitor without changing its video mode.
    BorderlessFullscreen,
    /// Exclusive fullscreen in the video mode closest to the window's size.
    SizedFullscreen,
    /// Exclusive fullscreen in the monitor's largest video mode.
    Fullscreen,
}

/// The size of a window.
///
/// The physical size is in pixels of the screen; the logical size is the
/// physical size divided by the effective scale factor, which is the
/// override where there is one and the scale factor the system reported
/// otherwise.
#[derive(Debug, Clone, Copy, PartialEq, Eq, Structural)]
pub struct WindowResolution {
    pub physical_width: u32,
    pub physical_height: u32,
    /// The scale factor the system reported, in thousandths.
    pub scale_factor: u32,
    /// A scale factor, in thousandths, that replaces the system's.
    pub scale_factor_override: Option<u32>,
}

/// The shape of the mouse cursor over a window.
#[derive(Debug, Clone, Copy, PartialEq, Eq, Structural)]
pub enum CursorIcon {
    Default,
    Crosshair,
    Hand,
    Arrow,
    Move,
    Text,
    Wait,
    Help,
    Progress,
    NotAllowed,
    ContextMenu,
    Cell,
    VerticalText,
    Alias,
    Copy,
    NoDrop,
    Grab,
    Grabbing,
    AllScroll,
    ZoomIn,
    ZoomOut,
    EResize,
    NResize,
    NeResize,
    NwResize,
    SResize,
    SeResize,
    SwResize,
    WResize,
    EwResize,
    NsResize,
    NeswResize,
    NwseResize,
    ColResize,
    RowResize,
}

/// How the cursor is held by a window.
#[derive(Debug, Clone, Copy, PartialEq, Eq, Structural)]
pub enum CursorGrabMode {
    /// The cursor moves freely.
    Free,
    /// The cursor stays inside the window.
    Confined,
    /// The cursor stays where it is.
    Locked,
}

/// The cursor's state over a window.
#[derive(Debug, Clone, Copy, PartialEq, Eq, Structural)]
pub struct Cursor {
    pub icon: CursorIcon,
    pub visible: bool,
    pub grab_mode: CursorGrabMode,
    /// Whether the window receives cursor events.
    pub hit_test: bool,
}

/// Where a window stands among the others.
#[derive(Debug, Clone, Copy, PartialEq, Eq, Structural)]
pub enum WindowLevel {
    AlwaysOnBottom,
    Normal,
    AlwaysOnTop,
}

/// A window's colour theme.
#[derive(Debug, Clone, Copy, PartialEq, Eq, Structural)]
pub enum WindowTheme {
    Light,
    Dark,
}

/// Bounds on the logical size a user can resize a window to.
///
/// A missing maximum is no maximum.
#[derive(Debug, Clone, Copy, PartialEq, Eq, Structural)]
pub struct WindowResizeConstraints {
    pub min_width: u32,
    pub min_height: u32,
    pub max_width: Option<u32>,
    pub max_height: Option<u32>,
}

/// A minimum of at least one, and a maximum of at least the minimum.
pub open spec fn checked_bound(min: u32, max: Option<u32>) -> (u32, Option<u32>) {
    let lo: u32 = if min < 1 { 1 } else { min };
    let hi = match max {
        Some(m) => Some(if m < lo { lo } else { m }),
        None => None,
    };
    (lo, hi)
}

impl WindowResizeConstraints {
    /// The constraints with each minimum raised to at least one and each
    /// maximum raised to at least its minimum.
    pub fn check_constraints(&self) -> (r: WindowResizeConstraints)
        ensures
            (r.min_width, r.max_width) == checked_bound(self.min_width, self.max_width),
            (r.min_height, r.max_height) == checked_bound(self.min_height, self.max_height),
    {
        let min_width: u32 = if self.min_width < 1 { 1 } else { self.min_width };
        let min_height: u32 = if self.min_height < 1 { 1 } else { self.min_height };
        let max_width = match self.max_width {
            Some(m) => Some(if m < min_width { min_width } else { m }),
            None => None,
        };
        let max_height = match self.max_height {
            Some(m) => Some(if m < min_height { min_height } else { m }),
            None => None,
        };
        WindowResizeConstraints { min_width, min_height, max_width, max_height }
    }
}

/// The declared description of a window, owned by the application.
///
/// Lengths and positions are whole pixels; scale factors are in thousandths.
#[derive(Debug)]
pub struct WindowDescriptor {
    pub title: String,
    pub mode: WindowMode,
    pub position: WindowPosition,
    pub resolution: WindowResolution,
    pub cursor: Cursor,
    /// The cursor's position inside the window in physical pixels, with
    /// the origin at the bottom left; none while the cursor is outside.
    pub physical_cursor_position: Option<IVec2>,
    pub resizable: bool,
    pub decorations: bool,
    pub transparent: bool,
    pub focused: bool,
    pub window_level: WindowLevel,
    pub window_theme: Option<WindowTheme>,
    /// Where the input method's candidate box goes, in logical pixels.
    pub ime_position: IVec2,
    pub resize_constraints: WindowResizeConstraints,
    /// A request to maximize (`true`) or unmaximize the window, taken once.
    pub maximize_request: Option<bool>,
    /// A request to minimize (`true`) or unminimize the window, taken once.
    pub minimize_request: Option<bool>,
}

impl Clone for WindowDescriptor {
    fn clone(&self) -> (r: Self)
        ensures
            r == *self,
    {
        WindowDescriptor {
            title: self.title.clone(),
            mode: self.mode,
            position: self.position,
            resolution: self.resolution,
            cursor: self.cursor,
            physical_cursor_position: self.physical_cursor_position,
            resizable: self.resizable,
            decorations: self.decorations,
            transparent: self.transparent,
            focused: self.focused,
            window_level: self.window_level,
            window_theme: self.window_theme,
            ime_position: self.ime_position,
            resize_constraints: self.resize_constraints,
            maximize_request: self.maximize_request,
            minimize_request: self.minimize_request,
        }
    }
}

/// The scale factor in force: the override where there is one.
pub open spec fn effective_scale(r: WindowResolution) -> u32 {
    match r.scale_factor_override {
        Some(s) => s,
        None => r.scale_factor,
    }
}

/// Positive scale factors.
pub open spec fn resolution_valid(r: WindowResolution) -> bool {
    &&& r.scale_factor > 0
    &&& match r.scale_factor_override {
        Some(s) => s > 0,
        None => true,
    }
}

/// A physical length in logical pixels, rounded down, and at most
/// `u32::MAX`.
pub open spec fn to_logical(physical: u32, scale: u32) -> int {
    let l = physical as int * SCALE_ONE as int / scale as int;
    if l > u32::MAX { u32::MAX as int } else { l }
}

impl WindowResolution {
    /// The scale factor in force.
    pub fn scale(&self) -> (r: u32)
        ensures
            r == effective_scale(*self),
    {
        match self.scale_factor_override {
            Some(s) => s,
            None => self.scale_factor,
        }
    }

    /// The logical width, in whole pixels.
    pub fn width(&self) -> (r: u32)
        requires
            resolution_valid(*self),
        ensures
            r == to_logical(self.physical_width, effective_scale(*self)),
    {
        let s = self.scale();
        let w = self.physical_width as u64 * SCALE_ONE as u64 / s as u64;
        proof {
            lemma_logical_fits(self.physical_width, s);
        }
        if w > u32::MAX as u64 { u32::MAX } else { w as u32 }
    }

    /// The logical height, in whole pixels.
    pub fn height(&self) -> (r: u32)
        requires
            resolution_valid(*self),
        ensures
            r == to_logical(self.physical_height, effective_scale(*self)),
    {
        let s = self.scale();
        let h = self.physical_height as u64 * SCALE_ONE as u64 / s as u64;
        proof {
            lemma_logical_fits(self.physical_height, s);
        }
        if h > u32::MAX as u64 { u32::MAX } else { h as u32 }
    }
}

proof fn lemma_logical_fits(physical: u32, scale: u32)
    requires
        scale > 0,
    ensures
        0 <= physical as int * 1000 / scale as int <= physical as int * 1000,
{
    let p = physical as int * 1000;
    assert(p / scale as int <= p) by (nonlinear_arith)
        requires
            p >= 0,
            scale >= 1,
    ;
    assert(p / scale as int >= 0) by (nonlinear_arith)
        requires
            p >= 0,
            scale >= 1,
    ;
}

} // verus!

//! The platform's vocabulary: values as the windowing backend reports them.
//!
//! Enumerations that the backend may extend in later versions carry an
//! `Unrecognized` variant, which stands for any value this library does not
//! know.
use vstd::prelude::*;

use crate::window::IVec2;

verus! {

/// The state of a key or button.
#[derive(Debug, Clone, Copy, PartialEq, Eq, Structural)]
pub enum ElementState {
    Pressed,
    Released,
    Unrecognized,
}

/// A mouse button.
#[derive(Debug, Clone, Copy, PartialEq, Eq, Structural)]
pub enum MouseButton {
    Left,
    Right,
    Middle,
    Other(u16),
    Unrecognized,
}

/// A key's meaning under the current keyboard layout.
#[derive(Debug, Clone, Copy, PartialEq, Eq, Structural)]
pub enum Key {
    /// A key that produces one character.
    Character(char),
    Escape,
    F1,
    F2,
    F3,
    F4,
    F5,
    F6,
    F7,
    F8,
    F9,
    F10,
    F11,
    F12,
    F13,
    F14,
    F15,
    F16,
    F17,
    F18,
    F19,
    F20,
    F21,
    F22,
    F23,
    F24,
    PrintScreen,
    ScrollLock,
    Pause,
    Insert,
    Home,
    Delete,
    End,
    PageDown,
    PageUp,
    ArrowLeft,
    ArrowUp,
    ArrowRight,
    ArrowDown,
    Backspace,
    Enter,
    Space,
    Compose,
    NumLock,
    Convert,
    KanaMode,
    KanjiMode,
    Alt,
    Control,
    Shift,
    Super,
    LaunchMail,
    MediaPlay,
    MediaStop,
    AudioVolumeMute,
    GoHome,
    BrowserForward,
    BrowserBack,
    MediaTrackNext,
    MediaPlayPause,
    Power,
    MediaTrackPrevious,
    Tab,
    BrowserStop,
    AudioVolumeDown,
    AudioVolumeUp,
    WakeUp,
    Copy,
    Paste,
    Cut,
    /// Any other key.
    Other,
}

/// A key press or release.
#[derive(Debug, Clone, Copy, PartialEq, Eq, Structural)]
pub struct KeyEvent {
    /// The physical key's scan code.
    pub scan_code: u32,
    pub logical_key: Key,
    pub state: ElementState,
}

/// The phase of a touch.
#[derive(Debug, Clone, Copy, PartialEq, Eq, Structural)]
pub enum TouchPhase {
    Started,
    Moved,
    Ended,
    Cancelled,
    Unrecognized,
}

/// The pressure of a touch, over the number type `F`.
#[derive(Debug, PartialEq)]
pub enum Force<F> {
    /// A force with the largest force the device can report, and the angle
    /// of a stylus where there is one.
    Calibrated { force: F, max_possible_force: F, altitude_angle: Option<F> },
    /// A force between zero and one.
    Normalized(F),
    Unrecognized,
}

/// A touch on a touch screen, over the number type `F`.
#[derive(Debug, PartialEq)]
pub struct Touch<F> {
    pub phase: TouchPhase,
    pub force: Option<Force<F>>,
    /// The touch's identifier, the same over all of its phases.
    pub id: u64,
}

/// How far a mouse wheel turned, over the number type `F`.
#[derive(Debug, PartialEq)]
pub enum MouseScrollDelta<F> {
    /// In lines (rows, columns).
    LineDelta(F, F),
    /// In pixels.
    PixelDelta(F, F),
    Unrecognized,
}

/// An event for one native window, over the number type `F`.
#[derive(Debug, PartialEq)]
pub enum WindowEvent<F> {
    /// The client area's new physical size.
    Resized { width: u32, height: u32 },
    CloseRequested,
    KeyboardInput(KeyEvent),
    /// The cursor's new physical position in the window.
    CursorMoved(IVec2),
    CursorEntered,
    CursorLeft,
    MouseInput { state: ElementState, button: MouseButton },
    MouseWheel(MouseScrollDelta<F>),
    /// A touch, with its logical position in the window at the window's
    /// present scale factor.
    Touch { touch: Touch<F>, location: (F, F) },
    /// Text from the input method.
    ReceivedImeText(String),
    Focused(bool),
    DroppedFile(String),
    HoveredFile(String),
    HoveredFileCancelled,
    /// The window's new physical position.
    Moved(IVec2),
    ThemeChanged(Theme),
    Destroyed,
    /// Any other window event.
    Other,
}

/// The platform's colour theme.
#[derive(Debug, Clone, Copy, PartialEq, Eq, Structural)]
pub enum Theme {
    Light,
    Dark,
    Unrecognized,
}

/// A native cursor shape.
#[derive(Debug, Clone, Copy, PartialEq, Eq, Structural)]
pub enum CursorIcon {
    Default,
    Crosshair,
    Hand,
    Arrow,
    Move,
    Text,
    Wait,
    Help,
    Progress,
    NotAllowed,
    ContextMenu,
    Cell,
    VerticalText,
    Alias,
    Copy,
    NoDrop,
    Grab,
    Grabbing,
    AllScroll,
    ZoomIn,
    ZoomOut,
    EResize,
    NResize,
    NeResize,
    NwResize,
    SResize,
    SeResize,
    SwResize,
    WResize,
    EwResize,
    NsResize,
    NeswResize,
    NwseResize,
    ColResize,
    RowResize,
}

} // verus!

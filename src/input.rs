//! The application's input vocabulary: events as the application consumes
//! them.
use vstd::prelude::*;

use crate::window::{IVec2, WindowTheme};

verus! {

/// The state of a key or button.
#[derive(Debug, Clone, Copy, PartialEq, Eq, Structural)]
pub enum ButtonState {
    Pressed,
    Released,
}

/// A mouse button.
#[derive(Debug, Clone, Copy, PartialEq, Eq, Structural)]
pub enum MouseButton {
    Left,
    Right,
    Middle,
    Other(u16),
}

/// A key, named by what it means under the current layout.
#[derive(Debug, Clone, Copy, PartialEq, Eq, Structural)]
pub enum KeyCode {
    Key1,
    Key2,
    Key3,
    Key4,
    Key5,
    Key6,
    Key7,
    Key8,
    Key9,
    Key0,
    A,
    B,
    C,
    D,
    E,
    F,
    G,
    H,
    I,
    J,
    K,
    L,
    M,
    N,
    O,
    P,
    Q,
    R,
    S,
    T,
    U,
    V,
    W,
    X,
    Y,
    Z,
    Plus,
    Asterisk,
    Caret,
    BracketLeft,
    Apostrophe,
    Backslash,
    Colon,
    Comma,
    Minus,
    Equals,
    Grave,
    Period,
    BracketRight,
    Semicolon,
    Slash,
    Escape,
    F1,
    F2,
    F3,
    F4,
    F5,
    F6,
    F7,
    F8,
    F9,
    F10,
    F11,
    F12,
    F13,
    F14,
    F15,
    F16,
    F17,
    F18,
    F19,
    F20,
    F21,
    F22,
    F23,
    F24,
    Snapshot,
    Scroll,
    Pause,
    Insert,
    Home,
    Delete,
    End,
    PageDown,
    PageUp,
    Left,
    Up,
    Right,
    Down,
    Back,
    Return,
    Space,
    Compose,
    Numlock,
    Convert,
    Kana,
    Kanji,
    AltLeft,
    ControlLeft,
    ShiftLeft,
    SuperLeft,
    Mail,
    MediaSelect,
    MediaStop,
    Mute,
    MyComputer,
    NavigateForward,
    NavigateBackward,
    NextTrack,
    PlayPause,
    Power,
    PrevTrack,
    Tab,
    Stop,
    VolumeDown,
    VolumeUp,
    Wake,
    Copy,
    Paste,
    Cut,
}

/// A key press or release in a window.
#[derive(Debug, Clone, Copy, PartialEq, Eq, Structural)]
pub struct KeyboardInput {
    /// The physical key's scan code, present whether or not the key is
    /// known.
    pub scan_code: u32,
    pub state: ButtonState,
    /// The key, where it is one this library knows.
    pub key_code: Option<KeyCode>,
    pub window: u64,
}

/// A mouse button press or release in a window.
#[derive(Debug, Clone, Copy, PartialEq, Eq, Structural)]
pub struct MouseButtonInput {
    pub button: MouseButton,
    pub state: ButtonState,
    pub window: u64,
}

/// The phase of a touch.
#[derive(Debug, Clone, Copy, PartialEq, Eq, Structural)]
pub enum TouchPhase {
    Started,
    Moved,
    Ended,
    Canceled,
}

/// The pressure of a touch, over the number type `F`.
#[derive(Debug, PartialEq)]
pub enum ForceTouch<F> {
    Calibrated { force: F, max_possible_force: F, altitude_angle: Option<F> },
    Normalized(F),
}

/// A touch, over the number type `F`.
#[derive(Debug, PartialEq)]
pub struct TouchInput<F> {
    pub phase: TouchPhase,
    /// Logical position in the window.
    pub position: (F, F),
    pub force: Option<ForceTouch<F>>,
    pub id: u64,
}

/// The unit a mouse wheel's motion is measured in.
#[derive(Debug, Clone, Copy, PartialEq, Eq, Structural)]
pub enum MouseScrollUnit {
    Line,
    Pixel,
}

/// A mouse wheel's motion in a window, over the number type `F`.
#[derive(Debug, PartialEq)]
pub struct MouseWheel<F> {
    pub unit: MouseScrollUnit,
    pub x: F,
    pub y: F,
    pub window: u64,
}

/// An event for the application, over the number type `F`.
#[derive(Debug, PartialEq)]
pub enum AppEvent<F> {
    /// The window's new logical size.
    WindowResized { window: u64, width: u32, height: u32 },
    WindowCloseRequested { window: u64 },
    KeyboardInput(KeyboardInput),
    /// The cursor's new physical position in the window.
    CursorMoved { window: u64, physical_position: IVec2 },
    CursorEntered { window: u64 },
    CursorLeft { window: u64 },
    MouseButtonInput(MouseButtonInput),
    MouseWheel(MouseWheel<F>),
    TouchInput(TouchInput<F>),
    ReceivedCharacter { window: u64, char: char },
    WindowFocused { window: u64, focused: bool },
    DroppedFile { window: u64, path: String },
    HoveredFile { window: u64, path: String },
    HoveredFileCanceled { window: u64 },
    WindowMoved { window: u64, position: IVec2 },
    WindowThemeChanged { window: u64, theme: WindowTheme },
    WindowDestroyed { window: u64 },
}

} // verus!

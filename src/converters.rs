//! Conversion between the platform's vocabulary and the application's.
use vstd::prelude::*;

use crate::input::{
    ButtonState, ForceTouch, KeyCode, KeyboardInput, MouseButton, MouseScrollUnit, MouseWheel, TouchInput,
    TouchPhase,
};
use crate::platform::{self, ElementState, Force, Key, KeyEvent, MouseScrollDelta, Theme, Touch};
use crate::window::{CursorIcon, WindowLevel, WindowTheme};

verus! {

/// The platform reported a value of an enumeration that this library does
/// not know; a newer platform version added it.
#[derive(Debug, Clone, Copy, PartialEq, Eq, Structural)]
pub enum UnsupportedVariant {
    ElementState,
    MouseButton,
    TouchPhase,
    Force,
    MouseScrollDelta,
    Theme,
}

/// The button state for a platform element state.
pub open spec fn button_state_of(state: ElementState) -> Result<ButtonState, UnsupportedVariant> {
    match state {
        ElementState::Pressed => Ok(ButtonState::Pressed),
        ElementState::Released => Ok(ButtonState::Released),
        ElementState::Unrecognized => Err(UnsupportedVariant::ElementState),
    }
}

/// Converts a key or button state; an unknown state is an error.
pub fn convert_element_state(element_state: ElementState) -> (r: Result<ButtonState, UnsupportedVariant>)
    ensures
        r == button_state_of(element_state),
{
    match element_state {
        ElementState::Pressed => Ok(ButtonState::Pressed),
        ElementState::Released => Ok(ButtonState::Released),
        ElementState::Unrecognized => Err(UnsupportedVariant::ElementState),
    }
}

/// The mouse button for a platform mouse button.
pub open spec fn mouse_button_of(mouse_button: platform::MouseButton) -> Result<MouseButton, UnsupportedVariant> {
    match mouse_button {
        platform::MouseButton::Left => Ok(MouseButton::Left),
        platform::MouseButton::Right => Ok(MouseButton::Right),
        platform::MouseButton::Middle => Ok(MouseButton::Middle),
        platform::MouseButton::Other(v) => Ok(MouseButton::Other(v)),
        platform::MouseButton::Unrecognized => Err(UnsupportedVariant::MouseButton),
    }
}

/// Converts a mouse button; an unknown button is an error.
pub fn convert_mouse_button(mouse_button: platform::MouseButton) -> (r: Result<MouseButton, UnsupportedVariant>)
    ensures
        r == mouse_button_of(mouse_button),
{
    match mouse_button {
        platform::MouseButton::Left => Ok(MouseButton::Left),
        platform::MouseButton::Right => Ok(MouseButton::Right),
        platform::MouseButton::Middle => Ok(MouseButton::Middle),
        platform::MouseButton::Other(v) => Ok(MouseButton::Other(v)),
        platform::MouseButton::Unrecognized => Err(UnsupportedVariant::MouseButton),
    }
}

/// The key code of a platform key: letters, digits, punctuation, function,
/// navigation, modifier and media keys; none for any other key.
pub open spec fn key_code_of(key: Key) -> Option<KeyCode> {
    match key {
        Key::Character('1') => Some(KeyCode::Key1),
        Key::Character('2') => Some(KeyCode::Key2),
        Key::Character('3') => Some(KeyCode::Key3),
        Key::Character('4') => Some(KeyCode::Key4),
        Key::Character('5') => Some(KeyCode::Key5),
        Key::Character('6') => Some(KeyCode::Key6),
        Key::Character('7') => Some(KeyCode::Key7),
        Key::Character('8') => Some(KeyCode::Key8),
        Key::Character('9') => Some(KeyCode::Key9),
        Key::Character('0') => Some(KeyCode::Key0),
        Key::Character('A') => Some(KeyCode::A),
        Key::Character('B') => Some(KeyCode::B),
        Key::Character('C') => Some(KeyCode::C),
        Key::Character('D') => Some(KeyCode::D),
        Key::Character('E') => Some(KeyCode::E),
        Key::Character('F') => Some(KeyCode::F),
        Key::Character('G') => Some(KeyCode::G),
        Key::Character('H') => Some(KeyCode::H),
        Key::Character('I') => Some(KeyCode::I),
        Key::Character('J') => Some(KeyCode::J),
        Key::Character('K') => Some(KeyCode::K),
        Key::Character('L') => Some(KeyCode::L),
        Key::Character('M') => Some(KeyCode::M),
        Key::Character('N') => Some(KeyCode::N),
        Key::Character('O') => Some(KeyCode::O),
        Key::Character('P') => Some(KeyCode::P),
        Key::Character('Q') => Some(KeyCode::Q),
        Key::Character('R') => Some(KeyCode::R),
        Key::Character('S') => Some(KeyCode::S),
        Key::Character('T') => Some(KeyCode::T),
        Key::Character('U') => Some(KeyCode::U),
        Key::Character('V') => Some(KeyCode::V),
        Key::Character('W') => Some(KeyCode::W),
        Key::Character('X') => Some(KeyCode::X),
        Key::Character('Y') => Some(KeyCode::Y),
        Key::Character('Z') => Some(KeyCode::Z),
        Key::Character('+') => Some(KeyCode::Plus),
        Key::Character('*') => Some(KeyCode::Asterisk),
        Key::Character('^') => Some(KeyCode::Caret),
        Key::Character('[') => Some(KeyCode::BracketLeft),
        Key::Character('\'') => Some(KeyCode::Apostrophe),
        Key::Character('\\') => Some(KeyCode::Backslash),
        Key::Character(':') => Some(KeyCode::Colon),
        Key::Character(',') => Some(KeyCode::Comma),
        Key::Character('-') => Some(KeyCode::Minus),
        Key::Character('=') => Some(KeyCode::Equals),
        Key::Character('`') => Some(KeyCode::Grave),
        Key::Character('.') => Some(KeyCode::Period),
        Key::Character(']') => Some(KeyCode::BracketRight),
        Key::Character(';') => Some(KeyCode::Semicolon),
        Key::Character('/') => Some(KeyCode::Slash),
        Key::Escape => Some(KeyCode::Escape),
        Key::F1 => Some(KeyCode::F1),
        Key::F2 => Some(KeyCode::F2),
        Key::F3 => Some(KeyCode::F3),
        Key::F4 => Some(KeyCode::F4),
        Key::F5 => Some(KeyCode::F5),
        Key::F6 => Some(KeyCode::F6),
        Key::F7 => Some(KeyCode::F7),
        Key::F8 => Some(KeyCode::F8),
        Key::F9 => Some(KeyCode::F9),
        Key::F10 => Some(KeyCode::F10),
        Key::F11 => Some(KeyCode::F11),
        Key::F12 => Some(KeyCode::F12),
        Key::F13 => Some(KeyCode::F13),
        Key::F14 => Some(KeyCode::F14),
        Key::F15 => Some(KeyCode::F15),
        Key::F16 => Some(KeyCode::F16),
        Key::F17 => Some(KeyCode::F17),
        Key::F18 => Some(KeyCode::F18),
        Key::F19 => Some(KeyCode::F19),
        Key::F20 => Some(KeyCode::F20),
        Key::F21 => Some(KeyCode::F21),
        Key::F22 => Some(KeyCode::F22),
        Key::F23 => Some(KeyCode::F23),
        Key::F24 => Some(KeyCode::F24),
        Key::PrintScreen => Some(KeyCode::Snapshot),
        Key::ScrollLock => Some(KeyCode::Scroll),
        Key::Pause => Some(KeyCode::Pause),
        Key::Insert => Some(KeyCode::Insert),
        Key::Home => Some(KeyCode::Home),
        Key::Delete => Some(KeyCode::Delete),
        Key::End => Some(KeyCode::End),
        Key::PageDown => Some(KeyCode::PageDown),
        Key::PageUp => Some(KeyCode::PageUp),
        Key::ArrowLeft => Some(KeyCode::Left),
        Key::ArrowUp => Some(KeyCode::Up),
        Key::ArrowRight => Some(KeyCode::Right),
        Key::ArrowDown => Some(KeyCode::Down),
        Key::Backspace => Some(KeyCode::Back),
        Key::Enter => Some(KeyCode::Return),
        Key::Space => Some(KeyCode::Space),
        Key::Compose => Some(KeyCode::Compose),
        Key::NumLock => Some(KeyCode::Numlock),
        Key::Convert => Some(KeyCode::Convert),
        Key::KanaMode => Some(KeyCode::Kana),
        Key::KanjiMode => Some(KeyCode::Kanji),
        Key::Alt => Some(KeyCode::AltLeft),
        Key::Control => Some(KeyCode::ControlLeft),
        Key::Shift => Some(KeyCode::ShiftLeft),
        Key::Super => Some(KeyCode::SuperLeft),
        Key::LaunchMail => Some(KeyCode::Mail),
        Key::MediaPlay => Some(KeyCode::MediaSelect),
        Key::MediaStop => Some(KeyCode::MediaStop),
        Key::AudioVolumeMute => Some(KeyCode::Mute),
        Key::GoHome => Some(KeyCode::MyComputer),
        Key::BrowserForward => Some(KeyCode::NavigateForward),
        Key::BrowserBack => Some(KeyCode::NavigateBackward),
        Key::MediaTrackNext => Some(KeyCode::NextTrack),
        Key::MediaPlayPause => Some(KeyCode::PlayPause),
        Key::Power => Some(KeyCode::Power),
        Key::MediaTrackPrevious => Some(KeyCode::PrevTrack),
        Key::Tab => Some(KeyCode::Tab),
        Key::BrowserStop => Some(KeyCode::Stop),
        Key::AudioVolumeDown => Some(KeyCode::VolumeDown),
        Key::AudioVolumeUp => Some(KeyCode::VolumeUp),
        Key::WakeUp => Some(KeyCode::Wake),
        Key::Copy => Some(KeyCode::Copy),
        Key::Paste => Some(KeyCode::Paste),
        Key::Cut => Some(KeyCode::Cut),
        _ => None,
    }
}

/// Converts a platform key; a key outside the table has no key code.
pub fn convert_virtual_key_code(virtual_key_code: Key) -> (r: Option<KeyCode>)
    ensures
        r == key_code_of(virtual_key_code),
{
    let key = match virtual_key_code {
        Key::Character('1') => KeyCode::Key1,
        Key::Character('2') => KeyCode::Key2,
        Key::Character('3') => KeyCode::Key3,
        Key::Character('4') => KeyCode::Key4,
        Key::Character('5') => KeyCode::Key5,
        Key::Character('6') => KeyCode::Key6,
        Key::Character('7') => KeyCode::Key7,
        Key::Character('8') => KeyCode::Key8,
        Key::Character('9') => KeyCode::Key9,
        Key::Character('0') => KeyCode::Key0,
        Key::Character('A') => KeyCode::A,
        Key::Character('B') => KeyCode::B,
        Key::Character('C') => KeyCode::C,
        Key::Character('D') => KeyCode::D,
        Key::Character('E') => KeyCode::E,
        Key::Character('F') => KeyCode::F,
        Key::Character('G') => KeyCode::G,
        Key::Character('H') => KeyCode::H,
        Key::Character('I') => KeyCode::I,
        Key::Character('J') => KeyCode::J,
        Key::Character('K') => KeyCode::K,
        Key::Character('L') => KeyCode::L,
        Key::Character('M') => KeyCode::M,
        Key::Character('N') => KeyCode::N,
        Key::Character('O') => KeyCode::O,
        Key::Character('P') => KeyCode::P,
        Key::Character('Q') => KeyCode::Q,
        Key::Character('R') => KeyCode::R,
        Key::Character('S') => KeyCode::S,
        Key::Character('T') => KeyCode::T,
        Key::Character('U') => KeyCode::U,
        Key::Character('V') => KeyCode::V,
        Key::Character('W') => KeyCode::W,
        Key::Character('X') => KeyCode::X,
        Key::Character('Y') => KeyCode::Y,
        Key::Character('Z') => KeyCode::Z,
        Key::Character('+') => KeyCode::Plus,
        Key::Character('*') => KeyCode::Asterisk,
        Key::Character('^') => KeyCode::Caret,
        Key::Character('[') => KeyCode::BracketLeft,
        Key::Character('\'') => KeyCode::Apostrophe,
        Key::Character('\\') => KeyCode::Backslash,
        Key::Character(':') => KeyCode::Colon,
        Key::Character(',') => KeyCode::Comma,
        Key::Character('-') => KeyCode::Minus,
        Key::Character('=') => KeyCode::Equals,
        Key::Character('`') => KeyCode::Grave,
        Key::Character('.') => KeyCode::Period,
        Key::Character(']') => KeyCode::BracketRight,
        Key::Character(';') => KeyCode::Semicolon,
        Key::Character('/') => KeyCode::Slash,
        Key::Escape => KeyCode::Escape,
        Key::F1 => KeyCode::F1,
        Key::F2 => KeyCode::F2,
        Key::F3 => KeyCode::F3,
        Key::F4 => KeyCode::F4,
        Key::F5 => KeyCode::F5,
        Key::F6 => KeyCode::F6,
        Key::F7 => KeyCode::F7,
        Key::F8 => KeyCode::F8,
        Key::F9 => KeyCode::F9,
        Key::F10 => KeyCode::F10,
        Key::F11 => KeyCode::F11,
        Key::F12 => KeyCode::F12,
        Key::F13 => KeyCode::F13,
        Key::F14 => KeyCode::F14,
        Key::F15 => KeyCode::F15,
        Key::F16 => KeyCode::F16,
        Key::F17 => KeyCode::F17,
        Key::F18 => KeyCode::F18,
        Key::F19 => KeyCode::F19,
        Key::F20 => KeyCode::F20,
        Key::F21 => KeyCode::F21,
        Key::F22 => KeyCode::F22,
        Key::F23 => KeyCode::F23,
        Key::F24 => KeyCode::F24,
        Key::PrintScreen => KeyCode::Snapshot,
        Key::ScrollLock => KeyCode::Scroll,
        Key::Pause => KeyCode::Pause,
        Key::Insert => KeyCode::Insert,
        Key::Home => KeyCode::Home,
        Key::Delete => KeyCode::Delete,
        Key::End => KeyCode::End,
        Key::PageDown => KeyCode::PageDown,
        Key::PageUp => KeyCode::PageUp,
        Key::ArrowLeft => KeyCode::Left,
        Key::ArrowUp => KeyCode::Up,
        Key::ArrowRight => KeyCode::Right,
        Key::ArrowDown => KeyCode::Down,
        Key::Backspace => KeyCode::Back,
        Key::Enter => KeyCode::Return,
        Key::Space => KeyCode::Space,
        Key::Compose => KeyCode::Compose,
        Key::NumLock => KeyCode::Numlock,
        Key::Convert => KeyCode::Convert,
        Key::KanaMode => KeyCode::Kana,
        Key::KanjiMode => KeyCode::Kanji,
        Key::Alt => KeyCode::AltLeft,
        Key::Control => KeyCode::ControlLeft,
        Key::Shift => KeyCode::ShiftLeft,
        Key::Super => KeyCode::SuperLeft,
        Key::LaunchMail => KeyCode::Mail,
        Key::MediaPlay => KeyCode::MediaSelect,
        Key::MediaStop => KeyCode::MediaStop,
        Key::AudioVolumeMute => KeyCode::Mute,
        Key::GoHome => KeyCode::MyComputer,
        Key::BrowserForward => KeyCode::NavigateForward,
        Key::BrowserBack => KeyCode::NavigateBackward,
        Key::MediaTrackNext => KeyCode::NextTrack,
        Key::MediaPlayPause => KeyCode::PlayPause,
        Key::Power => KeyCode::Power,
        Key::MediaTrackPrevious => KeyCode::PrevTrack,
        Key::Tab => KeyCode::Tab,
        Key::BrowserStop => KeyCode::Stop,
        Key::AudioVolumeDown => KeyCode::VolumeDown,
        Key::AudioVolumeUp => KeyCode::VolumeUp,
        Key::WakeUp => KeyCode::Wake,
        Key::Copy => KeyCode::Copy,
        Key::Paste => KeyCode::Paste,
        Key::Cut => KeyCode::Cut,
        _ => return None,
    };
    Some(key)
}

/// Converts a key press or release in `window`. The scan code always
/// carries over; an unknown key gives no key code; an unknown state is an
/// error.
pub fn convert_keyboard_input(keyboard_input: &KeyEvent, window: u64) -> (r: Result<KeyboardInput, UnsupportedVariant>)
    ensures
        match button_state_of(keyboard_input.state) {
            Ok(state) => r == Ok::<KeyboardInput, UnsupportedVariant>(
                KeyboardInput {
                    scan_code: keyboard_input.scan_code,
                    state,
                    key_code: key_code_of(keyboard_input.logical_key),
                    window,
                },
            ),
            Err(e) => r == Err::<KeyboardInput, UnsupportedVariant>(e),
        },
{
    let state = match convert_element_state(keyboard_input.state) {
        Ok(s) => s,
        Err(e) => return Err(e),
    };
    Ok(KeyboardInput {
        scan_code: keyboard_input.scan_code,
        state,
        key_code: convert_virtual_key_code(keyboard_input.logical_key),
        window,
    })
}

/// The touch phase for a platform touch phase.
pub open spec fn touch_phase_of(phase: platform::TouchPhase) -> Result<TouchPhase, UnsupportedVariant> {
    match phase {
        platform::TouchPhase::Started => Ok(TouchPhase::Started),
        platform::TouchPhase::Moved => Ok(TouchPhase::Moved),
        platform::TouchPhase::Ended => Ok(TouchPhase::Ended),
        platform::TouchPhase::Cancelled => Ok(TouchPhase::Canceled),
        platform::TouchPhase::Unrecognized => Err(UnsupportedVariant::TouchPhase),
    }
}

/// The touch force for a platform force: both shapes kept as they are.
pub open spec fn force_of<F>(force: Force<F>) -> Result<ForceTouch<F>, UnsupportedVariant> {
    match force {
        Force::Calibrated { force, max_possible_force, altitude_angle } => Ok(
            ForceTouch::Calibrated { force, max_possible_force, altitude_angle },
        ),
        Force::Normalized(x) => Ok(ForceTouch::Normalized(x)),
        Force::Unrecognized => Err(UnsupportedVariant::Force),
    }
}

/// The touch input for a platform touch at logical position `location`.
pub open spec fn touch_input_of<F>(touch: Touch<F>, location: (F, F)) -> Result<TouchInput<F>, UnsupportedVariant> {
    match touch_phase_of(touch.phase) {
        Err(e) => Err(e),
        Ok(phase) => match touch.force {
            None => Ok(TouchInput { phase, position: location, force: None, id: touch.id }),
            Some(f) => match force_of(f) {
                Ok(force) => Ok(TouchInput { phase, position: location, force: Some(force), id: touch.id }),
                Err(e) => Err(e),
            },
        },
    }
}

/// Converts a touch whose logical position in the window is `location`.
/// The phase maps one to one, the force keeps its shape and values, and the
/// identifier carries over; an unknown phase or force is an error.
pub fn convert_touch_input<F: Copy>(touch_input: Touch<F>, location: (F, F)) -> (r: Result<TouchInput<F>, UnsupportedVariant>)
    ensures
        r == touch_input_of(touch_input, location),
{
    let phase = match touch_input.phase {
        platform::TouchPhase::Started => TouchPhase::Started,
        platform::TouchPhase::Moved => TouchPhase::Moved,
        platform::TouchPhase::Ended => TouchPhase::Ended,
        platform::TouchPhase::Cancelled => TouchPhase::Canceled,
        platform::TouchPhase::Unrecognized => return Err(UnsupportedVariant::TouchPhase),
    };
    let force = match touch_input.force {
        None => None,
        Some(Force::Calibrated { force, max_possible_force, altitude_angle }) => Some(
            ForceTouch::Calibrated { force, max_possible_force, altitude_angle },
        ),
        Some(Force::Normalized(x)) => Some(ForceTouch::Normalized(x)),
        Some(Force::Unrecognized) => return Err(UnsupportedVariant::Force),
    };
    Ok(TouchInput { phase, position: location, force, id: touch_input.id })
}

/// Converts a mouse wheel's motion in `window`. The unit carries over
/// and the amounts are not changed; an unknown delta is an error.
pub fn convert_mouse_wheel<F: Copy>(delta: MouseScrollDelta<F>, window: u64) -> (r: Result<MouseWheel<F>, UnsupportedVariant>)
    ensures
        match delta {
            MouseScrollDelta::LineDelta(x, y) => r == Ok::<MouseWheel<F>, UnsupportedVariant>(
                MouseWheel { unit: MouseScrollUnit::Line, x, y, window },
            ),
            MouseScrollDelta::PixelDelta(x, y) => r == Ok::<MouseWheel<F>, UnsupportedVariant>(
                MouseWheel { unit: MouseScrollUnit::Pixel, x, y, window },
            ),
            MouseScrollDelta::Unrecognized => r == Err::<MouseWheel<F>, UnsupportedVariant>(
                UnsupportedVariant::MouseScrollDelta,
            ),
        },
{
    match delta {
        MouseScrollDelta::LineDelta(x, y) => Ok(MouseWheel { unit: MouseScrollUnit::Line, x, y, window }),
        MouseScrollDelta::PixelDelta(x, y) => Ok(MouseWheel { unit: MouseScrollUnit::Pixel, x, y, window }),
        MouseScrollDelta::Unrecognized => Err(UnsupportedVariant::MouseScrollDelta),
    }
}

/// The native cursor shape for a cursor icon.
pub open spec fn native_cursor_icon(icon: CursorIcon) -> platform::CursorIcon {
    match icon {
        CursorIcon::Default => platform::CursorIcon::Default,
        CursorIcon::Crosshair => platform::CursorIcon::Crosshair,
        CursorIcon::Hand => platform::CursorIcon::Hand,
        CursorIcon::Arrow => platform::CursorIcon::Arrow,
        CursorIcon::Move => platform::CursorIcon::Move,
        CursorIcon::Text => platform::CursorIcon::Text,
        CursorIcon::Wait => platform::CursorIcon::Wait,
        CursorIcon::Help => platform::CursorIcon::Help,
        CursorIcon::Progress => platform::CursorIcon::Progress,
        CursorIcon::NotAllowed => platform::CursorIcon::NotAllowed,
        CursorIcon::ContextMenu => platform::CursorIcon::ContextMenu,
        CursorIcon::Cell => platform::CursorIcon::Cell,
        CursorIcon::VerticalText => platform::CursorIcon::VerticalText,
        CursorIcon::Alias => platform::CursorIcon::Alias,
        CursorIcon::Copy => platform::CursorIcon::Copy,
        CursorIcon::NoDrop => platform::CursorIcon::NoDrop,
        CursorIcon::Grab => platform::CursorIcon::Grab,
        CursorIcon::Grabbing => platform::CursorIcon::Grabbing,
        CursorIcon::AllScroll => platform::CursorIcon::AllScroll,
        CursorIcon::ZoomIn => platform::CursorIcon::ZoomIn,
        CursorIcon::ZoomOut => platform::CursorIcon::ZoomOut,
        CursorIcon::EResize => platform::CursorIcon::EResize,
        CursorIcon::NResize => platform::CursorIcon::NResize,
        CursorIcon::NeResize => platform::CursorIcon::NeResize,
        CursorIcon::NwResize => platform::CursorIcon::NwResize,
        CursorIcon::SResize => platform::CursorIcon::SResize,
        CursorIcon::SeResize => platform::CursorIcon::SeResize,
        CursorIcon::SwResize => platform::CursorIcon::SwResize,
        CursorIcon::WResize => platform::CursorIcon::WResize,
        CursorIcon::EwResize => platform::CursorIcon::EwResize,
        CursorIcon::NsResize => platform::CursorIcon::NsResize,
        CursorIcon::NeswResize => platform::CursorIcon::NeswResize,
        CursorIcon::NwseResize => platform::CursorIcon::NwseResize,
        CursorIcon::ColResize => platform::CursorIcon::ColResize,
        CursorIcon::RowResize => platform::CursorIcon::RowResize,
    }
}

/// Converts a cursor icon to the native shape of the same name.
pub fn convert_cursor_icon(cursor_icon: CursorIcon) -> (r: platform::CursorIcon)
    ensures
        r == native_cursor_icon(cursor_icon),
{
    match cursor_icon {
        CursorIcon::Default => platform::CursorIcon::Default,
        CursorIcon::Crosshair => platform::CursorIcon::Crosshair,
        CursorIcon::Hand => platform::CursorIcon::Hand,
        CursorIcon::Arrow => platform::CursorIcon::Arrow,
        CursorIcon::Move => platform::CursorIcon::Move,
        CursorIcon::Text => platform::CursorIcon::Text,
        CursorIcon::Wait => platform::CursorIcon::Wait,
        CursorIcon::Help => platform::CursorIcon::Help,
        CursorIcon::Progress => platform::CursorIcon::Progress,
        CursorIcon::NotAllowed => platform::CursorIcon::NotAllowed,
        CursorIcon::ContextMenu => platform::CursorIcon::ContextMenu,
        CursorIcon::Cell => platform::CursorIcon::Cell,
        CursorIcon::VerticalText => platform::CursorIcon::VerticalText,
        CursorIcon::Alias => platform::CursorIcon::Alias,
        CursorIcon::Copy => platform::CursorIcon::Copy,
        CursorIcon::NoDrop => platform::CursorIcon::NoDrop,
        CursorIcon::Grab => platform::CursorIcon::Grab,
        CursorIcon::Grabbing => platform::CursorIcon::Grabbing,
        CursorIcon::AllScroll => platform::CursorIcon::AllScroll,
        CursorIcon::ZoomIn => platform::CursorIcon::ZoomIn,
        CursorIcon::ZoomOut => platform::CursorIcon::ZoomOut,
        CursorIcon::EResize => platform::CursorIcon::EResize,
        CursorIcon::NResize => platform::CursorIcon::NResize,
        CursorIcon::NeResize => platform::CursorIcon::NeResize,
        CursorIcon::NwResize => platform::CursorIcon::NwResize,
        CursorIcon::SResize => platform::CursorIcon::SResize,
        CursorIcon::SeResize => platform::CursorIcon::SeResize,
        CursorIcon::SwResize => platform::CursorIcon::SwResize,
        CursorIcon::WResize => platform::CursorIcon::WResize,
        CursorIcon::EwResize => platform::CursorIcon::EwResize,
        CursorIcon::NsResize => platform::CursorIcon::NsResize,
        CursorIcon::NeswResize => platform::CursorIcon::NeswResize,
        CursorIcon::NwseResize => platform::CursorIcon::NwseResize,
        CursorIcon::ColResize => platform::CursorIcon::ColResize,
        CursorIcon::RowResize => platform::CursorIcon::RowResize,
    }
}

/// The cursor icon named by a native cursor shape.
pub open spec fn cursor_icon_of_native(n: platform::CursorIcon) -> CursorIcon {
    match n {
        platform::CursorIcon::Default => CursorIcon::Default,
        platform::CursorIcon::Crosshair => CursorIcon::Crosshair,
        platform::CursorIcon::Hand => CursorIcon::Hand,
        platform::CursorIcon::Arrow => CursorIcon::Arrow,
        platform::CursorIcon::Move => CursorIcon::Move,
        platform::CursorIcon::Text => CursorIcon::Text,
        platform::CursorIcon::Wait => CursorIcon::Wait,
        platform::CursorIcon::Help => CursorIcon::Help,
        platform::CursorIcon::Progress => CursorIcon::Progress,
        platform::CursorIcon::NotAllowed => CursorIcon::NotAllowed,
        platform::CursorIcon::ContextMenu => CursorIcon::ContextMenu,
        platform::CursorIcon::Cell => CursorIcon::Cell,
        platform::CursorIcon::VerticalText => CursorIcon::VerticalText,
        platform::CursorIcon::Alias => CursorIcon::Alias,
        platform::CursorIcon::Copy => CursorIcon::Copy,
        platform::CursorIcon::NoDrop => CursorIcon::NoDrop,
        platform::CursorIcon::Grab => CursorIcon::Grab,
        platform::CursorIcon::Grabbing => CursorIcon::Grabbing,
        platform::CursorIcon::AllScroll => CursorIcon::AllScroll,
        platform::CursorIcon::ZoomIn => CursorIcon::ZoomIn,
        platform::CursorIcon::ZoomOut => CursorIcon::ZoomOut,
        platform::CursorIcon::EResize => CursorIcon::EResize,
        platform::CursorIcon::NResize => CursorIcon::NResize,
        platform::CursorIcon::NeResize => CursorIcon::NeResize,
        platform::CursorIcon::NwResize => CursorIcon::NwResize,
        platform::CursorIcon::SResize => CursorIcon::SResize,
        platform::CursorIcon::SeResize => CursorIcon::SeResize,
        platform::CursorIcon::SwResize => CursorIcon::SwResize,
        platform::CursorIcon::WResize => CursorIcon::WResize,
        platform::CursorIcon::EwResize => CursorIcon::EwResize,
        platform::CursorIcon::NsResize => CursorIcon::NsResize,
        platform::CursorIcon::NeswResize => CursorIcon::NeswResize,
        platform::CursorIcon::NwseResize => CursorIcon::NwseResize,
        platform::CursorIcon::ColResize => CursorIcon::ColResize,
        platform::CursorIcon::RowResize => CursorIcon::RowResize,
    }
}

/// The cursor icon conversion is one to one and onto: each icon and its
/// native shape determine each other.
pub proof fn lemma_cursor_icon_bijective()
    ensures
        forall|a: CursorIcon| #[trigger] cursor_icon_of_native(native_cursor_icon(a)) == a,
        forall|n: platform::CursorIcon| #[trigger] native_cursor_icon(cursor_icon_of_native(n)) == n,
{
}

/// The always-on-top and always-on-bottom flags that give a window level.
pub open spec fn level_flags(level: WindowLevel) -> (bool, bool) {
    match level {
        WindowLevel::AlwaysOnBottom => (false, true),
        WindowLevel::Normal => (false, false),
        WindowLevel::AlwaysOnTop => (true, false),
    }
}

/// The always-on-top and always-on-bottom flags to give a native window
/// for a window level, in that order.
pub fn set_window_level(window_level: WindowLevel) -> (r: (bool, bool))
    ensures
        r == level_flags(window_level),
{
    match window_level {
        WindowLevel::AlwaysOnBottom => (false, true),
        WindowLevel::Normal => (false, false),
        WindowLevel::AlwaysOnTop => (true, false),
    }
}

/// The window theme for a platform theme.
pub open spec fn window_theme_of(theme: Theme) -> Result<WindowTheme, UnsupportedVariant> {
    match theme {
        Theme::Light => Ok(WindowTheme::Light),
        Theme::Dark => Ok(WindowTheme::Dark),
        Theme::Unrecognized => Err(UnsupportedVariant::Theme),
    }
}

/// Converts a platform theme; an unknown theme is an error.
pub fn convert_tao_theme(theme: Theme) -> (r: Result<WindowTheme, UnsupportedVariant>)
    ensures
        r == window_theme_of(theme),
{
    match theme {
        Theme::Light => Ok(WindowTheme::Light),
        Theme::Dark => Ok(WindowTheme::Dark),
        Theme::Unrecognized => Err(UnsupportedVariant::Theme),
    }
}

/// The platform theme for a window theme.
pub open spec fn platform_theme_of(theme: WindowTheme) -> Theme {
    match theme {
        WindowTheme::Light => Theme::Light,
        WindowTheme::Dark => Theme::Dark,
    }
}

/// Converts a window theme to the platform's.
pub fn convert_window_theme(theme: WindowTheme) -> (r: Theme)
    ensures
        r == platform_theme_of(theme),
        window_theme_of(r) == Ok::<WindowTheme, UnsupportedVariant>(theme),
{
    match theme {
        WindowTheme::Light => Theme::Light,
        WindowTheme::Dark => Theme::Dark,
    }
}

} // verus!

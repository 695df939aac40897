use bevy_tao::platform::{self, ElementState, Force, Key, KeyEvent, MouseScrollDelta, Theme, Touch};
use bevy_tao::{
    convert_cursor_icon, convert_element_state, convert_keyboard_input, convert_mouse_button, convert_mouse_wheel,
    convert_tao_theme, convert_touch_input, convert_virtual_key_code, convert_window_theme, set_window_level,
    ButtonState, CursorIcon, ForceTouch, KeyCode, MouseButton, MouseScrollUnit, TouchPhase, UnsupportedVariant,
    WindowLevel, WindowTheme,
};

#[test]
fn pixel_scroll_keeps_its_unit_and_amounts() {
    let w = convert_mouse_wheel(MouseScrollDelta::PixelDelta(3.5f32, -2.0f32), 4).unwrap();
    assert_eq!(w.unit, MouseScrollUnit::Pixel);
    assert_eq!(w.x, 3.5);
    assert_eq!(w.y, -2.0);
    assert_eq!(w.window, 4);
}

#[test]
fn line_scroll_keeps_its_unit() {
    let w = convert_mouse_wheel(MouseScrollDelta::LineDelta(1.0f32, -3.0f32), 4).unwrap();
    assert_eq!(w.unit, MouseScrollUnit::Line);
    assert_eq!((w.x, w.y), (1.0, -3.0));
}

#[test]
fn unknown_scroll_delta_is_an_error() {
    assert_eq!(
        convert_mouse_wheel(MouseScrollDelta::<f32>::Unrecognized, 4),
        Err(UnsupportedVariant::MouseScrollDelta)
    );
}

#[test]
fn unknown_key_has_no_code_but_keeps_its_scan_code() {
    let ev = KeyEvent { scan_code: 0x5b, logical_key: Key::Other, state: ElementState::Pressed };
    let k = convert_keyboard_input(&ev, 9).unwrap();
    assert_eq!(k.key_code, None);
    assert_eq!(k.scan_code, 0x5b);
    assert_eq!(k.state, ButtonState::Pressed);
    assert_eq!(k.window, 9);
    let ev = KeyEvent { scan_code: 3, logical_key: Key::Character('é'), state: ElementState::Released };
    let k = convert_keyboard_input(&ev, 9).unwrap();
    assert_eq!(k.key_code, None);
    assert_eq!(k.scan_code, 3);
}

#[test]
fn known_keys_map_through_the_table() {
    assert_eq!(convert_virtual_key_code(Key::Character('A')), Some(KeyCode::A));
    assert_eq!(convert_virtual_key_code(Key::Character('1')), Some(KeyCode::Key1));
    assert_eq!(convert_virtual_key_code(Key::Character('\\')), Some(KeyCode::Backslash));
    assert_eq!(convert_virtual_key_code(Key::Character('a')), None);
    assert_eq!(convert_virtual_key_code(Key::PrintScreen), Some(KeyCode::Snapshot));
    assert_eq!(convert_virtual_key_code(Key::Enter), Some(KeyCode::Return));
    assert_eq!(convert_virtual_key_code(Key::Alt), Some(KeyCode::AltLeft));
    assert_eq!(convert_virtual_key_code(Key::F24), Some(KeyCode::F24));
    assert_eq!(convert_virtual_key_code(Key::GoHome), Some(KeyCode::MyComputer));
}

#[test]
fn key_with_unknown_state_is_an_error() {
    let ev = KeyEvent { scan_code: 1, logical_key: Key::Escape, state: ElementState::Unrecognized };
    assert_eq!(convert_keyboard_input(&ev, 0), Err(UnsupportedVariant::ElementState));
}

#[test]
fn element_states_and_buttons() {
    assert_eq!(convert_element_state(ElementState::Pressed), Ok(ButtonState::Pressed));
    assert_eq!(convert_element_state(ElementState::Released), Ok(ButtonState::Released));
    assert_eq!(convert_element_state(ElementState::Unrecognized), Err(UnsupportedVariant::ElementState));
    assert_eq!(convert_mouse_button(platform::MouseButton::Other(8)), Ok(MouseButton::Other(8)));
    assert_eq!(convert_mouse_button(platform::MouseButton::Middle), Ok(MouseButton::Middle));
    assert_eq!(convert_mouse_button(platform::MouseButton::Unrecognized), Err(UnsupportedVariant::MouseButton));
}

#[test]
fn touch_keeps_phase_force_shape_and_id() {
    let t = Touch {
        phase: platform::TouchPhase::Cancelled,
        force: Some(Force::Calibrated { force: 0.5f64, max_possible_force: 2.0, altitude_angle: Some(0.25) }),
        id: 42,
    };
    let r = convert_touch_input(t, (10.5f64, 20.0f64)).unwrap();
    assert_eq!(r.phase, TouchPhase::Canceled);
    assert_eq!(r.position, (10.5, 20.0));
    assert_eq!(r.force, Some(ForceTouch::Calibrated { force: 0.5, max_possible_force: 2.0, altitude_angle: Some(0.25) }));
    assert_eq!(r.id, 42);
    let t = Touch { phase: platform::TouchPhase::Started, force: Some(Force::Normalized(0.75f64)), id: 1 };
    assert_eq!(convert_touch_input(t, (0.0, 0.0)).unwrap().force, Some(ForceTouch::Normalized(0.75)));
    let t = Touch { phase: platform::TouchPhase::Unrecognized, force: None, id: 1 };
    assert_eq!(convert_touch_input(t, (0.0f64, 0.0)), Err(UnsupportedVariant::TouchPhase));
    let t = Touch { phase: platform::TouchPhase::Moved, force: Some(Force::Unrecognized), id: 1 };
    assert_eq!(convert_touch_input(t, (0.0f64, 0.0)), Err(UnsupportedVariant::Force));
}

#[test]
fn cursor_icons_keep_their_names() {
    assert_eq!(convert_cursor_icon(CursorIcon::Default), platform::CursorIcon::Default);
    assert_eq!(convert_cursor_icon(CursorIcon::NwseResize), platform::CursorIcon::NwseResize);
    assert_eq!(convert_cursor_icon(CursorIcon::RowResize), platform::CursorIcon::RowResize);
}

#[test]
fn themes_both_ways() {
    assert_eq!(convert_tao_theme(Theme::Dark), Ok(WindowTheme::Dark));
    assert_eq!(convert_tao_theme(Theme::Light), Ok(WindowTheme::Light));
    assert_eq!(convert_tao_theme(Theme::Unrecognized), Err(UnsupportedVariant::Theme));
    assert_eq!(convert_window_theme(WindowTheme::Dark), Theme::Dark);
    assert_eq!(convert_window_theme(WindowTheme::Light), Theme::Light);
}

#[test]
fn window_levels_as_flags() {
    assert_eq!(set_window_level(WindowLevel::AlwaysOnTop), (true, false));
    assert_eq!(set_window_level(WindowLevel::Normal), (false, false));
    assert_eq!(set_window_level(WindowLevel::AlwaysOnBottom), (false, true));
}

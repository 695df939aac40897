use bevy_tao::platform::{ElementState, Key, KeyEvent, MouseButton, MouseScrollDelta, Theme, WindowEvent};
use bevy_tao::{
    handle_window_event, AppEvent, ButtonState, CachedWindow, Cursor, CursorGrabMode, CursorIcon, IVec2, KeyCode,
    KeyboardInput, MouseScrollUnit, MouseWheel, UnsupportedVariant, WindowDescriptor, WindowLevel, WindowMode,
    WindowPosition, WindowResizeConstraints, WindowResolution, WindowTheme,
};

fn descriptor() -> WindowDescriptor {
    WindowDescriptor {
        title: "app".to_string(),
        mode: WindowMode::Windowed,
        position: WindowPosition::Automatic,
        resolution: WindowResolution {
            physical_width: 1280,
            physical_height: 720,
            scale_factor: 2000,
            scale_factor_override: None,
        },
        cursor: Cursor { icon: CursorIcon::Default, visible: true, grab_mode: CursorGrabMode::Free, hit_test: true },
        physical_cursor_position: None,
        resizable: true,
        decorations: true,
        transparent: false,
        focused: false,
        window_level: WindowLevel::Normal,
        window_theme: None,
        ime_position: IVec2 { x: 0, y: 0 },
        resize_constraints: WindowResizeConstraints { min_width: 180, min_height: 120, max_width: None, max_height: None },
        maximize_request: None,
        minimize_request: None,
    }
}

#[test]
fn resize_updates_size_and_snapshot() {
    let mut w = descriptor();
    let mut cache = CachedWindow { window: descriptor() };
    let r = handle_window_event::<f32>(3, WindowEvent::Resized { width: 1000, height: 500 }, &mut w, &mut cache);
    assert_eq!(r, Ok(Some(AppEvent::WindowResized { window: 3, width: 500, height: 250 })));
    assert_eq!(w.resolution.physical_width, 1000);
    assert_eq!(cache.window.resolution.physical_height, 500);
}

#[test]
fn cursor_moves_and_leaves() {
    let mut w = descriptor();
    let mut cache = CachedWindow { window: descriptor() };
    let p = IVec2 { x: 5, y: 6 };
    let r = handle_window_event::<f32>(3, WindowEvent::CursorMoved(p), &mut w, &mut cache);
    assert_eq!(r, Ok(Some(AppEvent::CursorMoved { window: 3, physical_position: p })));
    assert_eq!(w.physical_cursor_position, Some(p));
    assert_eq!(cache.window.physical_cursor_position, Some(p));
    let r = handle_window_event::<f32>(3, WindowEvent::CursorLeft, &mut w, &mut cache);
    assert_eq!(r, Ok(Some(AppEvent::CursorLeft { window: 3 })));
    assert_eq!(w.physical_cursor_position, None);
}

#[test]
fn focus_move_and_theme_follow_the_platform() {
    let mut w = descriptor();
    let mut cache = CachedWindow { window: descriptor() };
    handle_window_event::<f32>(3, WindowEvent::Focused(true), &mut w, &mut cache);
    assert!(w.focused && cache.window.focused);
    let p = IVec2 { x: -10, y: 40 };
    let r = handle_window_event::<f32>(3, WindowEvent::Moved(p), &mut w, &mut cache);
    assert_eq!(r, Ok(Some(AppEvent::WindowMoved { window: 3, position: p })));
    assert_eq!(w.position, WindowPosition::At(-10, 40));
    let r = handle_window_event::<f32>(3, WindowEvent::ThemeChanged(Theme::Dark), &mut w, &mut cache);
    assert_eq!(r, Ok(Some(AppEvent::WindowThemeChanged { window: 3, theme: WindowTheme::Dark })));
    assert_eq!(w.window_theme, Some(WindowTheme::Dark));
    let r = handle_window_event::<f32>(3, WindowEvent::ThemeChanged(Theme::Unrecognized), &mut w, &mut cache);
    assert_eq!(r, Err(UnsupportedVariant::Theme));
}

#[test]
fn input_events_leave_the_snapshot_alone() {
    let mut w = descriptor();
    let mut cache = CachedWindow { window: descriptor() };
    cache.window.title = "stale".to_string();
    let ev = KeyEvent { scan_code: 30, logical_key: Key::Character('A'), state: ElementState::Pressed };
    let r = handle_window_event::<f32>(3, WindowEvent::KeyboardInput(ev), &mut w, &mut cache);
    assert_eq!(
        r,
        Ok(Some(AppEvent::KeyboardInput(KeyboardInput {
            scan_code: 30,
            state: ButtonState::Pressed,
            key_code: Some(KeyCode::A),
            window: 3,
        })))
    );
    let r = handle_window_event(3, WindowEvent::MouseWheel(MouseScrollDelta::PixelDelta(3.5f32, -2.0)), &mut w, &mut cache);
    assert_eq!(r, Ok(Some(AppEvent::MouseWheel(MouseWheel { unit: MouseScrollUnit::Pixel, x: 3.5, y: -2.0, window: 3 }))));
    let r = handle_window_event::<f32>(
        3,
        WindowEvent::MouseInput { state: ElementState::Released, button: MouseButton::Unrecognized },
        &mut w,
        &mut cache,
    );
    assert_eq!(r, Err(UnsupportedVariant::MouseButton));
    assert_eq!(cache.window.title, "stale");
}

#[test]
fn text_gives_its_first_character() {
    let mut w = descriptor();
    let mut cache = CachedWindow { window: descriptor() };
    let r = handle_window_event::<f32>(3, WindowEvent::ReceivedImeText("äb".to_string()), &mut w, &mut cache);
    assert_eq!(r, Ok(Some(AppEvent::ReceivedCharacter { window: 3, char: 'ä' })));
    let r = handle_window_event::<f32>(3, WindowEvent::ReceivedImeText(String::new()), &mut w, &mut cache);
    assert_eq!(r, Ok(None));
}

#[test]
fn file_drops_carry_their_path() {
    let mut w = descriptor();
    let mut cache = CachedWindow { window: descriptor() };
    let r = handle_window_event::<f32>(3, WindowEvent::DroppedFile("/tmp/a.png".to_string()), &mut w, &mut cache);
    assert_eq!(r, Ok(Some(AppEvent::DroppedFile { window: 3, path: "/tmp/a.png".to_string() })));
    let r = handle_window_event::<f32>(3, WindowEvent::HoveredFileCancelled, &mut w, &mut cache);
    assert_eq!(r, Ok(Some(AppEvent::HoveredFileCanceled { window: 3 })));
}

use bevy_tao::platform;
use bevy_tao::{
    changed_window, finish_changed_window, CachedWindow, Cursor, CursorGrabMode, CursorIcon, Fullscreen, IVec2,
    MonitorInfo, MonitorSelection, NativeWindowState, VideoMode, WindowCommand, WindowDescriptor, WindowLevel,
    WindowMode, WindowPosition, WindowResizeConstraints, WindowResolution,
};

fn descriptor() -> WindowDescriptor {
    WindowDescriptor {
        title: "app".to_string(),
        mode: WindowMode::Windowed,
        position: WindowPosition::Automatic,
        resolution: WindowResolution {
            physical_width: 1280,
            physical_height: 720,
            scale_factor: 1000,
            scale_factor_override: None,
        },
        cursor: Cursor { icon: CursorIcon::Default, visible: true, grab_mode: CursorGrabMode::Free, hit_test: true },
        physical_cursor_position: None,
        resizable: true,
        decorations: true,
        transparent: false,
        focused: true,
        window_level: WindowLevel::Normal,
        window_theme: None,
        ime_position: IVec2 { x: 0, y: 0 },
        resize_constraints: WindowResizeConstraints { min_width: 180, min_height: 120, max_width: None, max_height: None },
        maximize_request: None,
        minimize_request: None,
    }
}

fn native() -> NativeWindowState {
    let modes = vec![
        VideoMode { width: 1920, height: 1080, bit_depth: 32, refresh_rate: 60, monitor: 1 },
        VideoMode { width: 1280, height: 720, bit_depth: 32, refresh_rate: 60, monitor: 1 },
    ];
    NativeWindowState {
        fullscreen: None,
        decorated: true,
        resizable: true,
        outer_position: Some(IVec2 { x: 0, y: 0 }),
        inner_height: 720,
        current_monitor: Some(MonitorInfo {
            id: 1,
            position: IVec2 { x: 0, y: 0 },
            width: 1920,
            height: 1080,
            scale_factor: 1000,
            video_modes: modes,
        }),
        primary_monitor: None,
        available_monitors: vec![],
    }
}

#[test]
fn unchanged_window_needs_no_call() {
    let mut w = descriptor();
    let cache = CachedWindow { window: descriptor() };
    let r = changed_window(&mut w, &cache, &native());
    assert!(r.commands.is_empty());
    assert!(!r.transparency_reverted);
}

#[test]
fn refused_hit_test_goes_back_to_the_snapshot() {
    let mut w = descriptor();
    w.cursor.hit_test = false;
    let mut cache = CachedWindow { window: descriptor() };
    let r = changed_window(&mut w, &cache, &native());
    assert_eq!(r.commands, vec![WindowCommand::SetCursorHitTest(false)]);
    finish_changed_window(&mut w, &mut cache, true);
    assert!(w.cursor.hit_test);
    assert!(cache.window.cursor.hit_test);
}

#[test]
fn accepted_hit_test_is_kept() {
    let mut w = descriptor();
    w.cursor.hit_test = false;
    let mut cache = CachedWindow { window: descriptor() };
    changed_window(&mut w, &cache, &native());
    finish_changed_window(&mut w, &mut cache, false);
    assert!(!w.cursor.hit_test);
    assert!(!cache.window.cursor.hit_test);
}

#[test]
fn each_changed_field_gives_its_call_in_order() {
    let mut w = descriptor();
    w.title = "renamed".to_string();
    w.cursor.icon = CursorIcon::Hand;
    w.cursor.grab_mode = CursorGrabMode::Locked;
    w.window_level = WindowLevel::AlwaysOnTop;
    w.ime_position = IVec2 { x: 3, y: 4 };
    let cache = CachedWindow { window: descriptor() };
    let r = changed_window(&mut w, &cache, &native());
    assert_eq!(
        r.commands,
        vec![
            WindowCommand::SetTitle("renamed".to_string()),
            WindowCommand::SetCursorIcon(platform::CursorIcon::Hand),
            WindowCommand::SetCursorGrab(true),
            WindowCommand::SetAlwaysOnTop(true),
            WindowCommand::SetAlwaysOnBottom(false),
            WindowCommand::SetImePosition { x: 3, y: 4 },
        ]
    );
}

#[test]
fn cursor_position_is_flipped_vertically() {
    let mut w = descriptor();
    w.physical_cursor_position = Some(IVec2 { x: 100, y: 20 });
    let cache = CachedWindow { window: descriptor() };
    let r = changed_window(&mut w, &cache, &native());
    assert_eq!(r.commands, vec![WindowCommand::SetCursorPosition { x: 100, y: 700 }]);
}

#[test]
fn cursor_leaving_needs_no_call() {
    let mut w = descriptor();
    let mut c = descriptor();
    c.physical_cursor_position = Some(IVec2 { x: 1, y: 1 });
    let r = changed_window(&mut w, &CachedWindow { window: c }, &native());
    assert!(r.commands.is_empty());
}

#[test]
fn transparency_change_is_undone() {
    let mut w = descriptor();
    w.transparent = true;
    let cache = CachedWindow { window: descriptor() };
    let r = changed_window(&mut w, &cache, &native());
    assert!(r.transparency_reverted);
    assert!(!w.transparent);
    assert!(r.commands.is_empty());
}

#[test]
fn requests_are_taken_once() {
    let mut w = descriptor();
    w.maximize_request = Some(true);
    w.minimize_request = Some(false);
    let mut cache = CachedWindow { window: descriptor() };
    let r = changed_window(&mut w, &cache, &native());
    assert_eq!(r.commands, vec![WindowCommand::SetMaximized(true), WindowCommand::SetMinimized(false)]);
    assert_eq!(w.maximize_request, None);
    assert_eq!(w.minimize_request, None);
    finish_changed_window(&mut w, &mut cache, false);
    let r = changed_window(&mut w, &cache, &native());
    assert!(r.commands.is_empty());
}

#[test]
fn sized_fullscreen_picks_the_fitting_mode() {
    let mut w = descriptor();
    w.mode = WindowMode::SizedFullscreen;
    let cache = CachedWindow { window: descriptor() };
    let r = changed_window(&mut w, &cache, &native());
    let expected = VideoMode { width: 1280, height: 720, bit_depth: 32, refresh_rate: 60, monitor: 1 };
    assert_eq!(r.commands, vec![WindowCommand::SetFullscreen(Some(Fullscreen::Exclusive(expected)))]);
}

#[test]
fn unavailable_fullscreen_is_reported() {
    let mut w = descriptor();
    w.mode = WindowMode::Fullscreen;
    let mut n = native();
    n.current_monitor = None;
    let r = changed_window(&mut w, &CachedWindow { window: descriptor() }, &n);
    assert!(r.fullscreen_unavailable);
    assert!(r.commands.is_empty());
    let r = changed_window(&mut w, &CachedWindow { window: descriptor() }, &native());
    assert!(!r.fullscreen_unavailable);
    assert_eq!(r.commands.len(), 1);
}

#[test]
fn mode_already_in_force_needs_no_call() {
    let mut w = descriptor();
    let mut c = descriptor();
    c.mode = WindowMode::BorderlessFullscreen;
    let r = changed_window(&mut w, &CachedWindow { window: c }, &native());
    assert!(r.commands.is_empty());
    let mut w = descriptor();
    w.mode = WindowMode::BorderlessFullscreen;
    let r = changed_window(&mut w, &CachedWindow { window: descriptor() }, &native());
    assert_eq!(r.commands, vec![WindowCommand::SetFullscreen(Some(Fullscreen::Borderless(None)))]);
}

#[test]
fn decorations_already_in_force_need_no_call() {
    let mut w = descriptor();
    w.decorations = false;
    let mut n = native();
    n.decorated = false;
    let r = changed_window(&mut w, &CachedWindow { window: descriptor() }, &n);
    assert!(r.commands.is_empty());
    let r = changed_window(&mut w, &CachedWindow { window: descriptor() }, &native());
    assert_eq!(r.commands, vec![WindowCommand::SetDecorations(false)]);
}

#[test]
fn constraints_set_max_only_when_bounded_both_ways() {
    let mut w = descriptor();
    w.resize_constraints = WindowResizeConstraints { min_width: 0, min_height: 50, max_width: Some(10), max_height: None };
    let r = changed_window(&mut w, &CachedWindow { window: descriptor() }, &native());
    assert_eq!(r.commands, vec![WindowCommand::SetMinInnerSize { width: 1, height: 50 }]);
    w.resize_constraints = WindowResizeConstraints { min_width: 200, min_height: 50, max_width: Some(100), max_height: Some(400) };
    let r = changed_window(&mut w, &CachedWindow { window: descriptor() }, &native());
    assert_eq!(
        r.commands,
        vec![
            WindowCommand::SetMinInnerSize { width: 200, height: 50 },
            WindowCommand::SetMaxInnerSize { width: 200, height: 400 },
        ]
    );
}

#[test]
fn position_moves_only_where_it_differs() {
    let mut w = descriptor();
    w.position = WindowPosition::Centered(MonitorSelection::Current);
    let r = changed_window(&mut w, &CachedWindow { window: descriptor() }, &native());
    assert_eq!(r.commands, vec![WindowCommand::SetOuterPosition { x: 320, y: 180 }]);
    let mut n = native();
    n.outer_position = Some(IVec2 { x: 320, y: 180 });
    let r = changed_window(&mut w, &CachedWindow { window: descriptor() }, &n);
    assert!(r.commands.is_empty());
    n.outer_position = None;
    let r = changed_window(&mut w, &CachedWindow { window: descriptor() }, &n);
    assert_eq!(r.commands, vec![WindowCommand::SetOuterPosition { x: 320, y: 180 }]);
}

#[test]
fn focus_is_only_ever_given() {
    let mut w = descriptor();
    w.focused = false;
    let r = changed_window(&mut w, &CachedWindow { window: descriptor() }, &native());
    assert!(r.commands.is_empty());
    let mut c = descriptor();
    c.focused = false;
    let mut w = descriptor();
    let r = changed_window(&mut w, &CachedWindow { window: c }, &native());
    assert_eq!(r.commands, vec![WindowCommand::SetFocus]);
}

#[test]
fn resolution_change_sets_physical_size() {
    let mut w = descriptor();
    w.resolution.physical_width = 1600;
    let r = changed_window(&mut w, &CachedWindow { window: descriptor() }, &native());
    assert_eq!(r.commands, vec![WindowCommand::SetInnerSize { width: 1600, height: 720 }]);
}

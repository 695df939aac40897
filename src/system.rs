//! Reconciling native windows with their declared descriptions.
use vstd::prelude::*;

use crate::converters::{
    convert_cursor_icon, convert_tao_theme, convert_window_theme, level_flags, native_cursor_icon, platform_theme_of,
    set_window_level, window_theme_of, UnsupportedVariant,
};
use crate::platform;
use crate::tao_windows::{
    best_native_mode, fitting_mode, get_best_videomode, get_fitting_videomode, monitors_valid, resolved_position,
    tao_window_position, MonitorInfo, TaoWindows, VideoMode,
};
use crate::window::{
    checked_bound, effective_scale, resolution_valid, to_logical, Cursor, CursorGrabMode, IVec2, WindowDescriptor,
    WindowMode, WindowResolution,
};

verus! {

/// The snapshot of a window's description as of the last reconciliation.
#[derive(Debug)]
pub struct CachedWindow {
    pub window: WindowDescriptor,
}

/// The titles of closing windows, by application identifier, kept for
/// diagnostics.
#[derive(Debug)]
pub struct WindowTitleCache(pub std::collections::HashMap<u64, String>);

/// A native window's fullscreen state.
#[derive(Debug, Clone, Copy, PartialEq, Eq, Structural)]
pub enum Fullscreen {
    /// Exclusive fullscreen in a video mode.
    Exclusive(VideoMode),
    /// Borderless fullscreen on a monitor, named by its identifier, or on
    /// the window's current monitor.
    Borderless(Option<u64>),
}

/// What was read from a native window before reconciling it.
#[derive(Debug)]
pub struct NativeWindowState {
    pub fullscreen: Option<Fullscreen>,
    pub decorated: bool,
    pub resizable: bool,
    /// The outer position, if the platform could tell.
    pub outer_position: Option<IVec2>,
    /// Physical height of the window's client area.
    pub inner_height: u32,
    pub current_monitor: Option<MonitorInfo>,
    pub primary_monitor: Option<MonitorInfo>,
    pub available_monitors: Vec<MonitorInfo>,
}

/// A call to make on a native window.
#[allow(inconsistent_fields)]
#[derive(Debug, PartialEq)]
pub enum WindowCommand {
    SetTitle(String),
    SetFullscreen(Option<Fullscreen>),
    /// Physical size of the client area.
    SetInnerSize { width: u32, height: u32 },
    /// Physical position, with the origin at the top left.
    SetCursorPosition { x: i64, y: i64 },
    SetCursorIcon(platform::CursorIcon),
    SetCursorGrab(bool),
    SetCursorVisible(bool),
    SetCursorHitTest(bool),
    SetDecorations(bool),
    SetResizable(bool),
    /// Logical size.
    SetMinInnerSize { width: u32, height: u32 },
    /// Logical size.
    SetMaxInnerSize { width: u32, height: u32 },
    /// Physical position.
    SetOuterPosition { x: i32, y: i32 },
    SetMaximized(bool),
    SetMinimized(bool),
    SetFocus,
    SetAlwaysOnTop(bool),
    SetAlwaysOnBottom(bool),
    /// Logical position.
    SetImePosition { x: i32, y: i32 },
}

/// The calls that reconcile one window, in the order they are to be made.
#[derive(Debug)]
pub struct Reconciliation {
    pub commands: Vec<WindowCommand>,
    /// A change of transparency was asked for and undone: the platform
    /// cannot change it after a window is created.
    pub transparency_reverted: bool,
    /// A change of mode was asked for whose fullscreen state cannot be had
    /// (no current monitor, or no video mode): the mode is left as it is.
    pub fullscreen_unavailable: bool,
}

/// The command where `b` holds, else nothing.
pub open spec fn cmd_if(b: bool, c: WindowCommand) -> Seq<WindowCommand> {
    if b {
        seq![c]
    } else {
        Seq::empty()
    }
}

/// The fullscreen state a window mode asks for on a monitor; none where it
/// cannot be had (no monitor, or no video mode).
pub open spec fn fullscreen_target(
    mode: WindowMode,
    w: WindowDescriptor,
    monitor: Option<MonitorInfo>,
) -> Option<Option<Fullscreen>> {
    match mode {
        WindowMode::Windowed => Some(None),
        WindowMode::BorderlessFullscreen => Some(Some(Fullscreen::Borderless(None))),
        WindowMode::Fullscreen => match monitor {
            Some(m) => match best_native_mode(m.video_modes@) {
                Some(v) => Some(Some(Fullscreen::Exclusive(v))),
                None => None,
            },
            None => None,
        },
        WindowMode::SizedFullscreen => match monitor {
            Some(m) => match fitting_mode(
                m.video_modes@,
                to_logical(w.resolution.physical_width, effective_scale(w.resolution)) as u32,
                to_logical(w.resolution.physical_height, effective_scale(w.resolution)) as u32,
            ) {
                Some(v) => Some(Some(Fullscreen::Exclusive(v))),
                None => None,
            },
            None => None,
        },
    }
}

/// The call for a change of mode: made only where the target can be had and
/// differs from the native window's fullscreen state.
pub open spec fn mode_commands(w: WindowDescriptor, c: WindowDescriptor, n: NativeWindowState) -> Seq<
    WindowCommand,
> {
    if w.mode != c.mode {
        match fullscreen_target(w.mode, w, n.current_monitor) {
            Some(t) => cmd_if(n.fullscreen != t, WindowCommand::SetFullscreen(t)),
            None => Seq::empty(),
        }
    } else {
        Seq::empty()
    }
}

/// The call for a change of cursor position: the position in the native
/// orientation, whose vertical axis runs downward.
pub open spec fn cursor_position_commands(w: WindowDescriptor, c: WindowDescriptor, n: NativeWindowState) -> Seq<
    WindowCommand,
> {
    if w.physical_cursor_position != c.physical_cursor_position {
        match w.physical_cursor_position {
            Some(p) => seq![WindowCommand::SetCursorPosition { x: p.x as i64, y: (n.inner_height - p.y) as i64 }],
            None => Seq::empty(),
        }
    } else {
        Seq::empty()
    }
}

/// The calls for a change of resize constraints: the minimum always, the
/// maximum where it is bounded in both directions.
pub open spec fn constraint_commands(w: WindowDescriptor, c: WindowDescriptor) -> Seq<WindowCommand> {
    if w.resize_constraints != c.resize_constraints {
        let (min_w, max_w) = checked_bound(w.resize_constraints.min_width, w.resize_constraints.max_width);
        let (min_h, max_h) = checked_bound(w.resize_constraints.min_height, w.resize_constraints.max_height);
        seq![WindowCommand::SetMinInnerSize { width: min_w, height: min_h }] + match (max_w, max_h) {
            (Some(mw), Some(mh)) => seq![WindowCommand::SetMaxInnerSize { width: mw, height: mh }],
            _ => Seq::empty(),
        }
    } else {
        Seq::empty()
    }
}

/// The call for a change of position: made only where the position resolves
/// and differs from the native window's, or that could not be read.
pub open spec fn position_commands(w: WindowDescriptor, c: WindowDescriptor, n: NativeWindowState) -> Seq<
    WindowCommand,
> {
    if w.position != c.position {
        match resolved_position(
            w.position,
            w.resolution,
            n.available_monitors@,
            n.primary_monitor,
            n.current_monitor,
        ) {
            Some(p) => cmd_if(n.outer_position != Some(p), WindowCommand::SetOuterPosition { x: p.x, y: p.y }),
            None => Seq::empty(),
        }
    } else {
        Seq::empty()
    }
}

/// The call for a one-shot request, if there is one.
pub open spec fn request_commands(request: Option<bool>, maximize: bool) -> Seq<WindowCommand> {
    match request {
        Some(b) => seq![if maximize { WindowCommand::SetMaximized(b) } else { WindowCommand::SetMinimized(b) }],
        None => Seq::empty(),
    }
}

/// The calls for a change of window level.
pub open spec fn level_commands(w: WindowDescriptor, c: WindowDescriptor) -> Seq<WindowCommand> {
    if w.window_level != c.window_level {
        seq![
            WindowCommand::SetAlwaysOnTop(level_flags(w.window_level).0),
            WindowCommand::SetAlwaysOnBottom(level_flags(w.window_level).1),
        ]
    } else {
        Seq::empty()
    }
}

/// The calls that bring a native window in line with the description `w`,
/// given its snapshot `c` and what was read from the native window: for
/// each field that differs from the snapshot, the call that applies it.
pub open spec fn reconcile_commands(w: WindowDescriptor, c: WindowDescriptor, n: NativeWindowState) -> Seq<
    WindowCommand,
> {
    window_commands(w, c, n) + frame_commands(w, c, n)
}

/// The calls for the title, mode, size and cursor.
pub open spec fn window_commands(w: WindowDescriptor, c: WindowDescriptor, n: NativeWindowState) -> Seq<
    WindowCommand,
> {
    cmd_if(w.title@ != c.title@, WindowCommand::SetTitle(w.title))
        + mode_commands(w, c, n)
        + cmd_if(
        w.resolution != c.resolution,
        WindowCommand::SetInnerSize { width: w.resolution.physical_width, height: w.resolution.physical_height },
    )
        + cursor_position_commands(w, c, n)
        + cmd_if(w.cursor.icon != c.cursor.icon, WindowCommand::SetCursorIcon(native_cursor_icon(w.cursor.icon)))
        + cmd_if(
        w.cursor.grab_mode != c.cursor.grab_mode,
        WindowCommand::SetCursorGrab(w.cursor.grab_mode != CursorGrabMode::Free),
    )
        + cmd_if(w.cursor.visible != c.cursor.visible, WindowCommand::SetCursorVisible(w.cursor.visible))
        + cmd_if(w.cursor.hit_test != c.cursor.hit_test, WindowCommand::SetCursorHitTest(w.cursor.hit_test))
}

/// The calls for decorations, resizing, placement, requests, focus, level
/// and input method.
pub open spec fn frame_commands(w: WindowDescriptor, c: WindowDescriptor, n: NativeWindowState) -> Seq<
    WindowCommand,
> {
    cmd_if(
        w.decorations != c.decorations && w.decorations != n.decorated,
        WindowCommand::SetDecorations(w.decorations),
    )
        + cmd_if(
        w.resizable != c.resizable && w.resizable != n.resizable,
        WindowCommand::SetResizable(w.resizable),
    )
        + constraint_commands(w, c)
        + position_commands(w, c, n)
        + request_commands(w.maximize_request, true)
        + request_commands(w.minimize_request, false)
        + cmd_if(w.focused != c.focused && w.focused, WindowCommand::SetFocus)
        + level_commands(w, c)
        + cmd_if(
        w.ime_position != c.ime_position,
        WindowCommand::SetImePosition { x: w.ime_position.x, y: w.ime_position.y },
    )
}

/// A snapshot as reconciliation leaves it: no request pending.
pub open spec fn snapshot_settled(c: WindowDescriptor) -> bool {
    c.maximize_request.is_none() && c.minimize_request.is_none()
}

/// The description once reconciliation has taken its one-shot requests and
/// undone a change of transparency.
pub open spec fn descriptor_after_changes(w: WindowDescriptor, c: WindowDescriptor) -> WindowDescriptor {
    WindowDescriptor { maximize_request: None, minimize_request: None, transparent: c.transparent, ..w }
}

/// The description once the outcome of the calls is known: where the
/// platform refused the hit-test change, the hit-test goes back to the
/// snapshot's.
pub open spec fn descriptor_after_outcome(
    w: WindowDescriptor,
    c: WindowDescriptor,
    hit_test_failed: bool,
) -> WindowDescriptor {
    if hit_test_failed {
        WindowDescriptor { cursor: Cursor { hit_test: c.cursor.hit_test, ..w.cursor }, ..w }
    } else {
        w
    }
}

/// A description equal to its settled snapshot needs no native call.
pub proof fn lemma_unchanged_needs_no_call(w: WindowDescriptor, n: NativeWindowState)
    requires
        snapshot_settled(w),
    ensures
        reconcile_commands(w, w, n) == Seq::<WindowCommand>::empty(),
{
    assert(window_commands(w, w, n) =~= Seq::<WindowCommand>::empty());
    assert(frame_commands(w, w, n) =~= Seq::<WindowCommand>::empty());
    assert(reconcile_commands(w, w, n) =~= Seq::<WindowCommand>::empty());
}

/// Where the platform refuses a requested hit-test change, reconciliation
/// leaves the description's hit-test as the snapshot had it, and the new
/// snapshot agrees.
pub proof fn lemma_hit_test_rollback(w: WindowDescriptor, c: WindowDescriptor)
    ensures
        descriptor_after_outcome(descriptor_after_changes(w, c), c, true).cursor.hit_test == c.cursor.hit_test,
{
}

fn push_if(v: &mut Vec<WindowCommand>, b: bool, c: WindowCommand)
    ensures
        final(v)@ == old(v)@ + cmd_if(b, c),
{
    if b {
        v.push(c);
    } else {
        proof {
            assert(old(v)@ + cmd_if(b, c) =~= old(v)@);
        }
    }
}

fn push_all(v: &mut Vec<WindowCommand>, w: &mut Vec<WindowCommand>)
    ensures
        final(v)@ == old(v)@ + old(w)@,
{
    v.append(w);
}

fn fullscreen_target_exec(w: &WindowDescriptor, monitor: Option<&MonitorInfo>) -> (r: Option<Option<Fullscreen>>)
    requires
        resolution_valid(w.resolution),
    ensures
        r == fullscreen_target(w.mode, *w, match monitor { Some(m) => Some(*m), None => None }),
{
    match w.mode {
        WindowMode::Windowed => Some(None),
        WindowMode::BorderlessFullscreen => Some(Some(Fullscreen::Borderless(None))),
        WindowMode::Fullscreen => match monitor {
            Some(m) => match get_best_videomode(m) {
                Some(v) => Some(Some(Fullscreen::Exclusive(v))),
                None => None,
            },
            None => None,
        },
        WindowMode::SizedFullscreen => match monitor {
            Some(m) => match get_fitting_videomode(m, w.resolution.width(), w.resolution.height()) {
                Some(v) => Some(Some(Fullscreen::Exclusive(v))),
                None => None,
            },
            None => None,
        },
    }
}

fn option_ref(o: &Option<MonitorInfo>) -> (r: Option<&MonitorInfo>)
    ensures
        match r { Some(m) => Some(*m), None => None } == *o,
{
    match o {
        Some(m) => Some(m),
        None => None,
    }
}

fn mode_part(w: &WindowDescriptor, c: &WindowDescriptor, n: &NativeWindowState) -> (r: Vec<WindowCommand>)
    requires
        resolution_valid(w.resolution),
    ensures
        r@ == mode_commands(*w, *c, *n),
{
    let mut v: Vec<WindowCommand> = Vec::new();
    if w.mode != c.mode {
        match fullscreen_target_exec(w, option_ref(&n.current_monitor)) {
            Some(t) => push_if(&mut v, n.fullscreen != t, WindowCommand::SetFullscreen(t)),
            None => {},
        }
    }
    proof {
        assert(v@ =~= mode_commands(*w, *c, *n));
    }
    v
}

fn cursor_position_part(w: &WindowDescriptor, c: &WindowDescriptor, n: &NativeWindowState) -> (r: Vec<WindowCommand>)
    ensures
        r@ == cursor_position_commands(*w, *c, *n),
{
    let mut v: Vec<WindowCommand> = Vec::new();
    if w.physical_cursor_position != c.physical_cursor_position {
        match w.physical_cursor_position {
            Some(p) => v.push(WindowCommand::SetCursorPosition { x: p.x as i64, y: n.inner_height as i64 - p.y as i64 }),
            None => {},
        }
    }
    proof {
        assert(v@ =~= cursor_position_commands(*w, *c, *n));
    }
    v
}

fn constraint_part(w: &WindowDescriptor, c: &WindowDescriptor) -> (r: Vec<WindowCommand>)
    ensures
        r@ == constraint_commands(*w, *c),
{
    let mut v: Vec<WindowCommand> = Vec::new();
    if w.resize_constraints != c.resize_constraints {
        let k = w.resize_constraints.check_constraints();
        v.push(WindowCommand::SetMinInnerSize { width: k.min_width, height: k.min_height });
        match (k.max_width, k.max_height) {
            (Some(mw), Some(mh)) => v.push(WindowCommand::SetMaxInnerSize { width: mw, height: mh }),
            _ => {},
        }
    }
    proof {
        assert(v@ =~= constraint_commands(*w, *c));
    }
    v
}

fn position_part(w: &WindowDescriptor, c: &WindowDescriptor, n: &NativeWindowState) -> (r: Vec<WindowCommand>)
    requires
        resolution_valid(w.resolution),
        monitors_valid(n.available_monitors@, n.primary_monitor, n.current_monitor),
    ensures
        r@ == position_commands(*w, *c, *n),
{
    let mut v: Vec<WindowCommand> = Vec::new();
    if w.position != c.position {
        let target = tao_window_position(
            &w.position,
            &w.resolution,
            &n.available_monitors,
            option_ref(&n.primary_monitor),
            option_ref(&n.current_monitor),
        );
        match target {
            Some(p) => {
                let differs = match n.outer_position {
                    Some(q) => q != p,
                    None => true,
                };
                push_if(&mut v, differs, WindowCommand::SetOuterPosition { x: p.x, y: p.y });
            },
            None => {},
        }
    }
    proof {
        assert(v@ =~= position_commands(*w, *c, *n));
    }
    v
}

fn request_part(request: Option<bool>, maximize: bool) -> (r: Vec<WindowCommand>)
    ensures
        r@ == request_commands(request, maximize),
{
    let mut v: Vec<WindowCommand> = Vec::new();
    match request {
        Some(b) => v.push(if maximize { WindowCommand::SetMaximized(b) } else { WindowCommand::SetMinimized(b) }),
        None => {},
    }
    proof {
        assert(v@ =~= request_commands(request, maximize));
    }
    v
}

fn level_part(w: &WindowDescriptor, c: &WindowDescriptor) -> (r: Vec<WindowCommand>)
    ensures
        r@ == level_commands(*w, *c),
{
    let mut v: Vec<WindowCommand> = Vec::new();
    if w.window_level != c.window_level {
        let (top, bottom) = set_window_level(w.window_level);
        v.push(WindowCommand::SetAlwaysOnTop(top));
        v.push(WindowCommand::SetAlwaysOnBottom(bottom));
    }
    proof {
        assert(v@ =~= level_commands(*w, *c));
    }
    v
}

fn window_part(window: &WindowDescriptor, c: &WindowDescriptor, native: &NativeWindowState) -> (r: Vec<WindowCommand>)
    requires
        resolution_valid(window.resolution),
    ensures
        r@ == window_commands(*window, *c, *native),
{
    let mut v: Vec<WindowCommand> = Vec::new();
    let title_changed = window.title != c.title;
    push_if(&mut v, title_changed, WindowCommand::SetTitle(window.title.clone()));
    let mut part = mode_part(window, c, native);
    push_all(&mut v, &mut part);
    push_if(
        &mut v,
        window.resolution != c.resolution,
        WindowCommand::SetInnerSize { width: window.resolution.physical_width, height: window.resolution.physical_height },
    );
    let mut part = cursor_position_part(window, c, native);
    push_all(&mut v, &mut part);
    push_if(&mut v, window.cursor.icon != c.cursor.icon, WindowCommand::SetCursorIcon(convert_cursor_icon(window.cursor.icon)));
    push_if(
        &mut v,
        window.cursor.grab_mode != c.cursor.grab_mode,
        WindowCommand::SetCursorGrab(window.cursor.grab_mode != CursorGrabMode::Free),
    );
    push_if(&mut v, window.cursor.visible != c.cursor.visible, WindowCommand::SetCursorVisible(window.cursor.visible));
    push_if(&mut v, window.cursor.hit_test != c.cursor.hit_test, WindowCommand::SetCursorHitTest(window.cursor.hit_test));
    v
}

fn frame_part(window: &WindowDescriptor, c: &WindowDescriptor, native: &NativeWindowState) -> (r: Vec<WindowCommand>)
    requires
        resolution_valid(window.resolution),
        monitors_valid(native.available_monitors@, native.primary_monitor, native.current_monitor),
    ensures
        r@ == frame_commands(*window, *c, *native),
{
    let mut v: Vec<WindowCommand> = Vec::new();
    push_if(
        &mut v,
        window.decorations != c.decorations && window.decorations != native.decorated,
        WindowCommand::SetDecorations(window.decorations),
    );
    push_if(
        &mut v,
        window.resizable != c.resizable && window.resizable != native.resizable,
        WindowCommand::SetResizable(window.resizable),
    );
    let mut part = constraint_part(window, c);
    push_all(&mut v, &mut part);
    let mut part = position_part(window, c, native);
    push_all(&mut v, &mut part);
    let mut part = request_part(window.maximize_request, true);
    push_all(&mut v, &mut part);
    let mut part = request_part(window.minimize_request, false);
    push_all(&mut v, &mut part);
    push_if(&mut v, window.focused != c.focused && window.focused, WindowCommand::SetFocus);
    let mut part = level_part(window, c);
    push_all(&mut v, &mut part);
    push_if(
        &mut v,
        window.ime_position != c.ime_position,
        WindowCommand::SetImePosition { x: window.ime_position.x, y: window.ime_position.y },
    );
    v
}

/// Computes the calls that bring the native window in line with `window`,
/// comparing each field with the snapshot in `cache`.
///
/// The one-shot maximize and minimize requests are taken from `window`. A
/// change of transparency cannot be applied after creation: it is undone
/// in `window` and reported. The snapshot itself is brought up to date by
/// [`finish_changed_window`], once the calls have been made.
pub fn changed_window(
    window: &mut WindowDescriptor,
    cache: &CachedWindow,
    native: &NativeWindowState,
) -> (r: Reconciliation)
    requires
        resolution_valid(old(window).resolution),
        monitors_valid(native.available_monitors@, native.primary_monitor, native.current_monitor),
    ensures
        r.commands@ == reconcile_commands(*old(window), cache.window, *native),
        r.transparency_reverted == (old(window).transparent != cache.window.transparent),
        r.fullscreen_unavailable == (old(window).mode != cache.window.mode && fullscreen_target(
            old(window).mode,
            *old(window),
            native.current_monitor,
        ) is None),
        *final(window) == descriptor_after_changes(*old(window), cache.window),
{
    let fullscreen_unavailable = window.mode != cache.window.mode && fullscreen_target_exec(
        window,
        option_ref(&native.current_monitor),
    ).is_none();
    let mut v = window_part(window, &cache.window, native);
    let mut rest = frame_part(window, &cache.window, native);
    push_all(&mut v, &mut rest);
    let _ = window.maximize_request.take();
    let _ = window.minimize_request.take();
    let transparency_reverted = window.transparent != cache.window.transparent;
    window.transparent = cache.window.transparent;
    Reconciliation { commands: v, transparency_reverted, fullscreen_unavailable }
}

/// Completes the reconciliation of a window once the calls of
/// [`changed_window`] have been made: where the platform refused the
/// hit-test change, the description's hit-test goes back to the snapshot's;
/// then the snapshot becomes a copy of the description.
pub fn finish_changed_window(window: &mut WindowDescriptor, cache: &mut CachedWindow, hit_test_failed: bool)
    ensures
        *final(window) == descriptor_after_outcome(*old(window), old(cache).window, hit_test_failed),
        final(cache).window == *final(window),
{
    if hit_test_failed {
        window.cursor.hit_test = cache.window.cursor.hit_test;
    }
    cache.window = window.clone();
}

/// The size a native window is built with.
#[derive(Debug, Clone, Copy, PartialEq, Eq, Structural)]
pub enum InnerSize {
    Physical { width: u32, height: u32 },
    /// Left to the platform to scale.
    Logical { width: u32, height: u32 },
}

/// Why a native window cannot be built for a description.
#[derive(Debug, Clone, Copy, PartialEq, Eq, Structural)]
pub enum CreateError {
    /// Exclusive fullscreen was asked for, and there is no primary monitor.
    NoMonitor,
    /// Exclusive fullscreen was asked for, and the monitor reports no video
    /// mode.
    NoVideoMode,
}

/// How to build a native window, and what to set on it once built.
#[derive(Debug)]
pub struct WindowAttributes {
    pub fullscreen: Option<Fullscreen>,
    /// Physical position.
    pub position: Option<IVec2>,
    pub inner_size: Option<InnerSize>,
    pub theme: Option<platform::Theme>,
    pub resizable: bool,
    pub decorations: bool,
    /// Logical minimum size, width then height.
    pub min_inner_size: (u32, u32),
    /// Logical maximum size, width then height, where bounded both ways.
    pub max_inner_size: Option<(u32, u32)>,
    pub title: String,
    /// Cursor grab to set after the window is built, where it is not the
    /// default.
    pub cursor_grab: Option<bool>,
    /// Cursor visibility to set after the window is built.
    pub cursor_visible: bool,
    /// Hit-test to set after the window is built, where it is not the
    /// default.
    pub cursor_hit_test: Option<bool>,
}

/// The fullscreen state, position and size a new window is built with. A
/// fullscreen mode takes the place of position and size; an exclusive one
/// needs the primary monitor and one of its video modes.
pub open spec fn placement_of(
    w: WindowDescriptor,
    primary: Option<MonitorInfo>,
    available: Seq<MonitorInfo>,
) -> Result<(Option<Fullscreen>, Option<IVec2>, Option<InnerSize>), CreateError> {
    match w.mode {
        WindowMode::BorderlessFullscreen => Ok(
            (
                Some(Fullscreen::Borderless(match primary { Some(m) => Some(m.id), None => None })),
                None,
                None,
            ),
        ),
        WindowMode::Fullscreen => match primary {
            None => Err(CreateError::NoMonitor),
            Some(m) => match best_native_mode(m.video_modes@) {
                Some(v) => Ok((Some(Fullscreen::Exclusive(v)), None, None)),
                None => Err(CreateError::NoVideoMode),
            },
        },
        WindowMode::SizedFullscreen => match primary {
            None => Err(CreateError::NoMonitor),
            Some(m) => match fitting_mode(
                m.video_modes@,
                to_logical(w.resolution.physical_width, effective_scale(w.resolution)) as u32,
                to_logical(w.resolution.physical_height, effective_scale(w.resolution)) as u32,
            ) {
                Some(v) => Ok((Some(Fullscreen::Exclusive(v)), None, None)),
                None => Err(CreateError::NoVideoMode),
            },
        },
        WindowMode::Windowed => Ok(
            (
                None,
                resolved_position(w.position, w.resolution, available, primary, None),
                Some(
                    match w.resolution.scale_factor_override {
                        Some(_) => InnerSize::Physical {
                            width: w.resolution.physical_width,
                            height: w.resolution.physical_height,
                        },
                        None => InnerSize::Logical {
                            width: to_logical(w.resolution.physical_width, effective_scale(w.resolution)) as u32,
                            height: to_logical(w.resolution.physical_height, effective_scale(w.resolution)) as u32,
                        },
                    },
                ),
            ),
        ),
    }
}

/// The attributes agree with the description: placement as
/// [`placement_of`] gives it, the theme, resizability, decorations, checked
/// resize constraints and title carried over, and the cursor's grab and
/// hit-test only where they are not the default.
pub open spec fn attributes_match(
    a: WindowAttributes,
    w: WindowDescriptor,
    placement: (Option<Fullscreen>, Option<IVec2>, Option<InnerSize>),
) -> bool {
    let (min_w, max_w) = checked_bound(w.resize_constraints.min_width, w.resize_constraints.max_width);
    let (min_h, max_h) = checked_bound(w.resize_constraints.min_height, w.resize_constraints.max_height);
    &&& a.fullscreen == placement.0
    &&& a.position == placement.1
    &&& a.inner_size == placement.2
    &&& a.theme == (match w.window_theme { Some(t) => Some(platform_theme_of(t)), None => None })
    &&& a.resizable == w.resizable
    &&& a.decorations == w.decorations
    &&& a.min_inner_size == (min_w, min_h)
    &&& a.max_inner_size == (match (max_w, max_h) {
        (Some(mw), Some(mh)) => Some((mw, mh)),
        _ => None,
    })
    &&& a.title@ == w.title@
    &&& a.cursor_grab == (if w.cursor.grab_mode != CursorGrabMode::Free { Some(true) } else { None })
    &&& a.cursor_visible == w.cursor.visible
    &&& a.cursor_hit_test == (if !w.cursor.hit_test { Some(false) } else { None })
}

/// The attributes to build a native window for `window` with.
pub fn window_attributes(
    window: &WindowDescriptor,
    primary_monitor: Option<&MonitorInfo>,
    available_monitors: &Vec<MonitorInfo>,
) -> (r: Result<WindowAttributes, CreateError>)
    requires
        resolution_valid(window.resolution),
        monitors_valid(available_monitors@, match primary_monitor { Some(m) => Some(*m), None => None }, None),
    ensures
        match placement_of(*window, match primary_monitor { Some(m) => Some(*m), None => None }, available_monitors@) {
            Ok(p) => (r matches Ok(a) && attributes_match(a, *window, p)),
            Err(e) => r == Err::<WindowAttributes, CreateError>(e),
        },
{
    let (fullscreen, position, inner_size) = match window.mode {
        WindowMode::BorderlessFullscreen => {
            let id = match primary_monitor {
                Some(m) => Some(m.id),
                None => None,
            };
            (Some(Fullscreen::Borderless(id)), None, None)
        },
        WindowMode::Fullscreen => match primary_monitor {
            None => return Err(CreateError::NoMonitor),
            Some(m) => match get_best_videomode(m) {
                Some(v) => (Some(Fullscreen::Exclusive(v)), None, None),
                None => return Err(CreateError::NoVideoMode),
            },
        },
        WindowMode::SizedFullscreen => match primary_monitor {
            None => return Err(CreateError::NoMonitor),
            Some(m) => match get_fitting_videomode(m, window.resolution.width(), window.resolution.height()) {
                Some(v) => (Some(Fullscreen::Exclusive(v)), None, None),
                None => return Err(CreateError::NoVideoMode),
            },
        },
        WindowMode::Windowed => {
            let position = tao_window_position(
                &window.position,
                &window.resolution,
                available_monitors,
                primary_monitor,
                None,
            );
            let size = match window.resolution.scale_factor_override {
                Some(_) => InnerSize::Physical {
                    width: window.resolution.physical_width,
                    height: window.resolution.physical_height,
                },
                None => InnerSize::Logical { width: window.resolution.width(), height: window.resolution.height() },
            };
            (None, position, Some(size))
        },
    };
    let theme = match window.window_theme {
        Some(t) => Some(convert_window_theme(t)),
        None => None,
    };
    let k = window.resize_constraints.check_constraints();
    let max_inner_size = match (k.max_width, k.max_height) {
        (Some(mw), Some(mh)) => Some((mw, mh)),
        _ => None,
    };
    Ok(WindowAttributes {
        fullscreen,
        position,
        inner_size,
        theme,
        resizable: window.resizable,
        decorations: window.decorations,
        min_inner_size: (k.min_width, k.min_height),
        max_inner_size,
        title: window.title.clone(),
        cursor_grab: if window.cursor.grab_mode != CursorGrabMode::Free { Some(true) } else { None },
        cursor_visible: window.cursor.visible,
        cursor_hit_test: if !window.cursor.hit_test { Some(false) } else { None },
    })
}

/// The resolution once the platform reports its scale factor `scale` (in
/// thousandths): the logical size stays, so where no override is in force
/// the physical size follows the new scale factor, rounded down.
pub open spec fn resolution_with_scale(r: WindowResolution, scale: u32) -> WindowResolution {
    match r.scale_factor_override {
        Some(_) => WindowResolution { scale_factor: scale, ..r },
        None => WindowResolution {
            scale_factor: scale,
            physical_width: scaled_down(r.physical_width, r.scale_factor, scale),
            physical_height: scaled_down(r.physical_height, r.scale_factor, scale),
            scale_factor_override: None,
        },
    }
}

/// A length at scale `from` brought to scale `to`, rounded down and at most
/// `u32::MAX`.
pub open spec fn scaled_down(length: u32, from: u32, to: u32) -> u32 {
    let v = (length as int * to as int) / (from as int);
    if v > u32::MAX { u32::MAX } else { v as u32 }
}

fn scaled_down_exec(length: u32, from: u32, to: u32) -> (r: u32)
    requires
        from > 0,
    ensures
        r == scaled_down(length, from, to),
{
    let l = length as u64;
    let t = to as u64;
    proof {
        assert(l * t <= 0xffff_ffff * 0xffff_ffff) by (nonlinear_arith)
            requires
                l <= 0xffff_ffff,
                t <= 0xffff_ffff,
        ;
    }
    let v: u64 = (l * t) / from as u64;
    if v > u32::MAX as u64 {
        u32::MAX
    } else {
        v as u32
    }
}

/// Corrects a newly created window's description with what the platform
/// reports, its theme and positive scale factor (in thousandths), and gives
/// the baseline snapshot, equal to the corrected description. An unknown
/// theme is an error and leaves the description as it was.
pub fn finish_create_window(
    window: &mut WindowDescriptor,
    theme: platform::Theme,
    scale_factor: u32,
) -> (r: Result<CachedWindow, UnsupportedVariant>)
    requires
        resolution_valid(old(window).resolution),
        scale_factor > 0,
    ensures
        match window_theme_of(theme) {
            Ok(t) => {
                &&& *final(window) == (WindowDescriptor {
                    window_theme: Some(t),
                    resolution: resolution_with_scale(old(window).resolution, scale_factor),
                    ..*old(window)
                })
                &&& resolution_valid(final(window).resolution)
                &&& (r matches Ok(c) && c.window == *final(window))
            },
            Err(e) => *final(window) == *old(window) && r == Err::<CachedWindow, UnsupportedVariant>(e),
        },
{
    let t = match convert_tao_theme(theme) {
        Ok(t) => t,
        Err(e) => return Err(e),
    };
    window.window_theme = Some(t);
    if window.resolution.scale_factor_override.is_none() {
        let old_scale = window.resolution.scale_factor;
        window.resolution.physical_width = scaled_down_exec(window.resolution.physical_width, old_scale, scale_factor);
        window.resolution.physical_height = scaled_down_exec(window.resolution.physical_height, old_scale, scale_factor);
    }
    window.resolution.scale_factor = scale_factor;
    Ok(CachedWindow { window: window.clone() })
}

/// The application windows, among `candidates`, that have no native window
/// yet, in the order given: creation is safe to ask for on every iteration.
pub fn windows_to_create<W>(windows: &TaoWindows<W>, candidates: &Vec<u64>) -> (r: Vec<u64>)
    requires
        windows.wf(),
    ensures
        r@ == candidates@.filter(|e: u64| !windows.is_registered(e)),
{
    let mut out: Vec<u64> = Vec::new();
    let mut i: usize = 0;
    while i < candidates.len()
        invariant
            windows.wf(),
            i <= candidates.len(),
            out@ == candidates@.subrange(0, i as int).filter(|e: u64| !windows.is_registered(e)),
        decreases candidates.len() - i,
    {
        let e = candidates[i];
        proof {
            assert(candidates@.subrange(0, i + 1) == candidates@.subrange(0, i as int).push(e));
            candidates@.subrange(0, i as int).lemma_filter_push(e, |e: u64| !windows.is_registered(e));
        }
        if windows.get_window(e).is_none() {
            out.push(e);
        }
        i = i + 1;
    }
    proof {
        assert(candidates@.subrange(0, candidates@.len() as int) == candidates@);
    }
    out
}

/// A window that has a native window is never picked for creation again, so
/// no second native window is built for it.
pub proof fn lemma_registered_not_recreated<W>(windows: TaoWindows<W>, candidates: Seq<u64>, entity: u64)
    requires
        windows.is_registered(entity),
    ensures
        !candidates.filter(|e: u64| !windows.is_registered(e)).contains(entity),
{
    let f = candidates.filter(|e: u64| !windows.is_registered(e));
    if f.contains(entity) {
        let i = choose|i: int| 0 <= i < f.len() && f[i] == entity;
        candidates.filter_lemma(|e: u64| !windows.is_registered(e));
        assert(!windows.is_registered(f[i]));
    }
}

/// Closes an application window whose window component was removed,
/// unless the entity still holds one (it was removed and added again in
/// the same tick). Returns whether the window was closed; its native
/// window, if it had one, is dropped.
pub fn despawn_window<W>(windows: &mut TaoWindows<W>, entity: u64, still_present: bool) -> (closed: bool)
    requires
        old(windows).wf(),
    ensures
        final(windows).wf(),
        closed == !still_present,
        still_present ==> final(windows)@ == old(windows)@,
        !still_present ==> {
            &&& final(windows).entity_to_tao@ == old(windows).entity_to_tao@.remove(entity)
            &&& final(windows).tao_to_entity@ == old(windows).tao_to_entity@
            &&& final(windows).windows@ == (if old(windows).is_registered(entity) {
                old(windows).windows@.remove(old(windows).native_id_of(entity))
            } else {
                old(windows).windows@
            })
        },
{
    if still_present {
        return false;
    }
    let _ = windows.remove_window(entity);
    true
}

/// What a change of the platform's scale factor does to a window.
#[derive(Debug, PartialEq)]
pub struct ScaleFactorChange {
    /// The window's resolution afterwards.
    pub resolution: WindowResolution,
    /// The physical size to give the native window.
    pub inner_width: u32,
    pub inner_height: u32,
    /// The effective scale factor changed: the application is told so.
    pub scale_factor_changed: bool,
    /// The new logical size, where it differs from the one before.
    pub resized: Option<(u32, u32)>,
}

/// The outcome of a scale factor change to `scale` (in thousandths), where
/// the platform suggests the physical size `suggested`. Under an override
/// the override keeps ruling: the window keeps its physical size and no
/// change of scale is reported. Otherwise the suggested size is taken, and
/// a change is reported where the effective scale factor differs. Either
/// way a resize is reported where the logical size differs.
pub open spec fn scale_change_of(r: WindowResolution, scale: u32, suggested: (u32, u32)) -> ScaleFactorChange {
    let prior = effective_scale(r);
    let (inner_w, inner_h, changed) = match r.scale_factor_override {
        Some(_) => (r.physical_width, r.physical_height, false),
        None => (suggested.0, suggested.1, scale != prior),
    };
    let after = WindowResolution { physical_width: inner_w, physical_height: inner_h, scale_factor: scale, ..r };
    let new_w = to_logical(inner_w, effective_scale(after)) as u32;
    let new_h = to_logical(inner_h, effective_scale(after)) as u32;
    let old_w = to_logical(r.physical_width, prior) as u32;
    let old_h = to_logical(r.physical_height, prior) as u32;
    ScaleFactorChange {
        resolution: after,
        inner_width: inner_w,
        inner_height: inner_h,
        scale_factor_changed: changed,
        resized: if new_w != old_w || new_h != old_h { Some((new_w, new_h)) } else { None },
    }
}

/// Decides what a change of the platform's scale factor to `scale` (in
/// thousandths, positive) does, given the physical size the platform
/// suggests.
pub fn scale_factor_changed(
    resolution: &WindowResolution,
    scale: u32,
    suggested_width: u32,
    suggested_height: u32,
) -> (r: ScaleFactorChange)
    requires
        resolution_valid(*resolution),
        scale > 0,
    ensures
        r == scale_change_of(*resolution, scale, (suggested_width, suggested_height)),
        resolution_valid(r.resolution),
{
    let prior = resolution.scale();
    let (inner_width, inner_height, changed) = match resolution.scale_factor_override {
        Some(_) => (resolution.physical_width, resolution.physical_height, false),
        None => (suggested_width, suggested_height, scale != prior),
    };
    let after = WindowResolution {
        physical_width: inner_width,
        physical_height: inner_height,
        scale_factor: scale,
        scale_factor_override: resolution.scale_factor_override,
    };
    let new_w = after.width();
    let new_h = after.height();
    let old_w = resolution.width();
    let old_h = resolution.height();
    ScaleFactorChange {
        resolution: after,
        inner_width,
        inner_height,
        scale_factor_changed: changed,
        resized: if new_w != old_w || new_h != old_h { Some((new_w, new_h)) } else { None },
    }
}

} // verus!

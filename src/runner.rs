//! The event loop's decisions, one iteration at a time.
//!
//! The platform's event loop calls the application once per event. For each
//! such iteration the caller asks [`TaoRunner::begin_iteration`] what to do
//! about the application's startup, then [`TaoRunner::handle_event`] what to
//! do about the event; a window event is then converted by
//! [`handle_window_event`].
use vstd::prelude::*;

use crate::converters::{
    button_state_of, convert_element_state, convert_keyboard_input, convert_mouse_button, convert_mouse_wheel,
    convert_tao_theme, convert_touch_input, key_code_of, mouse_button_of, touch_input_of, window_theme_of,
    UnsupportedVariant,
};
use crate::input::{AppEvent, KeyboardInput, MouseButtonInput, MouseScrollUnit, MouseWheel};
use crate::platform::{MouseScrollDelta, WindowEvent};
use crate::system::CachedWindow;
use crate::tao_config::{mode_directive, ControlFlow, TaoSettings, UpdateMode};
use crate::tao_windows::TaoWindows;
use crate::window::{effective_scale, resolution_valid, to_logical, WindowDescriptor, WindowPosition, WindowResolution};

verus! {

/// State that persists from one iteration to the next.
#[derive(Debug, Clone, Copy, PartialEq, Eq, Structural)]
pub struct TaoPersistentState {
    /// The application is active, not suspended.
    pub active: bool,
    /// An event that would wake a low-power loop arrived this iteration.
    pub low_power_event: bool,
    /// A redraw was requested this iteration.
    pub redraw_request_sent: bool,
    /// The loop woke because a wait timed out.
    pub timeout_reached: bool,
    /// When the application was last updated, in the caller's clock.
    pub last_update: u64,
}

/// The state before the first iteration: inactive, nothing seen yet.
pub open spec fn initial_state() -> TaoPersistentState {
    TaoPersistentState {
        active: false,
        low_power_event: false,
        redraw_request_sent: false,
        timeout_reached: false,
        last_update: 0,
    }
}

impl Default for TaoPersistentState {
    fn default() -> (r: Self)
        ensures
            r == initial_state(),
    {
        TaoPersistentState {
            active: false,
            low_power_event: false,
            redraw_request_sent: false,
            timeout_reached: false,
            last_update: 0,
        }
    }
}

/// An event from the platform's event loop.
#[derive(Debug, Clone, Copy, PartialEq, Eq, Structural)]
pub enum LoopEvent {
    /// The loop woke up; `timeout_reached` where a wait timed out.
    NewEvents { timeout_reached: bool },
    /// An event for the native window with this identifier.
    WindowEvent { native_id: u64 },
    /// Raw pointer motion, not tied to a window.
    DeviceMotion,
    Suspended,
    Resumed,
    /// All events of this iteration were delivered: time to update.
    MainEventsCleared,
    /// Redraws are done; `redraw_requested` where the application asked for
    /// a redraw during the update.
    RedrawEventsCleared { redraw_requested: bool },
    /// Any other event.
    Other,
}

/// What to do about the application's startup at the top of an iteration.
#[derive(Debug, Clone, Copy, PartialEq, Eq, Structural)]
pub enum StartupAction {
    /// Startup still runs: make progress on its background tasks.
    TickTaskPools,
    /// Startup is complete: run the finishing and clean-up hooks.
    FinishSetup,
    /// Startup was complete already.
    Nothing,
}

/// What to do with an event.
#[derive(Debug, Clone, Copy, PartialEq, Eq, Structural)]
pub enum Dispatch {
    /// The application asked to exit: dispatch nothing more.
    Exit,
    /// The event is for a window this registry never knew: discard it.
    UnknownWindow,
    /// The event is for a window that is closing: discard it.
    ClosedWindow { entity: u64 },
    /// Convert the event for this application window.
    Window { entity: u64 },
    /// Convert the device event.
    Device,
    /// Run one application update.
    Update,
    /// Nothing to dispatch.
    Nothing,
}

/// The decisions for one event.
#[derive(Debug, Clone, Copy, PartialEq, Eq, Structural)]
pub struct IterationPlan {
    /// The directive to give the platform loop, if it changes.
    pub control_flow: Option<ControlFlow>,
    pub dispatch: Dispatch,
    /// Create native windows for newly declared windows afterwards.
    pub create_windows: bool,
}

/// The event loop driver: waits for the application's startup, then runs.
#[derive(Debug)]
pub struct TaoRunner {
    /// The application's startup completed; this never reverts.
    pub setup_done: bool,
    pub state: TaoPersistentState,
    /// The update mode the loop defers to when no redraw was requested.
    pub update_mode: UpdateMode,
}

/// What the state becomes on an event, and what is dispatched, where no
/// exit is asked for and the event is no window event. Nothing reaches the
/// application before its startup is complete, and an update runs only
/// while it is active.
pub open spec fn plan_for(
    setup_done: bool,
    mode: UpdateMode,
    s: TaoPersistentState,
    event: LoopEvent,
    now: u64,
) -> (TaoPersistentState, Option<ControlFlow>, Dispatch) {
    match event {
        LoopEvent::NewEvents { timeout_reached } => (
            TaoPersistentState { low_power_event: false, timeout_reached, ..s },
            None,
            Dispatch::Nothing,
        ),
        LoopEvent::DeviceMotion => (s, None, if setup_done { Dispatch::Device } else { Dispatch::Nothing }),
        LoopEvent::Suspended => (TaoPersistentState { active: false, ..s }, None, Dispatch::Nothing),
        LoopEvent::Resumed => (TaoPersistentState { active: true, ..s }, None, Dispatch::Nothing),
        LoopEvent::MainEventsCleared => if setup_done && s.active {
            (TaoPersistentState { last_update: now, ..s }, None, Dispatch::Update)
        } else {
            (s, None, Dispatch::Nothing)
        },
        LoopEvent::RedrawEventsCleared { redraw_requested } => (
            TaoPersistentState { redraw_request_sent: redraw_requested, ..s },
            Some(if redraw_requested { ControlFlow::Poll } else { mode_directive(mode) }),
            Dispatch::Nothing,
        ),
        _ => (s, None, Dispatch::Nothing),
    }
}

impl TaoRunner {
    /// A driver that waits for the application's startup, with the
    /// settings' focused update mode.
    pub fn new(settings: &TaoSettings) -> (r: Self)
        ensures
            !r.setup_done,
            r.state == initial_state(),
            r.update_mode == settings.focused_mode,
    {
        TaoRunner { setup_done: false, state: TaoPersistentState::default(), update_mode: settings.focused_mode }
    }

    /// The startup step at the top of an iteration: progress on startup
    /// while the application is not ready; once it is, finishing it, once.
    pub fn begin_iteration(&mut self, app_ready: bool) -> (r: StartupAction)
        ensures
            final(self).state == old(self).state,
            final(self).update_mode == old(self).update_mode,
            final(self).setup_done == (old(self).setup_done || app_ready),
            r == (if old(self).setup_done {
                StartupAction::Nothing
            } else if app_ready {
                StartupAction::FinishSetup
            } else {
                StartupAction::TickTaskPools
            }),
    {
        if self.setup_done {
            StartupAction::Nothing
        } else if app_ready {
            self.setup_done = true;
            StartupAction::FinishSetup
        } else {
            StartupAction::TickTaskPools
        }
    }

    /// Decides what an event does. An exit request ends the loop: nothing
    /// is dispatched and nothing changes. Until the application's startup
    /// is complete no event reaches it. After that, a window event goes to
    /// the window it belongs to, or is discarded where that window is
    /// unknown or closing, and the tick-complete event runs one update while
    /// the application is active. Newly declared windows are created while
    /// the application is active, unless the event was discarded.
    pub fn handle_event<W>(
        &mut self,
        event: LoopEvent,
        exit_requested: bool,
        windows: &TaoWindows<W>,
        now: u64,
    ) -> (r: IterationPlan)
        requires
            windows.wf(),
        ensures
            final(self).setup_done == old(self).setup_done,
            final(self).update_mode == old(self).update_mode,
            exit_requested ==> {
                &&& r == (IterationPlan {
                    control_flow: Some(ControlFlow::Exit),
                    dispatch: Dispatch::Exit,
                    create_windows: false,
                })
                &&& final(self).state == old(self).state
            },
            !old(self).setup_done ==> !(r.dispatch is Window) && !(r.dispatch is Device) && !(r.dispatch is Update),
            !exit_requested && event is WindowEvent && !old(self).setup_done ==> {
                &&& r == (IterationPlan {
                    control_flow: None,
                    dispatch: Dispatch::Nothing,
                    create_windows: old(self).state.active,
                })
                &&& final(self).state == old(self).state
            },
            !exit_requested && event is WindowEvent && old(self).setup_done ==> {
                let n = event->native_id;
                if !windows.tao_to_entity@.contains_key(n) {
                    &&& r == (IterationPlan { control_flow: None, dispatch: Dispatch::UnknownWindow, create_windows: false })
                    &&& final(self).state == old(self).state
                } else if !windows.is_registered(windows.tao_to_entity@[n]) {
                    &&& r == (IterationPlan {
                        control_flow: None,
                        dispatch: Dispatch::ClosedWindow { entity: windows.tao_to_entity@[n] },
                        create_windows: false,
                    })
                    &&& final(self).state == old(self).state
                } else {
                    &&& r == (IterationPlan {
                        control_flow: None,
                        dispatch: Dispatch::Window { entity: windows.tao_to_entity@[n] },
                        create_windows: old(self).state.active,
                    })
                    &&& final(self).state == TaoPersistentState { low_power_event: true, ..old(self).state }
                }
            },
            !exit_requested && !(event is WindowEvent) ==> {
                let (s, cf, d) = plan_for(old(self).setup_done, old(self).update_mode, old(self).state, event, now);
                &&& final(self).state == s
                &&& r == (IterationPlan { control_flow: cf, dispatch: d, create_windows: s.active })
            },
    {
        if exit_requested {
            return IterationPlan { control_flow: Some(ControlFlow::Exit), dispatch: Dispatch::Exit, create_windows: false };
        }
        let mut control_flow: Option<ControlFlow> = None;
        let mut dispatch = Dispatch::Nothing;
        match event {
            LoopEvent::NewEvents { timeout_reached } => {
                self.state.low_power_event = false;
                self.state.timeout_reached = timeout_reached;
            },
            LoopEvent::WindowEvent { native_id } => {
                if !self.setup_done {
                    return IterationPlan {
                        control_flow: None,
                        dispatch: Dispatch::Nothing,
                        create_windows: self.state.active,
                    };
                }
                let entity = match windows.get_window_entity(native_id) {
                    Some(e) => e,
                    None => {
                        return IterationPlan { control_flow: None, dispatch: Dispatch::UnknownWindow, create_windows: false };
                    },
                };
                if windows.get_window(entity).is_none() {
                    return IterationPlan {
                        control_flow: None,
                        dispatch: Dispatch::ClosedWindow { entity },
                        create_windows: false,
                    };
                }
                self.state.low_power_event = true;
                dispatch = Dispatch::Window { entity };
            },
            LoopEvent::DeviceMotion => {
                if self.setup_done {
                    dispatch = Dispatch::Device;
                }
            },
            LoopEvent::Suspended => {
                self.state.active = false;
            },
            LoopEvent::Resumed => {
                self.state.active = true;
            },
            LoopEvent::MainEventsCleared => {
                if self.setup_done && self.state.active {
                    self.state.last_update = now;
                    dispatch = Dispatch::Update;
                }
            },
            LoopEvent::RedrawEventsCleared { redraw_requested } => {
                control_flow = Some(if redraw_requested { ControlFlow::Poll } else { self.update_mode.directive() });
                self.state.redraw_request_sent = redraw_requested;
            },
            LoopEvent::Other => {},
        }
        IterationPlan { control_flow, dispatch, create_windows: self.state.active }
    }
}

/// Whether an event writes to the window's description.
pub open spec fn event_touches_window<F>(event: WindowEvent<F>) -> bool {
    match event {
        WindowEvent::Resized { .. } => true,
        WindowEvent::CursorMoved(_) => true,
        WindowEvent::CursorLeft => true,
        WindowEvent::Focused(_) => true,
        WindowEvent::Moved(_) => true,
        WindowEvent::ThemeChanged(t) => window_theme_of(t) is Ok,
        _ => false,
    }
}

/// The description after an event: the size, cursor position, focus,
/// position and theme follow what the platform reports.
pub open spec fn window_after_event<F>(w: WindowDescriptor, event: WindowEvent<F>) -> WindowDescriptor {
    match event {
        WindowEvent::Resized { width, height } => WindowDescriptor {
            resolution: WindowResolution {
                physical_width: width,
                physical_height: height,
                ..w.resolution
            },
            ..w
        },
        WindowEvent::CursorMoved(p) => WindowDescriptor { physical_cursor_position: Some(p), ..w },
        WindowEvent::CursorLeft => WindowDescriptor { physical_cursor_position: None, ..w },
        WindowEvent::Focused(focused) => WindowDescriptor { focused, ..w },
        WindowEvent::Moved(p) => WindowDescriptor { position: WindowPosition::At(p.x, p.y), ..w },
        WindowEvent::ThemeChanged(t) => match window_theme_of(t) {
            Ok(theme) => WindowDescriptor { window_theme: Some(theme), ..w },
            Err(_) => w,
        },
        _ => w,
    }
}

/// The application event for a window event on `window`, whose
/// description was `w` before the event; an error where the event holds a
/// value this library does not know.
pub open spec fn app_event_of<F>(window: u64, event: WindowEvent<F>, w: WindowDescriptor) -> Result<
    Option<AppEvent<F>>,
    UnsupportedVariant,
> {
    match event {
        WindowEvent::Resized { width, height } => {
            let scale = effective_scale(w.resolution);
            Ok(
                Some(
                    AppEvent::WindowResized {
                        window,
                        width: to_logical(width, scale) as u32,
                        height: to_logical(height, scale) as u32,
                    },
                ),
            )
        },
        WindowEvent::CloseRequested => Ok(Some(AppEvent::WindowCloseRequested { window })),
        WindowEvent::KeyboardInput(k) => match button_state_of(k.state) {
            Ok(state) => Ok(
                Some(
                    AppEvent::KeyboardInput(
                        KeyboardInput { scan_code: k.scan_code, state, key_code: key_code_of(k.logical_key), window },
                    ),
                ),
            ),
            Err(e) => Err(e),
        },
        WindowEvent::CursorMoved(p) => Ok(Some(AppEvent::CursorMoved { window, physical_position: p })),
        WindowEvent::CursorEntered => Ok(Some(AppEvent::CursorEntered { window })),
        WindowEvent::CursorLeft => Ok(Some(AppEvent::CursorLeft { window })),
        WindowEvent::MouseInput { state, button } => match (button_state_of(state), mouse_button_of(button)) {
            (Ok(state), Ok(button)) => Ok(Some(AppEvent::MouseButtonInput(MouseButtonInput { button, state, window }))),
            (_, Err(e)) => Err(e),
            (Err(e), _) => Err(e),
        },
        WindowEvent::MouseWheel(delta) => match delta {
            MouseScrollDelta::LineDelta(x, y) => Ok(
                Some(AppEvent::MouseWheel(MouseWheel { unit: MouseScrollUnit::Line, x, y, window })),
            ),
            MouseScrollDelta::PixelDelta(x, y) => Ok(
                Some(AppEvent::MouseWheel(MouseWheel { unit: MouseScrollUnit::Pixel, x, y, window })),
            ),
            MouseScrollDelta::Unrecognized => Err(UnsupportedVariant::MouseScrollDelta),
        },
        WindowEvent::Touch { touch, location } => match touch_input_of(touch, location) {
            Ok(t) => Ok(Some(AppEvent::TouchInput(t))),
            Err(e) => Err(e),
        },
        WindowEvent::ReceivedImeText(text) => if text@.len() > 0 {
            Ok(Some(AppEvent::ReceivedCharacter { window, char: text@[0] }))
        } else {
            Ok(None)
        },
        WindowEvent::Focused(focused) => Ok(Some(AppEvent::WindowFocused { window, focused })),
        WindowEvent::DroppedFile(path) => Ok(Some(AppEvent::DroppedFile { window, path })),
        WindowEvent::HoveredFile(path) => Ok(Some(AppEvent::HoveredFile { window, path })),
        WindowEvent::HoveredFileCancelled => Ok(Some(AppEvent::HoveredFileCanceled { window })),
        WindowEvent::Moved(position) => Ok(Some(AppEvent::WindowMoved { window, position })),
        WindowEvent::ThemeChanged(t) => match window_theme_of(t) {
            Ok(theme) => Ok(Some(AppEvent::WindowThemeChanged { window, theme })),
            Err(e) => Err(e),
        },
        WindowEvent::Destroyed => Ok(Some(AppEvent::WindowDestroyed { window })),
        WindowEvent::Other => Ok(None),
    }
}

/// Converts an event for the application window `entity`, whose
/// description is `window`.
///
/// The description takes on what the event reports; where it does, the
/// snapshot in `cache` is refreshed afterwards, so that reconciliation does
/// not echo the platform's own change back to it.
pub fn handle_window_event<F: Copy>(
    entity: u64,
    event: WindowEvent<F>,
    window: &mut WindowDescriptor,
    cache: &mut CachedWindow,
) -> (r: Result<Option<AppEvent<F>>, UnsupportedVariant>)
    requires
        resolution_valid(old(window).resolution),
    ensures
        r == app_event_of(entity, event, *old(window)),
        *final(window) == window_after_event(*old(window), event),
        event_touches_window(event) ==> final(cache).window == *final(window),
        !event_touches_window(event) ==> final(cache).window == old(cache).window,
{
    let ghost event0 = event;
    let touched: bool;
    let r = match event {
        WindowEvent::Resized { width, height } => {
            window.resolution.physical_width = width;
            window.resolution.physical_height = height;
            touched = true;
            let w = window.resolution.width();
            let h = window.resolution.height();
            Ok(Some(AppEvent::WindowResized { window: entity, width: w, height: h }))
        },
        WindowEvent::CloseRequested => {
            touched = false;
            Ok(Some(AppEvent::WindowCloseRequested { window: entity }))
        },
        WindowEvent::KeyboardInput(k) => {
            touched = false;
            match convert_keyboard_input(&k, entity) {
                Ok(input) => Ok(Some(AppEvent::KeyboardInput(input))),
                Err(e) => Err(e),
            }
        },
        WindowEvent::CursorMoved(p) => {
            window.physical_cursor_position = Some(p);
            touched = true;
            Ok(Some(AppEvent::CursorMoved { window: entity, physical_position: p }))
        },
        WindowEvent::CursorEntered => {
            touched = false;
            Ok(Some(AppEvent::CursorEntered { window: entity }))
        },
        WindowEvent::CursorLeft => {
            window.physical_cursor_position = None;
            touched = true;
            Ok(Some(AppEvent::CursorLeft { window: entity }))
        },
        WindowEvent::MouseInput { state, button } => {
            touched = false;
            let button = convert_mouse_button(button);
            let state = convert_element_state(state);
            match (state, button) {
                (Ok(state), Ok(button)) => Ok(Some(AppEvent::MouseButtonInput(MouseButtonInput { button, state, window: entity }))),
                (_, Err(e)) => Err(e),
                (Err(e), _) => Err(e),
            }
        },
        WindowEvent::MouseWheel(delta) => {
            touched = false;
            match convert_mouse_wheel(delta, entity) {
                Ok(wheel) => Ok(Some(AppEvent::MouseWheel(wheel))),
                Err(e) => Err(e),
            }
        },
        WindowEvent::Touch { touch, location } => {
            touched = false;
            match convert_touch_input(touch, location) {
                Ok(t) => Ok(Some(AppEvent::TouchInput(t))),
                Err(e) => Err(e),
            }
        },
        WindowEvent::ReceivedImeText(text) => {
            touched = false;
            let mut chars = text.as_str().chars();
            match chars.next() {
                Some(c) => Ok(Some(AppEvent::ReceivedCharacter { window: entity, char: c })),
                None => Ok(None),
            }
        },
        WindowEvent::Focused(focused) => {
            window.focused = focused;
            touched = true;
            Ok(Some(AppEvent::WindowFocused { window: entity, focused }))
        },
        WindowEvent::DroppedFile(path) => {
            touched = false;
            Ok(Some(AppEvent::DroppedFile { window: entity, path }))
        },
        WindowEvent::HoveredFile(path) => {
            touched = false;
            Ok(Some(AppEvent::HoveredFile { window: entity, path }))
        },
        WindowEvent::HoveredFileCancelled => {
            touched = false;
            Ok(Some(AppEvent::HoveredFileCanceled { window: entity }))
        },
        WindowEvent::Moved(p) => {
            window.position = WindowPosition::At(p.x, p.y);
            touched = true;
            Ok(Some(AppEvent::WindowMoved { window: entity, position: p }))
        },
        WindowEvent::ThemeChanged(t) => match convert_tao_theme(t) {
            Ok(theme) => {
                window.window_theme = Some(theme);
                touched = true;
                Ok(Some(AppEvent::WindowThemeChanged { window: entity, theme }))
            },
            Err(e) => {
                touched = false;
                Err(e)
            },
        },
        WindowEvent::Destroyed => {
            touched = false;
            Ok(Some(AppEvent::WindowDestroyed { window: entity }))
        },
        WindowEvent::Other => {
            touched = false;
            Ok(None)
        },
    };
    proof {
        assert(touched == event_touches_window(event0));
    }
    if touched {
        cache.window = window.clone();
    }
    r
}

} // verus!

//! Window lifecycle, declarative/imperative reconciliation and event
//! conversion for a single-threaded windowing event loop.
//!
//! The library holds the decisions: which native windows exist for which
//! application windows, which native calls bring a native window in line with
//! its declared description, how platform events map into the
//! application's vocabulary, and what the event loop does on each iteration.
//! Making native calls is left to the caller.

mod converters;
mod input;
pub mod platform;
mod runner;
mod system;
mod tao_config;
mod tao_windows;
mod window;

pub use converters::{
    convert_cursor_icon, convert_element_state, convert_keyboard_input, convert_mouse_button, convert_mouse_wheel,
    convert_tao_theme, convert_touch_input, convert_virtual_key_code, convert_window_theme,
    lemma_cursor_icon_bijective, set_window_level, UnsupportedVariant,
};
pub use input::{
    AppEvent, ButtonState, ForceTouch, KeyCode, KeyboardInput, MouseButton, MouseButtonInput, MouseScrollUnit,
    MouseWheel, TouchInput, TouchPhase,
};
pub use runner::{
    handle_window_event, Dispatch, IterationPlan, LoopEvent, StartupAction, TaoPersistentState, TaoRunner,
};
pub use system::{
    changed_window, despawn_window, finish_changed_window, finish_create_window, lemma_hit_test_rollback, lemma_registered_not_recreated, scale_factor_changed,
    lemma_unchanged_needs_no_call, window_attributes, windows_to_create, CachedWindow, CreateError, Fullscreen,
    InnerSize, NativeWindowState, Reconciliation, ScaleFactorChange, WindowAttributes, WindowCommand, WindowTitleCache,
};
pub use tao_config::{ControlFlow, ReturnUnsupported, RunDiscipline, TaoSettings, UpdateMode};
pub use tao_windows::{
    get_best_videomode, get_fitting_videomode, lemma_create_idempotent, tao_window_position, CreateOutcome,
    MonitorInfo, RegistryView, TaoWindows, VideoMode,
};
pub use window::{
    Cursor, CursorGrabMode, CursorIcon, IVec2, MonitorSelection, WindowDescriptor, WindowLevel, WindowMode,
    WindowPosition, WindowResizeConstraints, WindowResolution, WindowTheme, SCALE_ONE,
};

use bevy_tao::{
    ControlFlow, CreateOutcome, Dispatch, IterationPlan, LoopEvent, ReturnUnsupported, RunDiscipline, StartupAction,
    TaoPersistentState, TaoRunner, TaoSettings, TaoWindows, UpdateMode,
};

fn registry() -> TaoWindows<()> {
    let mut reg = TaoWindows::new();
    assert!(matches!(reg.create_window(1, 10, ()), CreateOutcome::Created));
    assert!(matches!(reg.create_window(2, 20, ()), CreateOutcome::Created));
    reg.remove_window(2);
    reg
}

#[test]
fn exit_request_ends_the_iteration() {
    let reg = registry();
    let mut runner = TaoRunner::new(&TaoSettings::default());
    runner.handle_event(LoopEvent::Resumed, false, &reg, 0);
    let before = runner.state;
    let plan = runner.handle_event(LoopEvent::WindowEvent { native_id: 10 }, true, &reg, 5);
    assert_eq!(
        plan,
        IterationPlan { control_flow: Some(ControlFlow::Exit), dispatch: Dispatch::Exit, create_windows: false }
    );
    assert_eq!(runner.state, before);
}

#[test]
fn startup_is_waited_for_then_finished_once() {
    let mut runner = TaoRunner::new(&TaoSettings::default());
    assert_eq!(runner.begin_iteration(false), StartupAction::TickTaskPools);
    assert!(!runner.setup_done);
    assert_eq!(runner.begin_iteration(true), StartupAction::FinishSetup);
    assert!(runner.setup_done);
    assert_eq!(runner.begin_iteration(false), StartupAction::Nothing);
    assert_eq!(runner.begin_iteration(true), StartupAction::Nothing);
}

#[test]
fn update_runs_only_after_startup() {
    let reg = registry();
    let mut runner = TaoRunner::new(&TaoSettings::default());
    runner.handle_event(LoopEvent::Resumed, false, &reg, 0);
    let plan = runner.handle_event(LoopEvent::MainEventsCleared, false, &reg, 7);
    assert_eq!(plan.dispatch, Dispatch::Nothing);
    assert_eq!(runner.state.last_update, 0);
    runner.begin_iteration(true);
    let plan = runner.handle_event(LoopEvent::MainEventsCleared, false, &reg, 7);
    assert_eq!(plan.dispatch, Dispatch::Update);
    assert_eq!(runner.state.last_update, 7);
}

#[test]
fn no_update_while_suspended() {
    let reg = registry();
    let mut runner = TaoRunner::new(&TaoSettings::default());
    runner.begin_iteration(true);
    let plan = runner.handle_event(LoopEvent::MainEventsCleared, false, &reg, 7);
    assert_eq!(plan.dispatch, Dispatch::Nothing);
    assert_eq!(runner.state.last_update, 0);
    runner.handle_event(LoopEvent::Resumed, false, &reg, 8);
    runner.handle_event(LoopEvent::Suspended, false, &reg, 9);
    let plan = runner.handle_event(LoopEvent::MainEventsCleared, false, &reg, 10);
    assert_eq!(plan.dispatch, Dispatch::Nothing);
    assert_eq!(runner.state.last_update, 0);
}

#[test]
fn nothing_reaches_the_application_before_startup() {
    let reg = registry();
    let mut runner = TaoRunner::new(&TaoSettings::default());
    runner.handle_event(LoopEvent::Resumed, false, &reg, 0);
    assert_eq!(runner.begin_iteration(false), StartupAction::TickTaskPools);
    let before = runner.state;
    let plan = runner.handle_event(LoopEvent::WindowEvent { native_id: 10 }, false, &reg, 0);
    assert_eq!(plan, IterationPlan { control_flow: None, dispatch: Dispatch::Nothing, create_windows: true });
    assert_eq!(runner.state, before);
    assert_eq!(runner.handle_event(LoopEvent::DeviceMotion, false, &reg, 0).dispatch, Dispatch::Nothing);
    assert_eq!(runner.handle_event(LoopEvent::MainEventsCleared, false, &reg, 0).dispatch, Dispatch::Nothing);
    runner.begin_iteration(true);
    assert_eq!(runner.handle_event(LoopEvent::DeviceMotion, false, &reg, 0).dispatch, Dispatch::Device);
}

#[test]
fn window_events_resolve_or_are_discarded() {
    let reg = registry();
    let mut runner = TaoRunner::new(&TaoSettings::default());
    runner.begin_iteration(true);
    runner.handle_event(LoopEvent::Resumed, false, &reg, 0);
    let plan = runner.handle_event(LoopEvent::WindowEvent { native_id: 10 }, false, &reg, 0);
    assert_eq!(plan, IterationPlan { control_flow: None, dispatch: Dispatch::Window { entity: 1 }, create_windows: true });
    assert!(runner.state.low_power_event);
    let plan = runner.handle_event(LoopEvent::WindowEvent { native_id: 20 }, false, &reg, 0);
    assert_eq!(plan.dispatch, Dispatch::ClosedWindow { entity: 2 });
    assert!(!plan.create_windows);
    let plan = runner.handle_event(LoopEvent::WindowEvent { native_id: 99 }, false, &reg, 0);
    assert_eq!(plan.dispatch, Dispatch::UnknownWindow);
    assert!(!plan.create_windows);
}

#[test]
fn new_events_reset_the_tick() {
    let reg = registry();
    let mut runner = TaoRunner::new(&TaoSettings::default());
    runner.begin_iteration(true);
    runner.handle_event(LoopEvent::WindowEvent { native_id: 10 }, false, &reg, 0);
    assert!(runner.state.low_power_event);
    runner.handle_event(LoopEvent::NewEvents { timeout_reached: true }, false, &reg, 0);
    assert!(!runner.state.low_power_event);
    assert!(runner.state.timeout_reached);
    runner.handle_event(LoopEvent::NewEvents { timeout_reached: false }, false, &reg, 0);
    assert!(!runner.state.timeout_reached);
}

#[test]
fn suspension_stops_window_creation() {
    let reg = registry();
    let mut runner = TaoRunner::new(&TaoSettings::default());
    assert!(!runner.handle_event(LoopEvent::Other, false, &reg, 0).create_windows);
    assert!(runner.handle_event(LoopEvent::Resumed, false, &reg, 0).create_windows);
    assert!(runner.handle_event(LoopEvent::DeviceMotion, false, &reg, 0).create_windows);
    assert!(!runner.handle_event(LoopEvent::Suspended, false, &reg, 0).create_windows);
    assert!(!runner.state.active);
}

#[test]
fn end_of_iteration_polls() {
    let reg = registry();
    let mut runner = TaoRunner::new(&TaoSettings::default());
    let plan = runner.handle_event(LoopEvent::RedrawEventsCleared { redraw_requested: true }, false, &reg, 0);
    assert_eq!(plan.control_flow, Some(ControlFlow::Poll));
    assert!(runner.state.redraw_request_sent);
    let plan = runner.handle_event(LoopEvent::RedrawEventsCleared { redraw_requested: false }, false, &reg, 0);
    assert_eq!(plan.control_flow, Some(ControlFlow::Poll));
    assert!(!runner.state.redraw_request_sent);
}

#[test]
fn settings_default_and_modes() {
    let s = TaoSettings::default();
    assert!(!s.return_from_run);
    assert_eq!(s.focused_mode, UpdateMode::Continuous);
    assert_eq!(s.unfocused_mode, UpdateMode::Continuous);
    assert_eq!(s.update_mode(false), UpdateMode::Continuous);
    assert_eq!(UpdateMode::Continuous.directive(), ControlFlow::Poll);
    let st = TaoPersistentState::default();
    assert!(!st.active && !st.low_power_event && !st.redraw_request_sent && !st.timeout_reached);
}

#[test]
fn returning_from_the_loop_needs_a_desktop_platform() {
    let mut s = TaoSettings::default();
    assert_eq!(s.run_discipline(false), Ok(RunDiscipline::NeverReturn));
    s.return_from_run = true;
    assert_eq!(s.run_discipline(true), Ok(RunDiscipline::ReturnToCaller));
    assert_eq!(s.run_discipline(false), Err(ReturnUnsupported));
}

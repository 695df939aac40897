use vstd::prelude::*;

verus! {

/// How the event loop updates the application.
#[derive(Debug, Clone, Copy, PartialEq, Eq, Structural)]
pub enum UpdateMode {
    /// The event loop updates continuously, running as fast as possible.
    Continuous,
}

/// The directive the event loop gives the platform loop after an iteration.
#[derive(Debug, Clone, Copy, PartialEq, Eq, Structural)]
pub enum ControlFlow {
    /// Run the next iteration immediately.
    Poll,
    /// Leave the event loop.
    Exit,
}

/// Configuration of the event loop, read once when the loop starts.
#[derive(Debug)]
pub struct TaoSettings {
    /// Return control to the caller once the event loop exits, instead of
    /// ending the process. Only desktop platforms can do this.
    pub return_from_run: bool,
    /// How the loop updates while a window is focused.
    pub focused_mode: UpdateMode,
    /// How the loop updates while no window is focused.
    pub unfocused_mode: UpdateMode,
}

impl Default for TaoSettings {
    fn default() -> (r: Self)
        ensures
            !r.return_from_run,
            r.focused_mode == UpdateMode::Continuous,
            r.unfocused_mode == UpdateMode::Continuous,
    {
        TaoSettings {
            return_from_run: false,
            focused_mode: UpdateMode::Continuous,
            unfocused_mode: UpdateMode::Continuous,
        }
    }
}

/// The directive that an update mode asks for at the end of an iteration.
pub open spec fn mode_directive(mode: UpdateMode) -> ControlFlow {
    match mode {
        UpdateMode::Continuous => ControlFlow::Poll,
    }
}

impl UpdateMode {
    /// The directive this update mode gives at the end of an iteration.
    pub fn directive(&self) -> (r: ControlFlow)
        ensures
            r == mode_directive(*self),
    {
        match self {
            UpdateMode::Continuous => ControlFlow::Poll,
        }
    }
}

impl TaoSettings {
    /// The update mode in force, given whether a window has focus.
    pub fn update_mode(&self, focused: bool) -> (r: UpdateMode)
        ensures
            r == (if focused { self.focused_mode } else { self.unfocused_mode }),
    {
        if focused {
            self.focused_mode
        } else {
            self.unfocused_mode
        }
    }
}

/// How the event loop ends.
#[derive(Debug, Clone, Copy, PartialEq, Eq, Structural)]
pub enum RunDiscipline {
    /// The process ends when the loop exits.
    NeverReturn,
    /// The loop exits back into the calling code.
    ReturnToCaller,
}

/// Returning from the event loop was asked for on a platform that cannot.
#[derive(Debug, Clone, Copy, PartialEq, Eq, Structural)]
pub struct ReturnUnsupported;

impl TaoSettings {
    /// How the event loop is to end, on a platform that can return control
    /// to the caller where `desktop` holds. Returning is refused elsewhere.
    pub fn run_discipline(&self, desktop: bool) -> (r: Result<RunDiscipline, ReturnUnsupported>)
        ensures
            !self.return_from_run ==> r == Ok::<RunDiscipline, ReturnUnsupported>(RunDiscipline::NeverReturn),
            self.return_from_run && desktop ==> r == Ok::<RunDiscipline, ReturnUnsupported>(
                RunDiscipline::ReturnToCaller,
            ),
            self.return_from_run && !desktop ==> r == Err::<RunDiscipline, ReturnUnsupported>(ReturnUnsupported),
    {
        if !self.return_from_run {
            Ok(RunDiscipline::NeverReturn)
        } else if desktop {
            Ok(RunDiscipline::ReturnToCaller)
        } else {
            Err(ReturnUnsupported)
        }
    }
}

} // verus!

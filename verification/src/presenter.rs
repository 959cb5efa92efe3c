//! Opening and closing the presenter window, one request to the windowing
//! host at a time.
//!
//! The controller never touches the host. It says what to ask next; the
//! caller asks, and reports whether the host accepted. A run is over when
//! the step is [`PresenterStep::Done`].

use vstd::prelude::*;
use crate::error::{ErrorKind, Failure};
use crate::monitor::{secondary_geometry, select_geometry, MonitorDescriptor, WindowGeometry};

verus! {

/// The name under which the host knows the presenter window.
pub open spec fn presenter_label() -> Seq<char> {
    "singleview"@
}

/// The title shown on the presenter window.
pub open spec fn presenter_title() -> Seq<char> {
    "PDF Presenter"@
}

/// The page of the front-end that the presenter window loads.
pub open spec fn presenter_route() -> Seq<char> {
    "single"@
}

/// Whether the presenter window exists.
#[derive(Debug, Clone, Copy, PartialEq, Eq, Structural)]
pub enum WindowState {
    Absent,
    Open,
}

/// A window to be created.
#[derive(Debug)]
pub struct WindowPlan {
    pub label: String,
    pub title: String,
    pub route: String,
    /// Size and position, or `None` to leave both to the host.
    pub geometry: Option<WindowGeometry>,
    /// Whether the window is created full-screen.
    pub fullscreen: bool,
}

/// A [`WindowPlan`] as values.
pub ghost struct Plan {
    pub label: Seq<char>,
    pub title: Seq<char>,
    pub route: Seq<char>,
    pub geometry: Option<WindowGeometry>,
    pub fullscreen: bool,
}

impl View for WindowPlan {
    type V = Plan;

    open spec fn view(&self) -> Plan {
        Plan {
            label: self.label@,
            title: self.title@,
            route: self.route@,
            geometry: self.geometry,
            fullscreen: self.fullscreen,
        }
    }
}

/// What the caller does next.
#[derive(Debug)]
pub enum PresenterStep {
    /// Create the window described.
    CreateWindow(WindowPlan),
    /// Make the window just created full-screen.
    SetFullscreen,
    /// Close the presenter window.
    CloseWindow,
    /// Nothing: the run is over, with this result.
    Done(Result<(), ErrorKind>),
}

/// A [`PresenterStep`] as values.
pub ghost enum Step {
    CreateWindow(Plan),
    SetFullscreen,
    CloseWindow,
    Done(Result<(), Failure>),
}

impl View for PresenterStep {
    type V = Step;

    open spec fn view(&self) -> Step {
        match self {
            PresenterStep::CreateWindow(plan) => Step::CreateWindow(plan@),
            PresenterStep::SetFullscreen => Step::SetFullscreen,
            PresenterStep::CloseWindow => Step::CloseWindow,
            PresenterStep::Done(Ok(_)) => Step::Done(Ok(())),
            PresenterStep::Done(Err(e)) => Step::Done(Err(e@)),
        }
    }
}

/// The host's answer to one request: accepted, or refused with its text.
pub open spec fn reply_model(reply: Result<(), String>) -> Result<(), Seq<char>> {
    match reply {
        Ok(_) => Ok(()),
        Err(text) => Err(text@),
    }
}

/// The result of a run, as values.
pub open spec fn outcome_model(outcome: Result<(), ErrorKind>) -> Result<(), Failure> {
    match outcome {
        Ok(_) => Ok(()),
        Err(e) => Err(e@),
    }
}

/// The host's list of displays, or its text for why there is none.
pub open spec fn monitors_model(monitors: Result<Vec<MonitorDescriptor>, String>) -> Result<
    Seq<MonitorDescriptor>,
    Seq<char>,
> {
    match monitors {
        Ok(list) => Ok(list@),
        Err(text) => Err(text@),
    }
}

/// The presenter window on the displays `monitors`. With a second display
/// it covers that display and is made full-screen once it exists; without
/// one it is created full-screen wherever the host puts it.
pub open spec fn plan_for(monitors: Seq<MonitorDescriptor>) -> Plan {
    Plan {
        label: presenter_label(),
        title: presenter_title(),
        route: presenter_route(),
        geometry: secondary_geometry(monitors),
        fullscreen: secondary_geometry(monitors) is None,
    }
}

/// The first step of opening the presenter window.
pub open spec fn open_first(monitors: Result<Seq<MonitorDescriptor>, Seq<char>>) -> Step {
    match monitors {
        Ok(list) => Step::CreateWindow(plan_for(list)),
        Err(text) => Step::Done(Err(Failure::Window(text))),
    }
}

/// The first step of closing the presenter window.
pub open spec fn close_first(window: WindowState) -> Step {
    match window {
        WindowState::Open => Step::CloseWindow,
        WindowState::Absent => Step::Done(Ok(())),
    }
}

/// The step that follows `step` once the host has answered it with `reply`.
/// A refusal ends the run: nothing is tried again and nothing is undone.
pub open spec fn next(step: Step, reply: Result<(), Seq<char>>) -> Step {
    match (step, reply) {
        (Step::Done(result), _) => Step::Done(result),
        (_, Err(text)) => Step::Done(Err(Failure::Window(text))),
        (Step::CreateWindow(plan), Ok(_)) => if plan.fullscreen {
            Step::Done(Ok(()))
        } else {
            Step::SetFullscreen
        },
        (Step::SetFullscreen, Ok(_)) => Step::Done(Ok(())),
        (Step::CloseWindow, Ok(_)) => Step::Done(Ok(())),
    }
}

/// Whether the presenter window exists once the host has answered `step`
/// with `reply`, if `window` said so before. A window that was created
/// stays, whatever happens to it later in the run.
pub open spec fn window_after(window: WindowState, step: Step, reply: Result<(), Seq<char>>) -> WindowState {
    match (step, reply) {
        (Step::CreateWindow(_), Ok(_)) => WindowState::Open,
        (Step::CloseWindow, Ok(_)) => WindowState::Absent,
        _ => window,
    }
}

/// What opening the presenter window comes to, given the host's list of
/// displays and its answers to creating the window and to making it
/// full-screen. The last answer counts only where it was asked for: with a
/// second display.
pub open spec fn open_result(
    monitors: Result<Seq<MonitorDescriptor>, Seq<char>>,
    created: Result<(), Seq<char>>,
    fullscreen: Result<(), Seq<char>>,
) -> Result<(), Failure> {
    match monitors {
        Err(text) => Err(Failure::Window(text)),
        Ok(list) => match created {
            Err(text) => Err(Failure::Window(text)),
            Ok(_) => if list.len() >= 2 {
                match fullscreen {
                    Err(text) => Err(Failure::Window(text)),
                    Ok(_) => Ok(()),
                }
            } else {
                Ok(())
            },
        },
    }
}

/// What closing the presenter window comes to, given whether it exists and
/// the host's answer to closing it. The answer counts only where the window
/// exists.
pub open spec fn close_result(window: WindowState, closed: Result<(), Seq<char>>) -> Result<
    (),
    Failure,
> {
    match (window, closed) {
        (WindowState::Absent, _) => Ok(()),
        (WindowState::Open, Ok(_)) => Ok(()),
        (WindowState::Open, Err(text)) => Err(Failure::Window(text)),
    }
}

/// The name under which the host knows the presenter window: the one to
/// look it up by.
pub fn presenter_window_label() -> (label: String)
    ensures
        label@ == presenter_label(),
{
    "singleview".to_owned()
}

/// Draws up the presenter window for the displays `monitors`, in the
/// order in which the host lists them.
pub fn plan_presenter_window(monitors: &Vec<MonitorDescriptor>) -> (plan: WindowPlan)
    ensures
        plan@ == plan_for(monitors@),
{
    let geometry = select_geometry(monitors);
    let fullscreen = geometry.is_none();
    WindowPlan {
        label: presenter_window_label(),
        title: "PDF Presenter".to_owned(),
        route: "single".to_owned(),
        geometry,
        fullscreen,
    }
}

/// Begins opening the presenter window. `monitors` is what the host said
/// when asked for the attached displays. Whether a presenter window exists
/// already is not looked at: a second one is asked for all the same.
pub fn open_presenter_window(monitors: Result<Vec<MonitorDescriptor>, String>) -> (step:
    PresenterStep)
    ensures
        step@ == open_first(monitors_model(monitors)),
{
    match monitors {
        Ok(list) => PresenterStep::CreateWindow(plan_presenter_window(&list)),
        Err(text) => PresenterStep::Done(Err(ErrorKind::WindowFailure(text))),
    }
}

/// Begins closing the presenter window. `window` is what the host said
/// when asked for the window by its name. Closing a window that is not
/// there is no error: the run is over at once, and the host is asked
/// nothing.
pub fn close_presenter_window(window: WindowState) -> (step: PresenterStep)
    ensures
        step@ == close_first(window),
{
    match window {
        WindowState::Open => PresenterStep::CloseWindow,
        WindowState::Absent => PresenterStep::Done(Ok(())),
    }
}

impl PresenterStep {
    /// True when nothing is left to ask of the host.
    pub fn is_done(&self) -> (done: bool)
        ensures
            done == (self@ is Done),
    {
        match self {
            PresenterStep::Done(_) => true,
            _ => false,
        }
    }

    /// The step after this one, given the host's answer to it.
    pub fn advance(self, reply: Result<(), String>) -> (step: PresenterStep)
        ensures
            step@ == next(self@, reply_model(reply)),
    {
        match self {
            PresenterStep::Done(result) => PresenterStep::Done(result),
            PresenterStep::CreateWindow(plan) => match reply {
                Err(text) => PresenterStep::Done(Err(ErrorKind::WindowFailure(text))),
                Ok(_) => if plan.fullscreen {
                    PresenterStep::Done(Ok(()))
                } else {
                    PresenterStep::SetFullscreen
                },
            },
            PresenterStep::SetFullscreen => match reply {
                Err(text) => PresenterStep::Done(Err(ErrorKind::WindowFailure(text))),
                Ok(_) => PresenterStep::Done(Ok(())),
            },
            PresenterStep::CloseWindow => match reply {
                Err(text) => PresenterStep::Done(Err(ErrorKind::WindowFailure(text))),
                Ok(_) => PresenterStep::Done(Ok(())),
            },
        }
    }

    /// The result of a run that is over; `None` while it is not.
    pub fn into_result(self) -> (result: Option<Result<(), ErrorKind>>)
        ensures
            match result {
                Some(outcome) => self@ == Step::Done(outcome_model(outcome)),
                None => !(self@ is Done),
            },
    {
        match self {
            PresenterStep::Done(result) => Some(result),
            _ => None,
        }
    }
}

impl WindowState {
    /// What the host's answer to a lookup of the window means.
    pub fn observed(found: bool) -> (window: WindowState)
        ensures
            window == (if found {
                WindowState::Open
            } else {
                WindowState::Absent
            }),
    {
        if found {
            WindowState::Open
        } else {
            WindowState::Absent
        }
    }

    /// The state once the host has answered `step` with `reply`.
    pub fn after(self, step: &PresenterStep, reply: &Result<(), String>) -> (window: WindowState)
        ensures
            window == window_after(self, step@, reply_model(*reply)),
    {
        match (step, reply) {
            (PresenterStep::CreateWindow(_), Ok(_)) => WindowState::Open,
            (PresenterStep::CloseWindow, Ok(_)) => WindowState::Absent,
            _ => self,
        }
    }

    /// The state once the user has closed the window by the host's own
    /// controls.
    pub fn after_user_close(self) -> (window: WindowState)
        ensures
            window == WindowState::Absent,
    {
        WindowState::Absent
    }
}

/// A run that is over stays over, with the result it had.
pub proof fn lemma_done_absorbs(result: Result<(), Failure>, reply: Result<(), Seq<char>>)
    ensures
        next(Step::Done(result), reply) == Step::Done(result),
{
}

/// A refusal ends any run that is not over, as a window failure with the
/// host's text.
pub proof fn lemma_refusal_ends_run(step: Step, text: Seq<char>)
    requires
        !(step is Done),
    ensures
        next(step, Err(text)) == Step::Done(Err(Failure::Window(text))),
{
}

/// Opening is over after at most two answers of the host, and comes to
/// what [`open_result`] says.
pub proof fn lemma_open_run(
    monitors: Result<Seq<MonitorDescriptor>, Seq<char>>,
    created: Result<(), Seq<char>>,
    fullscreen: Result<(), Seq<char>>,
)
    ensures
        next(next(open_first(monitors), created), fullscreen) == Step::Done(
            open_result(monitors, created, fullscreen),
        ),
{
}

/// Opening succeeds exactly when the host refused nothing that it was
/// asked, and fails as a window failure otherwise.
pub proof fn lemma_open_result_kind(
    monitors: Result<Seq<MonitorDescriptor>, Seq<char>>,
    created: Result<(), Seq<char>>,
    fullscreen: Result<(), Seq<char>>,
)
    ensures
        open_result(monitors, created, fullscreen) is Ok <==> monitors is Ok && created is Ok && (
        monitors->Ok_0.len() >= 2 ==> fullscreen is Ok),
        open_result(monitors, created, fullscreen) is Err ==> open_result(
            monitors,
            created,
            fullscreen,
        )->Err_0 is Window,
{
}

/// With fewer than two displays the window is created full-screen with no
/// geometry of its own, and opening is over once it exists.
pub proof fn lemma_open_without_second(monitors: Seq<MonitorDescriptor>)
    requires
        monitors.len() <= 1,
    ensures
        plan_for(monitors).geometry is None,
        plan_for(monitors).fullscreen,
        next(open_first(Ok(monitors)), Ok(())) == Step::Done(Ok(())),
{
}

/// With two or more displays the window covers the second one, is not
/// created full-screen, and is made so once it exists.
pub proof fn lemma_open_with_second(monitors: Seq<MonitorDescriptor>)
    requires
        monitors.len() >= 2,
    ensures
        plan_for(monitors).geometry == Some(
            WindowGeometry {
                width: monitors[1].width,
                height: monitors[1].height,
                x: monitors[1].x,
                y: monitors[1].y,
            },
        ),
        !plan_for(monitors).fullscreen,
        next(open_first(Ok(monitors)), Ok(())) == Step::SetFullscreen,
        next(Step::SetFullscreen, Ok(())) == Step::Done(Ok(())),
{
}

/// Closing is over after at most one answer of the host, and comes to what
/// [`close_result`] says.
pub proof fn lemma_close_run(window: WindowState, closed: Result<(), Seq<char>>)
    ensures
        next(close_first(window), closed) == Step::Done(close_result(window, closed)),
{
}

/// Closing a window that is not there succeeds, and asks nothing of the
/// host.
pub proof fn lemma_close_absent(closed: Result<(), Seq<char>>)
    ensures
        close_first(WindowState::Absent) == Step::Done(Ok(())),
        close_result(WindowState::Absent, closed) is Ok,
{
}

/// A window that the host created is there at the end of the run, also
/// where making it full-screen failed: nothing is undone.
pub proof fn lemma_created_window_stays(
    window: WindowState,
    monitors: Seq<MonitorDescriptor>,
    fullscreen: Result<(), Seq<char>>,
)
    ensures
        window_after(
            window_after(window, open_first(Ok(monitors)), Ok(())),
            next(open_first(Ok(monitors)), Ok(())),
            fullscreen,
        ) == WindowState::Open,
{
}

/// A request that the host refused leaves the window as it was.
pub proof fn lemma_refused_run_changes_nothing(window: WindowState, step: Step, text: Seq<char>)
    ensures
        window_after(window, step, Err(text)) == window,
{
}

/// A close that the host accepted leaves no window, and an open that
/// succeeded from there leaves one.
pub proof fn lemma_window_cycle(monitors: Seq<MonitorDescriptor>)
    ensures
        window_after(WindowState::Open, close_first(WindowState::Open), Ok(()))
            == WindowState::Absent,
        window_after(WindowState::Absent, open_first(Ok(monitors)), Ok(())) == WindowState::Open,
{
}

} // verus!

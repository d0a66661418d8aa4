//! The shell's life cycle: the startup steps in their fixed order, the
//! running phase with its window shown or hidden, and termination.

use vstd::prelude::*;

verus! {

/// One step of startup. The first four register plugins.
#[derive(Clone, Copy, Debug, PartialEq, Eq, Structural)]
pub enum StartupStep {
    RegisterShell,
    RegisterSingleInstance,
    RegisterStore,
    RegisterDeepLink,
    CreateTray,
    RunEventLoop,
}

/// The number of startup steps.
pub const STARTUP_STEP_COUNT: usize = 6;

/// The startup steps, in the order in which they are taken.
pub open spec fn startup_plan_spec() -> Seq<StartupStep> {
    seq![
        StartupStep::RegisterShell,
        StartupStep::RegisterSingleInstance,
        StartupStep::RegisterStore,
        StartupStep::RegisterDeepLink,
        StartupStep::CreateTray,
        StartupStep::RunEventLoop,
    ]
}

/// Plugin registration comes first, then the tray, then the event loop.
pub open spec fn step_rank(step: StartupStep) -> int {
    match step {
        StartupStep::CreateTray => 1,
        StartupStep::RunEventLoop => 2,
        _ => 0,
    }
}

/// The phase the shell is in.
#[derive(Clone, Copy, Debug, PartialEq, Eq, Structural)]
pub enum Lifecycle {
    /// Starting up; `completed` steps of the plan have succeeded.
    Starting { completed: usize },
    /// The event loop runs; the main window is shown or hidden.
    Running { window_visible: bool },
    /// A startup step failed, or the shell quit.
    Terminated,
}

/// An event that the windowing layer reports for the main window.
#[derive(Clone, Copy, Debug, PartialEq, Eq, Structural)]
pub enum WindowEvent {
    CloseRequested,
    Other,
}

/// What the shell asks of the windowing layer in answer to a window event.
#[derive(Clone, Copy, Debug, PartialEq, Eq, Structural)]
pub enum WindowAction {
    /// Hide the window and suppress the default close, which would destroy it.
    HideAndKeepOpen,
    /// Let the default handling take place.
    PassThrough,
}

/// The step that startup takes next, if it is still under way.
pub open spec fn next_step_spec(state: Lifecycle) -> Option<StartupStep> {
    match state {
        Lifecycle::Starting { completed } => if completed < STARTUP_STEP_COUNT {
            Some(startup_plan_spec()[completed as int])
        } else {
            None
        },
        _ => None,
    }
}

/// The phase after the pending startup step succeeded or failed. Any failure
/// is fatal; success of the last step, the start of the event loop, leaves
/// the shell running with its window shown.
pub open spec fn after_step_spec(state: Lifecycle, succeeded: bool) -> Lifecycle {
    match state {
        Lifecycle::Starting { completed } => if !succeeded {
            Lifecycle::Terminated
        } else if completed + 1 >= STARTUP_STEP_COUNT {
            Lifecycle::Running { window_visible: true }
        } else {
            Lifecycle::Starting { completed: (completed + 1) as usize }
        },
        _ => state,
    }
}

/// The phase after a window event, and the answer to it. A close request is
/// always answered by hiding; a running shell then has its window hidden.
pub open spec fn window_step_spec(state: Lifecycle, event: WindowEvent) -> (Lifecycle, WindowAction) {
    match event {
        WindowEvent::CloseRequested => match state {
            Lifecycle::Running { .. } => (
                Lifecycle::Running { window_visible: false },
                WindowAction::HideAndKeepOpen,
            ),
            _ => (state, WindowAction::HideAndKeepOpen),
        },
        WindowEvent::Other => (state, WindowAction::PassThrough),
    }
}

/// The phase after a sequence of window events, taken in order.
pub open spec fn after_window_events(state: Lifecycle, events: Seq<WindowEvent>) -> Lifecycle
    decreases events.len(),
{
    if events.len() == 0 {
        state
    } else {
        after_window_events(window_step_spec(state, events[0]).0, events.drop_first())
    }
}

impl Lifecycle {
    /// A phase that can be reached: while starting, fewer steps have
    /// succeeded than the plan holds.
    pub open spec fn wf(&self) -> bool {
        match *self {
            Lifecycle::Starting { completed } => completed < STARTUP_STEP_COUNT,
            _ => true,
        }
    }

    /// The phase before any startup step.
    pub fn new() -> (r: Lifecycle)
        ensures
            r == (Lifecycle::Starting { completed: 0 }),
            r.wf(),
    {
        Lifecycle::Starting { completed: 0 }
    }

    /// The step that startup takes next; `None` once it has ended.
    pub fn next_step(&self) -> (r: Option<StartupStep>)
        ensures
            r == next_step_spec(*self),
    {
        match self {
            Lifecycle::Starting { completed } => step_at(*completed),
            _ => None,
        }
    }

    /// Records whether the pending startup step succeeded.
    pub fn record_step(&mut self, succeeded: bool)
        ensures
            *final(self) == after_step_spec(*old(self), succeeded),
            old(self).wf() ==> final(self).wf(),
    {
        if let Lifecycle::Starting { completed } = *self {
            if !succeeded {
                *self = Lifecycle::Terminated;
            } else if completed >= STARTUP_STEP_COUNT - 1 {
                *self = Lifecycle::Running { window_visible: true };
            } else {
                *self = Lifecycle::Starting { completed: completed + 1 };
            }
        }
    }

    /// Answers a window event and records its effect on the window.
    pub fn on_window_event(&mut self, event: WindowEvent) -> (action: WindowAction)
        ensures
            (*final(self), action) == window_step_spec(*old(self), event),
            old(self).wf() ==> final(self).wf(),
    {
        match event {
            WindowEvent::CloseRequested => {
                if let Lifecycle::Running { .. } = *self {
                    *self = Lifecycle::Running { window_visible: false };
                }
                WindowAction::HideAndKeepOpen
            },
            WindowEvent::Other => WindowAction::PassThrough,
        }
    }

    /// Whether the event loop runs.
    pub fn is_running(&self) -> (r: bool)
        ensures
            r == (*self is Running),
    {
        matches!(self, Lifecycle::Running { .. })
    }

    /// Whether the main window is shown; it is only while the shell runs.
    pub fn window_visible(&self) -> (r: bool)
        ensures
            r == (match *self {
                Lifecycle::Running { window_visible } => window_visible,
                _ => false,
            }),
    {
        match self {
            Lifecycle::Running { window_visible } => *window_visible,
            _ => false,
        }
    }
}

/// The step at position `i` of the plan, if there is one.
fn step_at(i: usize) -> (r: Option<StartupStep>)
    ensures
        r == (if i < STARTUP_STEP_COUNT {
            Some(startup_plan_spec()[i as int])
        } else {
            None
        }),
{
    match i {
        0 => Some(StartupStep::RegisterShell),
        1 => Some(StartupStep::RegisterSingleInstance),
        2 => Some(StartupStep::RegisterStore),
        3 => Some(StartupStep::RegisterDeepLink),
        4 => Some(StartupStep::CreateTray),
        5 => Some(StartupStep::RunEventLoop),
        _ => None,
    }
}

/// The startup steps, in the order in which they are taken.
pub fn startup_plan() -> (plan: Vec<StartupStep>)
    ensures
        plan@ == startup_plan_spec(),
{
    let plan = vec![
        StartupStep::RegisterShell,
        StartupStep::RegisterSingleInstance,
        StartupStep::RegisterStore,
        StartupStep::RegisterDeepLink,
        StartupStep::CreateTray,
        StartupStep::RunEventLoop,
    ];
    assert(plan@ =~= startup_plan_spec());
    plan
}

/// A close request never destroys the window: it is answered by hiding the
/// window and suppressing the close, a running shell goes on running with its
/// window hidden, and the request never terminates the shell.
pub proof fn close_request_hides_window(state: Lifecycle)
    ensures
        window_step_spec(state, WindowEvent::CloseRequested).1 == WindowAction::HideAndKeepOpen,
        state is Running ==> window_step_spec(state, WindowEvent::CloseRequested).0 == (
        Lifecycle::Running { window_visible: false }),
        window_step_spec(state, WindowEvent::CloseRequested).0 is Terminated <==> state is Terminated,
{
}

/// No sequence of window events ends a running shell, and after a close
/// request its window stays hidden until another event comes.
pub proof fn window_events_keep_running(state: Lifecycle, events: Seq<WindowEvent>)
    requires
        state is Running,
    ensures
        after_window_events(state, events) is Running,
        events.len() > 0 && events.last() == WindowEvent::CloseRequested ==> after_window_events(
            state,
            events,
        ) == (Lifecycle::Running { window_visible: false }),
    decreases events.len(),
{
    if events.len() > 0 {
        let next = window_step_spec(state, events[0]).0;
        window_events_keep_running(next, events.drop_first());
        if events.len() == 1 && events.last() == WindowEvent::CloseRequested {
            assert(events.drop_first().len() == 0);
        } else if events.len() > 1 {
            assert(events.drop_first().last() == events.last());
        }
    }
}

/// Startup runs in a fixed order: every plugin registration comes before the
/// tray, and the tray before the event loop. The tray is begun only once all
/// registrations have succeeded, the event loop only once the tray is built,
/// and the shell runs only once the event loop has started.
pub proof fn startup_order(state: Lifecycle)
    requires
        state.wf(),
    ensures
        forall|i: int, j: int|
            0 <= i < j < STARTUP_STEP_COUNT ==> step_rank(startup_plan_spec()[i]) <= step_rank(
                startup_plan_spec()[j],
            ),
        next_step_spec(state) == Some(StartupStep::CreateTray) ==> state == (Lifecycle::Starting {
            completed: 4,
        }) && forall|i: int| 0 <= i < 4 ==> step_rank(startup_plan_spec()[i]) == 0,
        next_step_spec(state) == Some(StartupStep::RunEventLoop) ==> state == (
        Lifecycle::Starting { completed: 5 }) && startup_plan_spec()[4] == StartupStep::CreateTray,
        !(state is Running) && after_step_spec(state, true) is Running ==> state == (
        Lifecycle::Starting { completed: 5 }) && startup_plan_spec()[5]
            == StartupStep::RunEventLoop,
{
    let plan = startup_plan_spec();
    assert forall|i: int, j: int| 0 <= i < j < STARTUP_STEP_COUNT implies step_rank(plan[i])
        <= step_rank(plan[j]) by {
        assert(plan[0] == StartupStep::RegisterShell);
        assert(plan[1] == StartupStep::RegisterSingleInstance);
        assert(plan[2] == StartupStep::RegisterStore);
        assert(plan[3] == StartupStep::RegisterDeepLink);
        assert(plan[4] == StartupStep::CreateTray);
        assert(plan[5] == StartupStep::RunEventLoop);
    }
}

} // verus!

//! The life of one session round the two loops: whether to start at all,
//! what to tell the operator, and how to wind down.

use vstd::prelude::*;
use crate::control::ControlState;
use crate::enforce::{tick_calls, tick_state, Enforcer, LoopState, ServiceCall, TICK_MS};
use crate::region::Region;

verus! {

/// How long the session waits for the enforcement loop to see that it has
/// been stopped, in milliseconds.
pub const SHUTDOWN_WAIT_MS: u64 = 100;

/// What the session does once it knows how many displays there are.
#[derive(Clone, Copy, Debug, PartialEq, Eq, Structural)]
pub enum Startup {
    /// There is no display: say so and end, with no loop started.
    NoDisplays,
    /// Ask the operator for a display.
    ChooseDisplay,
}

/// One step of winding down, once the keyboard loop has ended.
#[derive(Clone, Copy, Debug, PartialEq, Eq, Structural)]
pub enum ShutdownStep {
    /// Put the terminal back into the mode it was found in.
    RestoreTerminal,
    /// Clear `running`, whether or not it is still set.
    ClearRunning,
    /// Wait this many milliseconds.
    Wait(u64),
    /// Tell the operator that the session is over.
    Report,
}

/// A fixed line for the operator.
#[derive(Clone, Copy, Debug, PartialEq, Eq, Structural)]
pub enum Message {
    /// This platform cannot confine the cursor: the requests do nothing.
    NoConfinement,
    NoDisplays,
    InvalidSelection,
    InvalidOption,
    Keys,
    Farewell,
}

/// The steps of winding down, in their order.
pub open spec fn shutdown_steps() -> Seq<ShutdownStep> {
    seq![
        ShutdownStep::RestoreTerminal,
        ShutdownStep::ClearRunning,
        ShutdownStep::Wait(SHUTDOWN_WAIT_MS),
        ShutdownStep::Report,
    ]
}

/// Decides whether the session starts: with no display it ends at once.
pub fn startup(displays: usize) -> (s: Startup)
    ensures
        s == (if displays == 0 {
            Startup::NoDisplays
        } else {
            Startup::ChooseDisplay
        }),
{
    if displays == 0 {
        Startup::NoDisplays
    } else {
        Startup::ChooseDisplay
    }
}

/// Starts the two loops for the region that was chosen: the flags as they
/// are at the start, and an enforcement loop that has not ended. With no
/// region chosen nothing is started.
pub fn start_loops(chosen: Option<Region>) -> (started: Option<(ControlState, Enforcer)>)
    ensures
        started.is_some() == chosen.is_some(),
        started.is_some() ==> started.unwrap().0 == (ControlState { running: true, paused: false }),
        started.is_some() ==> started.unwrap().1@ == (LoopState {
            region: chosen.unwrap(),
            stopped: false,
        }),
{
    match chosen {
        Some(region) => Some((ControlState::new(), Enforcer::new(region))),
        None => None,
    }
}

/// Winds down after the keyboard loop: the flags with `running` cleared, and
/// the steps to take, in order. The terminal comes first, then the flag, then
/// a wait of `SHUTDOWN_WAIT_MS`, then the report.
pub fn shutdown(state: ControlState) -> (plan: (ControlState, Vec<ShutdownStep>))
    ensures
        plan.0 == (ControlState { running: false, paused: state.paused }),
        plan.1@ == shutdown_steps(),
{
    let mut steps: Vec<ShutdownStep> = Vec::new();
    steps.push(ShutdownStep::RestoreTerminal);
    steps.push(ShutdownStep::ClearRunning);
    steps.push(ShutdownStep::Wait(SHUTDOWN_WAIT_MS));
    steps.push(ShutdownStep::Report);
    assert(steps@ =~= shutdown_steps());
    (state.stop(), steps)
}

impl Message {
    /// The line itself.
    pub fn text(&self) -> (line: &'static str)
        ensures
            line@ == (match *self {
                Message::NoConfinement => "Cursor locking is only implemented for Windows in this example."@,
                Message::NoDisplays => "No displays found."@,
                Message::InvalidSelection => "Invalid selection."@,
                Message::InvalidOption => "Invalid option, defaulting to full display."@,
                Message::Keys => "Press 'z' to pause/resume cursor lock, 'q' to quit."@,
                Message::Farewell => "Exiting. Cursor lock released."@,
            }),
    {
        match self {
            Message::NoConfinement => "Cursor locking is only implemented for Windows in this example.",
            Message::NoDisplays => "No displays found.",
            Message::InvalidSelection => "Invalid selection.",
            Message::InvalidOption => "Invalid option, defaulting to full display.",
            Message::Keys => "Press 'z' to pause/resume cursor lock, 'q' to quit.",
            Message::Farewell => "Exiting. Cursor lock released.",
        }
    }
}

/// The wait of winding down covers a whole tick of the enforcement loop, and
/// the tick that falls into it finds `running` cleared: a loop that is still
/// alive then releases the cursor, once, and ends.
pub proof fn shutdown_reaches_enforcement(s: LoopState, state: ControlState)
    requires
        !s.stopped,
    ensures
        SHUTDOWN_WAIT_MS >= TICK_MS,
        shutdown_steps()[1] == ShutdownStep::ClearRunning,
        shutdown_steps()[2] == ShutdownStep::Wait(SHUTDOWN_WAIT_MS),
        tick_calls(s, ControlState { running: false, paused: state.paused }) == seq![ServiceCall::Release],
        tick_state(s, ControlState { running: false, paused: state.paused }).stopped,
{
}

} // verus!

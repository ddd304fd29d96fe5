//! The two control flags, the commands that move them, and one turn of the
//! loop that reads the keyboard.

use vstd::prelude::*;
use crate::input::{poll_key_event, pressed_key, Key, TerminalEvent};

verus! {

/// How long one wait for a key lasts at most, in milliseconds.
pub const POLL_TIMEOUT_MS: u64 = 100;

/// The two flags that the keyboard loop writes and the enforcement loop reads.
///
/// `running` starts `true` and, once `false`, stays `false`. `paused` starts
/// `false` and flips for as long as the process lives. Neither depends on the
/// other.
#[derive(Clone, Copy, Debug, PartialEq, Eq, Structural)]
pub struct ControlState {
    pub running: bool,
    pub paused: bool,
}

/// What a keystroke asks for.
#[derive(Clone, Copy, Debug, PartialEq, Eq, Structural)]
pub enum Command {
    Quit,
    TogglePause,
    Ignored,
}

/// What the operator is told when the pause flag flips.
#[derive(Clone, Copy, Debug, PartialEq, Eq, Structural)]
pub enum Notice {
    /// Confinement has been lifted.
    Paused,
    /// Confinement is back.
    Resumed,
}

/// What one command leaves behind: the flags, what to tell the operator, and
/// whether the keyboard loop ends.
#[derive(Clone, Copy, Debug, PartialEq, Eq, Structural)]
pub struct Outcome {
    pub state: ControlState,
    pub notice: Option<Notice>,
    pub exit: bool,
}

/// What the keyboard loop does next.
#[derive(Clone, Copy, Debug, PartialEq, Eq, Structural)]
pub enum Turn {
    /// Wait for a key, for at most this many milliseconds.
    Poll(u64),
    /// Leave the loop.
    Leave,
}

/// The command that a pressed key stands for: `q` quits, `z` toggles the
/// pause, and every other key, or none, is ignored.
pub open spec fn command_of(key: Option<Key>) -> Command {
    match key {
        Some(Key::Char(c)) => if c == 'q' {
            Command::Quit
        } else if c == 'z' {
            Command::TogglePause
        } else {
            Command::Ignored
        },
        _ => Command::Ignored,
    }
}

/// The notice for a flip of the pause flag, by the flag's value before it.
pub open spec fn notice_after(was_paused: bool) -> Notice {
    if was_paused {
        Notice::Resumed
    } else {
        Notice::Paused
    }
}

/// What `command` leaves behind when the flags are `state`.
pub open spec fn outcome_of(state: ControlState, command: Command) -> Outcome {
    match command {
        Command::Quit => Outcome {
            state: ControlState { running: false, paused: state.paused },
            notice: None,
            exit: true,
        },
        Command::TogglePause => Outcome {
            state: ControlState { running: state.running, paused: !state.paused },
            notice: Some(notice_after(state.paused)),
            exit: false,
        },
        Command::Ignored => Outcome { state, notice: None, exit: false },
    }
}

/// What one wait on the terminal leaves behind when the flags are `state`.
pub open spec fn step_of(state: ControlState, polled: Option<TerminalEvent>) -> Outcome {
    outcome_of(state, command_of(pressed_key(polled)))
}

impl ControlState {
    /// The flags at the start: running, not paused.
    pub fn new() -> (state: ControlState)
        ensures
            state == (ControlState { running: true, paused: false }),
    {
        ControlState { running: true, paused: false }
    }

    /// Clears `running` and leaves `paused` alone. On flags that are already
    /// stopped this changes nothing.
    pub fn stop(self) -> (state: ControlState)
        ensures
            state == (ControlState { running: false, paused: self.paused }),
    {
        ControlState { running: false, paused: self.paused }
    }

    /// Flips `paused` and leaves `running` alone. The notice goes by the value
    /// that `paused` had before the flip.
    pub fn toggle_pause(self) -> (flipped: (ControlState, Notice))
        ensures
            flipped.0 == (ControlState { running: self.running, paused: !self.paused }),
            flipped.1 == notice_after(self.paused),
    {
        let notice = if self.paused {
            Notice::Resumed
        } else {
            Notice::Paused
        };
        (ControlState { running: self.running, paused: !self.paused }, notice)
    }
}

impl Notice {
    /// The line that tells the operator of the flip.
    pub fn text(&self) -> (line: &'static str)
        ensures
            line@ == (match *self {
                Notice::Paused => "[z] Lock paused."@,
                Notice::Resumed => "[z] Lock re-activated."@,
            }),
    {
        match self {
            Notice::Paused => "[z] Lock paused.",
            Notice::Resumed => "[z] Lock re-activated.",
        }
    }
}

/// Decodes a pressed key into the command it stands for.
pub fn decode(key: Option<Key>) -> (command: Command)
    ensures
        command == command_of(key),
{
    match key {
        Some(Key::Char(c)) => {
            if c == 'q' {
                Command::Quit
            } else if c == 'z' {
                Command::TogglePause
            } else {
                Command::Ignored
            }
        },
        _ => Command::Ignored,
    }
}

/// Applies one command to the flags.
pub fn apply(state: ControlState, command: Command) -> (outcome: Outcome)
    ensures
        outcome == outcome_of(state, command),
{
    match command {
        Command::Quit => Outcome { state: state.stop(), notice: None, exit: true },
        Command::TogglePause => {
            let (flipped, notice) = state.toggle_pause();
            Outcome { state: flipped, notice: Some(notice), exit: false }
        },
        Command::Ignored => Outcome { state, notice: None, exit: false },
    }
}

/// Decides, at the top of the keyboard loop, whether to wait for a key or to
/// leave: the loop goes on for as long as `running` is set, and each wait is
/// bounded by `POLL_TIMEOUT_MS`.
pub fn next_turn(state: ControlState) -> (turn: Turn)
    ensures
        turn == (if state.running {
            Turn::Poll(POLL_TIMEOUT_MS)
        } else {
            Turn::Leave
        }),
{
    if state.running {
        Turn::Poll(POLL_TIMEOUT_MS)
    } else {
        Turn::Leave
    }
}

/// One turn of the keyboard loop after its wait: decodes what the wait gave
/// and applies it to the flags. A wait that ran out changes nothing and keeps
/// the loop going.
pub fn command_step(state: ControlState, polled: Option<TerminalEvent>) -> (outcome: Outcome)
    ensures
        outcome == step_of(state, polled),
{
    apply(state, decode(poll_key_event(polled)))
}

/// The flags after the keyboard loop has gone through `waits`; `waits[i]` is
/// what wait `i` gave. The loop takes a turn for as long as `running` is set
/// and no command has ended it.
pub open spec fn loop_state(state: ControlState, waits: Seq<Option<TerminalEvent>>) -> ControlState
    decreases waits.len(),
{
    if waits.len() == 0 || !state.running {
        state
    } else if step_of(state, waits[0]).exit {
        step_of(state, waits[0]).state
    } else {
        loop_state(step_of(state, waits[0]).state, waits.drop_first())
    }
}

/// How many of `waits` the keyboard loop gets through before it ends: the
/// number of times it hands control back to its caller.
pub open spec fn loop_turns(state: ControlState, waits: Seq<Option<TerminalEvent>>) -> nat
    decreases waits.len(),
{
    if waits.len() == 0 || !state.running {
        0
    } else if step_of(state, waits[0]).exit {
        1
    } else {
        1 + loop_turns(step_of(state, waits[0]).state, waits.drop_first())
    }
}

/// The longest that the keyboard loop can have waited while it went through
/// `waits`, in milliseconds: each turn waits for `POLL_TIMEOUT_MS` at most.
pub open spec fn loop_wait_bound(state: ControlState, waits: Seq<Option<TerminalEvent>>) -> nat {
    loop_turns(state, waits) * (POLL_TIMEOUT_MS as nat)
}

/// Two flips of the pause flag in a row give the flags back as they were,
/// and tell the operator two different things: paused and then resumed, or
/// resumed and then paused.
pub proof fn toggle_twice_restores(state: ControlState)
    ensures
        outcome_of(outcome_of(state, Command::TogglePause).state, Command::TogglePause).state == state,
        outcome_of(state, Command::TogglePause).notice == Some(notice_after(state.paused)),
        outcome_of(outcome_of(state, Command::TogglePause).state, Command::TogglePause).notice == Some(
            notice_after(!state.paused),
        ),
        notice_after(state.paused) != notice_after(!state.paused),
        !state.paused ==> notice_after(state.paused) == Notice::Paused && notice_after(!state.paused)
            == Notice::Resumed,
        state.paused ==> notice_after(state.paused) == Notice::Resumed && notice_after(!state.paused)
            == Notice::Paused,
{
}

/// No command sets `running` again once it is cleared, and only `Quit` clears
/// it; only `TogglePause` touches `paused`.
pub proof fn running_never_returns(state: ControlState, command: Command)
    ensures
        outcome_of(state, command).state.running ==> state.running,
        outcome_of(state, command).state.running == (state.running && command != Command::Quit),
        outcome_of(state, command).state.paused == (state.paused != (command == Command::TogglePause)),
        outcome_of(state, command).exit == (command == Command::Quit),
{
}

/// The keyboard loop never sets `running` again either, however long it runs.
pub proof fn loop_never_restarts(state: ControlState, waits: Seq<Option<TerminalEvent>>)
    ensures
        loop_state(state, waits).running ==> state.running,
        loop_turns(state, waits) <= waits.len(),
    decreases waits.len(),
{
    if waits.len() > 0 && state.running && !step_of(state, waits[0]).exit {
        loop_never_restarts(step_of(state, waits[0]).state, waits.drop_first());
    }
}

/// With no key pressed the keyboard loop does not hang and does not end:
/// over waits that all run out it takes one turn for each of them, leaves the
/// flags alone, and has waited for no more than the timeout times their
/// number.
pub proof fn idle_turns_change_nothing(state: ControlState, waits: Seq<Option<TerminalEvent>>)
    requires
        state.running,
        forall|i: int| 0 <= i < waits.len() ==> pressed_key(#[trigger] waits[i]).is_none(),
    ensures
        loop_turns(state, waits) == waits.len(),
        loop_state(state, waits) == state,
        loop_wait_bound(state, waits) == waits.len() * POLL_TIMEOUT_MS,
    decreases waits.len(),
{
    if waits.len() > 0 {
        assert(pressed_key(waits[0]).is_none());
        assert(step_of(state, waits[0]) == (Outcome { state, notice: None, exit: false }));
        idle_turns_change_nothing(state, waits.drop_first());
    }
}

/// A pressed `q` ends the keyboard loop on the spot with `running` cleared,
/// whatever else is waiting.
pub proof fn quit_ends_loop(state: ControlState, waits: Seq<Option<TerminalEvent>>)
    requires
        state.running,
        waits.len() > 0,
        pressed_key(waits[0]) == Some(Key::Char('q')),
    ensures
        loop_turns(state, waits) == 1,
        loop_state(state, waits) == (ControlState { running: false, paused: state.paused }),
{
}

} // verus!

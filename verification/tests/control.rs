use cursor_lock::control::{
    apply, command_step, decode, next_turn, Command, ControlState, Notice, Outcome, Turn,
    POLL_TIMEOUT_MS,
};
use cursor_lock::input::{poll_key_event, Key, KeyKind, TerminalEvent};

fn press(c: char) -> Option<TerminalEvent> {
    Some(TerminalEvent::Key { code: Key::Char(c), kind: KeyKind::Press })
}

#[test]
fn flags_start_running_and_not_paused() {
    assert_eq!(ControlState::new(), ControlState { running: true, paused: false });
}

#[test]
fn poll_timeout_is_a_tenth_of_a_second() {
    assert_eq!(POLL_TIMEOUT_MS, 100);
}

#[test]
fn pressed_key_is_picked() {
    assert_eq!(poll_key_event(press('q')), Some(Key::Char('q')));
    assert_eq!(
        poll_key_event(Some(TerminalEvent::Key { code: Key::Other, kind: KeyKind::Press })),
        Some(Key::Other)
    );
}

#[test]
fn timeout_repeat_release_and_other_events_give_no_key() {
    assert_eq!(poll_key_event(None), None);
    assert_eq!(
        poll_key_event(Some(TerminalEvent::Key { code: Key::Char('q'), kind: KeyKind::Repeat })),
        None
    );
    assert_eq!(
        poll_key_event(Some(TerminalEvent::Key { code: Key::Char('q'), kind: KeyKind::Release })),
        None
    );
    assert_eq!(poll_key_event(Some(TerminalEvent::Other)), None);
}

#[test]
fn keys_decode_to_commands() {
    assert_eq!(decode(Some(Key::Char('q'))), Command::Quit);
    assert_eq!(decode(Some(Key::Char('z'))), Command::TogglePause);
    assert_eq!(decode(Some(Key::Char('Q'))), Command::Ignored);
    assert_eq!(decode(Some(Key::Char('Z'))), Command::Ignored);
    assert_eq!(decode(Some(Key::Char('x'))), Command::Ignored);
    assert_eq!(decode(Some(Key::Other)), Command::Ignored);
    assert_eq!(decode(None), Command::Ignored);
}

#[test]
fn quit_clears_running_and_ends_the_loop() {
    let out = apply(ControlState { running: true, paused: true }, Command::Quit);
    assert_eq!(
        out,
        Outcome { state: ControlState { running: false, paused: true }, notice: None, exit: true }
    );
}

#[test]
fn toggle_goes_by_the_value_before() {
    let out = apply(ControlState::new(), Command::TogglePause);
    assert_eq!(
        out,
        Outcome {
            state: ControlState { running: true, paused: true },
            notice: Some(Notice::Paused),
            exit: false
        }
    );
    let back = apply(out.state, Command::TogglePause);
    assert_eq!(
        back,
        Outcome { state: ControlState::new(), notice: Some(Notice::Resumed), exit: false }
    );
}

#[test]
fn toggling_twice_is_the_identity_on_every_state() {
    for running in [false, true] {
        for paused in [false, true] {
            let state = ControlState { running, paused };
            let (once, first) = state.toggle_pause();
            let (twice, second) = once.toggle_pause();
            assert_eq!(twice, state);
            assert_ne!(first, second);
            assert_eq!(once.running, running);
        }
    }
}

#[test]
fn ignored_changes_nothing() {
    let state = ControlState { running: true, paused: true };
    assert_eq!(apply(state, Command::Ignored), Outcome { state, notice: None, exit: false });
}

#[test]
fn stop_is_idempotent_and_keeps_paused() {
    let state = ControlState { running: true, paused: true };
    let stopped = state.stop();
    assert_eq!(stopped, ControlState { running: false, paused: true });
    assert_eq!(stopped.stop(), stopped);
}

#[test]
fn no_command_sets_running_again() {
    let stopped = ControlState { running: false, paused: false };
    for command in [Command::Quit, Command::TogglePause, Command::Ignored] {
        assert!(!apply(stopped, command).state.running);
    }
}

#[test]
fn notices_have_their_lines() {
    assert_eq!(Notice::Paused.text(), "[z] Lock paused.");
    assert_eq!(Notice::Resumed.text(), "[z] Lock re-activated.");
}

#[test]
fn loop_polls_while_running_and_leaves_after() {
    assert_eq!(next_turn(ControlState::new()), Turn::Poll(100));
    assert_eq!(next_turn(ControlState { running: true, paused: true }), Turn::Poll(100));
    assert_eq!(next_turn(ControlState { running: false, paused: false }), Turn::Leave);
    assert_eq!(next_turn(ControlState { running: false, paused: true }), Turn::Leave);
}

#[test]
fn idle_turns_hand_control_back_every_time() {
    let mut state = ControlState::new();
    let mut turns = 0;
    for _ in 0..25 {
        assert_eq!(next_turn(state), Turn::Poll(POLL_TIMEOUT_MS));
        let out = command_step(state, None);
        assert!(!out.exit);
        assert_eq!(out.notice, None);
        state = out.state;
        turns += 1;
    }
    assert_eq!(turns, 25);
    assert_eq!(state, ControlState::new());
}

#[test]
fn step_ignores_what_is_no_key_press() {
    let state = ControlState::new();
    let same = Outcome { state, notice: None, exit: false };
    assert_eq!(command_step(state, Some(TerminalEvent::Other)), same);
    assert_eq!(
        command_step(
            state,
            Some(TerminalEvent::Key { code: Key::Char('q'), kind: KeyKind::Release })
        ),
        same
    );
    assert_eq!(
        command_step(
            state,
            Some(TerminalEvent::Key { code: Key::Char('z'), kind: KeyKind::Repeat })
        ),
        same
    );
    assert_eq!(command_step(state, press('a')), same);
}

#[test]
fn step_applies_a_pressed_command_key() {
    let state = ControlState::new();
    assert_eq!(
        command_step(state, press('z')),
        Outcome {
            state: ControlState { running: true, paused: true },
            notice: Some(Notice::Paused),
            exit: false
        }
    );
    assert_eq!(
        command_step(state, press('q')),
        Outcome { state: ControlState { running: false, paused: false }, notice: None, exit: true }
    );
}

use blinky::input::{
    initial_state, input_step, pending_action, status_message, InputAction, InputEvent, InputState,
};
use blinky::register::RateRegister;

/// Drive one full press-release cycle and return the actions it issued.
fn press_release_cycle(state: &mut InputState, reg: &mut RateRegister) -> Vec<InputAction> {
    let mut actions = Vec::new();
    for e in [
        InputEvent::PressLevel,
        InputEvent::WriteDone,
        InputEvent::SleepDone,
        InputEvent::ReleaseLevel,
    ] {
        let (s, a) = input_step(*state, e, reg);
        *state = s;
        actions.push(a);
    }
    actions
}

#[test]
fn single_press_release_halves_and_reports_once() {
    let mut reg = RateRegister::new(2000);
    let mut state = initial_state();
    let actions = press_release_cycle(&mut state, &mut reg);
    assert_eq!(reg.load(), 1000);
    assert_eq!(state, InputState::WaitPress);
    assert_eq!(
        actions,
        vec![
            InputAction::WriteStatus,
            InputAction::SleepDebounce,
            InputAction::AwaitRelease,
            InputAction::AwaitPress,
        ]
    );
    let reports = actions
        .iter()
        .filter(|a| **a == InputAction::WriteStatus)
        .count();
    assert_eq!(reports, 1);
}

#[test]
fn second_press_release_halves_again() {
    let mut reg = RateRegister::new(2000);
    let mut state = InputState::WaitPress;
    press_release_cycle(&mut state, &mut reg);
    press_release_cycle(&mut state, &mut reg);
    assert_eq!(reg.load(), 500);
}

#[test]
fn six_press_releases_cycle_back_to_default() {
    let mut reg = RateRegister::new(2000);
    let mut state = InputState::WaitPress;
    let mut visited = Vec::new();
    for _ in 0..6 {
        press_release_cycle(&mut state, &mut reg);
        visited.push(reg.load());
    }
    assert_eq!(visited, vec![1000, 500, 250, 125, 62, 2000]);
    assert_eq!(reg.load(), 2000);
}

#[test]
fn write_failure_halts_the_task() {
    let mut reg = RateRegister::new(2000);
    let (state, action) = input_step(InputState::WaitPress, InputEvent::PressLevel, &mut reg);
    assert_eq!(action, InputAction::WriteStatus);
    let (_, action) = input_step(state, InputEvent::WriteFailed, &mut reg);
    assert_eq!(action, InputAction::Halt);
}

#[test]
fn bounces_inside_the_debounce_window_change_nothing() {
    let mut reg = RateRegister::new(2000);
    let mut state = InputState::WaitPress;
    let (s, _) = input_step(state, InputEvent::PressLevel, &mut reg);
    state = s;
    let (s, _) = input_step(state, InputEvent::WriteDone, &mut reg);
    state = s;
    assert_eq!(state, InputState::Debounce);
    // The contacts bounce wildly while the task sleeps out the window.
    for _ in 0..5 {
        for e in [InputEvent::ReleaseLevel, InputEvent::PressLevel] {
            let (s, _) = input_step(state, e, &mut reg);
            state = s;
        }
    }
    assert_eq!(state, InputState::Debounce);
    assert_eq!(reg.load(), 1000);
}

#[test]
fn a_held_press_registers_exactly_one_change() {
    // Pressed at t = 0 and held for 500 ms, well past the 200 ms debounce
    // window: the task absorbs the held level and registers one change.
    let mut reg = RateRegister::new(2000);
    let mut state = InputState::WaitPress;
    let mut reports = 0;
    let held = [
        InputEvent::PressLevel,   // t = 0: edge registers the press
        InputEvent::WriteDone,    // status line sent
        InputEvent::SleepDone,    // t = 200: debounce window over, still held
        InputEvent::PressLevel,   // still held: absorbed, no second change
        InputEvent::PressLevel,   // still held: absorbed
        InputEvent::ReleaseLevel, // t = 500: released, cycle closes
    ];
    for e in held {
        let (s, a) = input_step(state, e, &mut reg);
        state = s;
        if a == InputAction::WriteStatus {
            reports += 1;
        }
    }
    assert_eq!(reports, 1);
    assert_eq!(reg.load(), 1000);
    assert_eq!(state, InputState::WaitPress);
}

#[test]
fn release_is_required_before_a_second_press_registers() {
    let mut reg = RateRegister::new(2000);
    let mut state = InputState::WaitPress;
    for e in [
        InputEvent::PressLevel,
        InputEvent::WriteDone,
        InputEvent::SleepDone,
    ] {
        let (s, _) = input_step(state, e, &mut reg);
        state = s;
    }
    // No release yet: a pressed level cannot register a second change.
    let (s, _) = input_step(state, InputEvent::PressLevel, &mut reg);
    assert_eq!(s, InputState::WaitRelease);
    assert_eq!(reg.load(), 1000);
}

#[test]
fn waiting_states_keep_requesting_their_action() {
    assert_eq!(pending_action(InputState::WaitPress), InputAction::AwaitPress);
    assert_eq!(pending_action(InputState::Report), InputAction::WriteStatus);
    assert_eq!(
        pending_action(InputState::Debounce),
        InputAction::SleepDebounce
    );
    assert_eq!(
        pending_action(InputState::WaitRelease),
        InputAction::AwaitRelease
    );
}

#[test]
fn status_message_is_the_fixed_line() {
    assert_eq!(status_message(), b"changing speed...\r\n".to_vec());
}

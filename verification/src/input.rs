//! The input task: watch the button, update the shared rate register on
//! every press, report the change, debounce, and wait for the release.
//!
//! The task is a cyclic state machine.  Each step consumes one hardware
//! event and returns the next state together with the action the caller
//! must perform before delivering the next event: wait for a level, write
//! the status line, sleep out the debounce window, or halt on a transport
//! failure.  The rate change itself — the one effect on shared state —
//! happens inside the step, so its contract pins down exactly when the
//! register changes.

use crate::rate::{spec_next_period, next_period};
use crate::register::RateRegister;
use vstd::prelude::*;

verus! {

/// Where the input task stands in its press-report-debounce-release cycle.
#[derive(Clone, Copy, PartialEq, Eq, Structural, Debug)]
pub enum InputState {
    /// Waiting for the button to reach the pressed level.
    WaitPress,
    /// Waiting for the status write to complete.
    Report,
    /// Sleeping out the debounce window.
    Debounce,
    /// Waiting for the button to reach the released level.
    WaitRelease,
}

/// A hardware event delivered to the input task.
#[derive(Clone, Copy, PartialEq, Eq, Structural, Debug)]
pub enum InputEvent {
    /// The button signal reached the pressed level.
    PressLevel,
    /// The button signal reached the released level.
    ReleaseLevel,
    /// The status write completed.
    WriteDone,
    /// The status write failed.
    WriteFailed,
    /// The debounce sleep elapsed.
    SleepDone,
}

/// What the caller must do before it can deliver the next event.
#[derive(Clone, Copy, PartialEq, Eq, Structural, Debug)]
pub enum InputAction {
    /// Suspend until the button reaches the pressed level.
    AwaitPress,
    /// Write the status line and await its completion.
    WriteStatus,
    /// Sleep for [`crate::rate::DEBOUNCE_MS`] milliseconds.
    SleepDebounce,
    /// Suspend until the button reaches the released level.
    AwaitRelease,
    /// A transport failure is fatal: stop the whole image.
    Halt,
}

/// The status line the task reports on every rate change:
/// `changing speed...` with a carriage-return line-feed ending.
pub open spec fn spec_status_message() -> Seq<u8> {
    seq![99u8, 104u8, 97u8, 110u8, 103u8, 105u8, 110u8, 103u8, 32u8, 115u8, 112u8, 101u8, 101u8, 100u8, 46u8, 46u8, 46u8, 13u8, 10u8]
}

/// The bytes handed to the serial transport on every rate change.
pub fn status_message() -> (r: Vec<u8>)
    ensures
        r@ == spec_status_message(),
{
    let mut m: Vec<u8> = Vec::new();
    m.push(99u8);
    m.push(104u8);
    m.push(97u8);
    m.push(110u8);
    m.push(103u8);
    m.push(105u8);
    m.push(110u8);
    m.push(103u8);
    m.push(32u8);
    m.push(115u8);
    m.push(112u8);
    m.push(101u8);
    m.push(101u8);
    m.push(100u8);
    m.push(46u8);
    m.push(46u8);
    m.push(46u8);
    m.push(13u8);
    m.push(10u8);
    proof {
        assert(m@ =~= spec_status_message());
    }
    m
}

/// The state the task starts in: no press seen yet.
pub open spec fn spec_initial_state() -> InputState {
    InputState::WaitPress
}

/// Start the task: it waits for the first press.
pub fn initial_state() -> (s: InputState)
    ensures
        s == spec_initial_state(),
{
    InputState::WaitPress
}

/// The event each state suspends on; any other event reaching it is a
/// bounce or a spurious wake and is ignored.
pub open spec fn spec_awaited_event(s: InputState) -> InputEvent {
    match s {
        InputState::WaitPress => InputEvent::PressLevel,
        InputState::Report => InputEvent::WriteDone,
        InputState::Debounce => InputEvent::SleepDone,
        InputState::WaitRelease => InputEvent::ReleaseLevel,
    }
}

/// The action a state asks its caller to perform while it waits.
pub open spec fn spec_pending_action(s: InputState) -> InputAction {
    match s {
        InputState::WaitPress => InputAction::AwaitPress,
        InputState::Report => InputAction::WriteStatus,
        InputState::Debounce => InputAction::SleepDebounce,
        InputState::WaitRelease => InputAction::AwaitRelease,
    }
}

/// Whether this step registers a press, the one transition that changes
/// the shared register.
pub open spec fn spec_registers_press(s: InputState, e: InputEvent) -> bool {
    s == InputState::WaitPress && e == InputEvent::PressLevel
}

/// The state after consuming event `e` in state `s`.
pub open spec fn spec_next_state(s: InputState, e: InputEvent) -> InputState {
    if s == InputState::Report && e == InputEvent::WriteFailed {
        // The task halts; the state it would report next is never reached.
        InputState::Report
    } else if e == spec_awaited_event(s) {
        match s {
            InputState::WaitPress => InputState::Report,
            InputState::Report => InputState::Debounce,
            InputState::Debounce => InputState::WaitRelease,
            InputState::WaitRelease => InputState::WaitPress,
        }
    } else {
        s
    }
}

/// The action requested after consuming event `e` in state `s`.
pub open spec fn spec_next_action(s: InputState, e: InputEvent) -> InputAction {
    if s == InputState::Report && e == InputEvent::WriteFailed {
        InputAction::Halt
    } else {
        spec_pending_action(spec_next_state(s, e))
    }
}

/// Consume one event.  Exactly the press transition stores the halved (or
/// reset) period; every other transition — the bounces and spurious wakes
/// included — leaves the register untouched.
pub fn input_step(s: InputState, e: InputEvent, reg: &mut RateRegister) -> (r: (
    InputState,
    InputAction,
))
    requires
        old(reg).wf(),
    ensures
        final(reg).wf(),
        r.0 == spec_next_state(s, e),
        r.1 == spec_next_action(s, e),
        spec_registers_press(s, e) ==> final(reg).writes() == old(reg).writes().push(
            spec_next_period(old(reg).current()),
        ),
        spec_registers_press(s, e) ==> final(reg).current() == spec_next_period(
            old(reg).current(),
        ),
        !spec_registers_press(s, e) ==> *final(reg) == *old(reg),
{
    match (s, e) {
        (InputState::WaitPress, InputEvent::PressLevel) => {
            let v = next_period(reg.load());
            reg.store(v);
            (InputState::Report, InputAction::WriteStatus)
        },
        (InputState::Report, InputEvent::WriteDone) => {
            (InputState::Debounce, InputAction::SleepDebounce)
        },
        (InputState::Report, InputEvent::WriteFailed) => (InputState::Report, InputAction::Halt),
        (InputState::Debounce, InputEvent::SleepDone) => {
            (InputState::WaitRelease, InputAction::AwaitRelease)
        },
        (InputState::WaitRelease, InputEvent::ReleaseLevel) => {
            (InputState::WaitPress, InputAction::AwaitPress)
        },
        _ => (s, pending_action(s)),
    }
}

/// The action a state keeps asking for while it waits (executable twin of
/// [`spec_pending_action`]).
pub fn pending_action(s: InputState) -> (r: InputAction)
    ensures
        r == spec_pending_action(s),
{
    match s {
        InputState::WaitPress => InputAction::AwaitPress,
        InputState::Report => InputAction::WriteStatus,
        InputState::Debounce => InputAction::SleepDebounce,
        InputState::WaitRelease => InputAction::AwaitRelease,
    }
}

/// The state after a whole sequence of events.
pub open spec fn spec_state_after(s: InputState, events: Seq<InputEvent>) -> InputState
    decreases events.len(),
{
    if events.len() == 0 {
        s
    } else {
        spec_state_after(spec_next_state(s, events[0]), events.drop_first())
    }
}

/// How many of the events, consumed in order from state `s`, register a
/// press — that is, change the shared register.
pub open spec fn spec_presses_during(s: InputState, events: Seq<InputEvent>) -> nat
    decreases events.len(),
{
    if events.len() == 0 {
        0
    } else {
        (if spec_registers_press(s, events[0]) {
            1nat
        } else {
            0nat
        }) + spec_presses_during(spec_next_state(s, events[0]), events.drop_first())
    }
}

/// Whether an event is a mechanical bounce: a bare level transition.
pub open spec fn spec_is_bounce(e: InputEvent) -> bool {
    e == InputEvent::PressLevel || e == InputEvent::ReleaseLevel
}

/// Running a concatenation of two event sequences runs the parts in order:
/// the second starts in the state the first ends in, and the registered
/// presses add up.
pub proof fn lemma_run_append(s: InputState, a: Seq<InputEvent>, b: Seq<InputEvent>)
    ensures
        spec_state_after(s, a + b) == spec_state_after(spec_state_after(s, a), b),
        spec_presses_during(s, a + b) == spec_presses_during(s, a) + spec_presses_during(
            spec_state_after(s, a),
            b,
        ),
    decreases a.len(),
{
    if a.len() == 0 {
        assert(a + b =~= b);
    } else {
        assert((a + b)[0] == a[0]);
        assert((a + b).drop_first() =~= a.drop_first() + b);
        lemma_run_append(spec_next_state(s, a[0]), a.drop_first(), b);
    }
}

/// Debounce idempotence law: any number of bounce transitions arriving
/// strictly within the debounce window — while the task sleeps in
/// [`InputState::Debounce`] — leave the task in that state and register no
/// press, so they produce no additional rate change.
pub proof fn lemma_debounce_idempotent(events: Seq<InputEvent>)
    requires
        forall|i: int| 0 <= i < events.len() ==> spec_is_bounce(#[trigger] events[i]),
    ensures
        spec_state_after(InputState::Debounce, events) == InputState::Debounce,
        spec_presses_during(InputState::Debounce, events) == 0,
    decreases events.len(),
{
    if events.len() > 0 {
        assert(spec_is_bounce(events[0]));
        assert(spec_next_state(InputState::Debounce, events[0]) == InputState::Debounce);
        lemma_debounce_idempotent(events.drop_first());
    }
}

/// Held-press law: a press held through the whole debounce window registers
/// exactly one rate change.  From the press on, the task sees the write
/// completion, the debounce expiry, any number of pressed-level bounces
/// while the button stays down, and finally the release; only the first
/// event — the press itself — stores a new period.
pub proof fn lemma_held_press_registers_once(bounces: Seq<InputEvent>)
    requires
        forall|i: int| 0 <= i < bounces.len() ==> #[trigger] bounces[i] == InputEvent::PressLevel,
    ensures
        spec_presses_during(
            InputState::WaitPress,
            seq![InputEvent::PressLevel, InputEvent::WriteDone, InputEvent::SleepDone] + bounces
                + seq![InputEvent::ReleaseLevel],
        ) == 1,
        spec_state_after(
            InputState::WaitPress,
            seq![InputEvent::PressLevel, InputEvent::WriteDone, InputEvent::SleepDone] + bounces
                + seq![InputEvent::ReleaseLevel],
        ) == InputState::WaitPress,
    decreases bounces.len(),
{
    let pre = seq![InputEvent::PressLevel, InputEvent::WriteDone, InputEvent::SleepDone];
    let tail = bounces + seq![InputEvent::ReleaseLevel];
    let all = seq![InputEvent::PressLevel, InputEvent::WriteDone, InputEvent::SleepDone] + bounces
        + seq![InputEvent::ReleaseLevel];
    let p1 = seq![InputEvent::WriteDone, InputEvent::SleepDone];
    let p2 = seq![InputEvent::SleepDone];
    assert(pre[0] == InputEvent::PressLevel);
    assert(pre.drop_first() =~= p1);
    assert(p1[0] == InputEvent::WriteDone);
    assert(p1.drop_first() =~= p2);
    assert(p2[0] == InputEvent::SleepDone);
    assert(p2.drop_first() =~= Seq::<InputEvent>::empty());
    assert(spec_state_after(InputState::WaitRelease, Seq::<InputEvent>::empty())
        == InputState::WaitRelease);
    assert(spec_state_after(InputState::Debounce, p2) == InputState::WaitRelease);
    assert(spec_state_after(InputState::Report, p1) == InputState::WaitRelease);
    assert(spec_state_after(InputState::WaitPress, pre) == InputState::WaitRelease);
    assert(spec_presses_during(InputState::WaitRelease, Seq::<InputEvent>::empty()) == 0);
    assert(spec_presses_during(InputState::Debounce, p2) == 0);
    assert(spec_presses_during(InputState::Report, p1) == 0);
    assert(spec_presses_during(InputState::WaitPress, pre) == 1);
    lemma_run_append(InputState::WaitPress, pre, tail);
    lemma_wait_release_absorbs(bounces);
    assert(all =~= pre + tail);
}

/// While the task waits for the release, repeated pressed-level readings
/// from the still-held button are absorbed: no press registers until after
/// the release.
pub proof fn lemma_wait_release_absorbs(bounces: Seq<InputEvent>)
    requires
        forall|i: int| 0 <= i < bounces.len() ==> #[trigger] bounces[i] == InputEvent::PressLevel,
    ensures
        spec_state_after(InputState::WaitRelease, bounces + seq![InputEvent::ReleaseLevel])
            == InputState::WaitPress,
        spec_presses_during(InputState::WaitRelease, bounces + seq![InputEvent::ReleaseLevel])
            == 0,
    decreases bounces.len(),
{
    let all = bounces + seq![InputEvent::ReleaseLevel];
    if bounces.len() == 0 {
        assert(all[0] == InputEvent::ReleaseLevel);
        assert(spec_next_state(InputState::WaitRelease, InputEvent::ReleaseLevel)
            == InputState::WaitPress);
        assert(all.drop_first() =~= Seq::<InputEvent>::empty());
        assert(spec_state_after(InputState::WaitPress, Seq::<InputEvent>::empty())
            == InputState::WaitPress);
        assert(spec_presses_during(InputState::WaitPress, Seq::<InputEvent>::empty()) == 0);
    } else {
        assert(bounces[0] == InputEvent::PressLevel);
        assert(all[0] == InputEvent::PressLevel);
        assert(spec_next_state(InputState::WaitRelease, all[0]) == InputState::WaitRelease);
        assert(!spec_registers_press(InputState::WaitRelease, all[0]));
        assert(all.drop_first() =~= bounces.drop_first() + seq![InputEvent::ReleaseLevel]);
        assert forall|i: int|
            0 <= i < bounces.drop_first().len() implies #[trigger] bounces.drop_first()[i]
            == InputEvent::PressLevel by {
            assert(bounces.drop_first()[i] == bounces[i + 1]);
        }
        lemma_wait_release_absorbs(bounces.drop_first());
    }
}

} // verus!

//! The button gesture classifier: how long a press has to last to count as
//! long, and how a second press turns a short one into a double.
//!
//! The caller measures: it times the press from the active level to the
//! release, and, where asked to, watches the detection window for a second
//! full press and release.

use vstd::prelude::*;

verus! {

/// A press of at least this many milliseconds is a long press.
pub const LONG_PRESS_MS: u32 = 2000;

/// Milliseconds after a short press within which a second one makes a double.
pub const DOUBLE_PRESS_WINDOW_MS: u32 = 300;

/// Milliseconds for which the button is ignored after a gesture.
pub const COOLDOWN_MS: u32 = 300;

/// Milliseconds between two looks at an idle button.
pub const POLL_INTERVAL_MS: u32 = 100;

/// A completed gesture.
#[derive(Clone, Copy, Debug, PartialEq, Eq, Structural)]
pub enum ButtonEvent {
    ShortPress,
    LongPress,
    DoublePress,
}

/// What follows the release of a first press.
#[derive(Clone, Copy, Debug, PartialEq, Eq, Structural)]
pub enum PressStep {
    /// The gesture is complete.
    Emit(ButtonEvent),
    /// Watch for a second press for this many milliseconds, then classify.
    AwaitSecondPress(u32),
}

/// A press of this duration opens the double-press window.
pub open spec fn opens_window(duration_ms: u32) -> bool {
    0 < duration_ms < LONG_PRESS_MS
}

/// The gesture of a press that lasted `duration_ms`, given whether a second
/// full press and release was seen inside the window. A long press is long
/// whatever follows; a press of no measurable duration is short.
pub open spec fn press_type(duration_ms: u32, second_press: bool) -> ButtonEvent {
    if duration_ms >= LONG_PRESS_MS {
        ButtonEvent::LongPress
    } else if opens_window(duration_ms) && second_press {
        ButtonEvent::DoublePress
    } else {
        ButtonEvent::ShortPress
    }
}

/// Decides, at the release of a press, whether the gesture is complete or the
/// double-press window has to be watched first.
pub fn after_release(duration_ms: u32) -> (step: PressStep)
    ensures
        opens_window(duration_ms) ==> step == PressStep::AwaitSecondPress(DOUBLE_PRESS_WINDOW_MS),
        !opens_window(duration_ms) ==> step == PressStep::Emit(press_type(duration_ms, false)),
{
    if duration_ms >= LONG_PRESS_MS {
        PressStep::Emit(ButtonEvent::LongPress)
    } else if duration_ms > 0 {
        PressStep::AwaitSecondPress(DOUBLE_PRESS_WINDOW_MS)
    } else {
        PressStep::Emit(ButtonEvent::ShortPress)
    }
}

/// Classifies a press by its duration and by whether a second press was seen
/// inside the window.
pub fn determine_press_type(duration_ms: u32, second_press: bool) -> (event: ButtonEvent)
    ensures
        event == press_type(duration_ms, second_press),
{
    match after_release(duration_ms) {
        PressStep::Emit(event) => event,
        PressStep::AwaitSecondPress(_) => {
            if second_press {
                ButtonEvent::DoublePress
            } else {
                ButtonEvent::ShortPress
            }
        },
    }
}

/// Where the window is not opened, what happens in it does not matter.
pub proof fn lemma_window_only_matters_when_opened(duration_ms: u32, a: bool, b: bool)
    requires
        !opens_window(duration_ms),
    ensures
        press_type(duration_ms, a) == press_type(duration_ms, b),
{
}

/// Where the classifier stands between two looks at the button. Times are
/// milliseconds on a clock that does not run backwards.
#[derive(Clone, Copy, Debug, PartialEq, Eq, Structural)]
pub enum ClassifierState {
    /// Waiting for a press.
    Idle,
    /// The button went down at `since` and is still down.
    Pressed { since: u64 },
    /// A short press of `duration` milliseconds was released at `opened`; a
    /// second press may follow.
    Window { duration: u32, opened: u64 },
    /// A second press began inside the window and is still down.
    SecondPress { duration: u32 },
    /// A gesture was emitted at `since`; the button is ignored for a while.
    Cooldown { since: u64 },
}

impl ClassifierState {
    /// The state is one that looks at a button lead to: a window is only
    /// ever open after a press that opens it.
    pub open spec fn wf(self) -> bool {
        match self {
            ClassifierState::Window { duration, .. } => opens_window(duration),
            ClassifierState::SecondPress { duration } => opens_window(duration),
            _ => true,
        }
    }
}

/// How long to leave the button alone before the next look.
#[derive(Clone, Copy, Debug, PartialEq, Eq, Structural)]
pub enum Wait {
    /// Look again at once.
    Poll,
    /// Sleep for this many milliseconds first.
    Sleep(u32),
}

/// What one look at the button leads to.
#[derive(Clone, Copy, Debug, PartialEq, Eq, Structural)]
pub struct ClassifierStep {
    /// Where the classifier stands now.
    pub state: ClassifierState,
    /// The gesture that this look completed, if any.
    pub event: Option<ButtonEvent>,
    /// When to look next.
    pub wait: Wait,
}

/// Milliseconds from `since` to `now`, as far as a `u32` counts; zero where
/// `now` lies before `since`.
pub open spec fn elapsed_ms(since: u64, now: u64) -> u32 {
    if now <= since {
        0
    } else if now - since > u32::MAX {
        u32::MAX
    } else {
        (now - since) as u32
    }
}

/// The step taken when a gesture is complete: emit it and start the
/// cooldown.
pub open spec fn emit(event: ButtonEvent, now: u64) -> ClassifierStep {
    ClassifierStep {
        state: ClassifierState::Cooldown { since: now },
        event: Some(event),
        wait: Wait::Sleep(COOLDOWN_MS),
    }
}

/// The step taken with nothing to report.
pub open spec fn carry_on(state: ClassifierState, wait: Wait) -> ClassifierStep {
    ClassifierStep { state, event: None, wait }
}

/// What a look at an idle button leads to: a press is timed from now; else
/// the next look is one poll interval away.
pub open spec fn idle_next(now: u64, pressed: bool) -> ClassifierStep {
    if pressed {
        carry_on(ClassifierState::Pressed { since: now }, Wait::Poll)
    } else {
        carry_on(ClassifierState::Idle, Wait::Sleep(POLL_INTERVAL_MS))
    }
}

/// What a look at the button at time `now` leads to from `state`.
///
/// Idle, the button is looked at every poll interval. Once it is down it is
/// watched without pause until it is released, and the press is timed. A
/// long press, or one too short to time, completes at once; any other opens
/// the window, which is watched without pause: a press inside it, once
/// released, makes a double press, and the end of the window a short one,
/// whatever the button does at that moment. After a gesture the button is
/// ignored for the cooldown and one poll interval.
pub open spec fn classifier_next(state: ClassifierState, now: u64, pressed: bool)
    -> ClassifierStep {
    match state {
        ClassifierState::Idle => idle_next(now, pressed),
        ClassifierState::Pressed { since } => if pressed {
            carry_on(state, Wait::Poll)
        } else if opens_window(elapsed_ms(since, now)) {
            carry_on(
                ClassifierState::Window { duration: elapsed_ms(since, now), opened: now },
                Wait::Poll,
            )
        } else {
            emit(press_type(elapsed_ms(since, now), false), now)
        },
        ClassifierState::Window { duration, opened } => if elapsed_ms(opened, now)
            >= DOUBLE_PRESS_WINDOW_MS {
            emit(press_type(duration, false), now)
        } else if pressed {
            carry_on(ClassifierState::SecondPress { duration }, Wait::Poll)
        } else {
            carry_on(state, Wait::Poll)
        },
        ClassifierState::SecondPress { duration } => if pressed {
            carry_on(state, Wait::Poll)
        } else {
            emit(press_type(duration, true), now)
        },
        ClassifierState::Cooldown { since } => if elapsed_ms(since, now) >= COOLDOWN_MS
            + POLL_INTERVAL_MS {
            idle_next(now, pressed)
        } else {
            carry_on(
                state,
                Wait::Sleep((COOLDOWN_MS + POLL_INTERVAL_MS - elapsed_ms(since, now)) as u32),
            )
        },
    }
}

/// Milliseconds from `since` to `now`, as far as a `u32` counts.
pub fn elapsed(since: u64, now: u64) -> (ms: u32)
    ensures
        ms == elapsed_ms(since, now),
{
    if now <= since {
        0
    } else if now - since > u32::MAX as u64 {
        u32::MAX
    } else {
        (now - since) as u32
    }
}

/// Takes one look at an idle button.
fn idle_step(now_ms: u64, pressed: bool) -> (step: ClassifierStep)
    ensures
        step == idle_next(now_ms, pressed),
{
    if pressed {
        ClassifierStep {
            state: ClassifierState::Pressed { since: now_ms },
            event: None,
            wait: Wait::Poll,
        }
    } else {
        ClassifierStep {
            state: ClassifierState::Idle,
            event: None,
            wait: Wait::Sleep(POLL_INTERVAL_MS),
        }
    }
}

/// Takes one look at the button: `pressed` is its level at time `now_ms`.
pub fn classifier_step(state: ClassifierState, now_ms: u64, pressed: bool) -> (step:
    ClassifierStep)
    ensures
        step == classifier_next(state, now_ms, pressed),
        state.wf() ==> step.state.wf(),
{
    let cooldown = ClassifierState::Cooldown { since: now_ms };
    match state {
        ClassifierState::Idle => idle_step(now_ms, pressed),
        ClassifierState::Pressed { since } => {
            if pressed {
                ClassifierStep { state, event: None, wait: Wait::Poll }
            } else {
                let duration: u32 = elapsed(since, now_ms);
                match after_release(duration) {
                    PressStep::Emit(event) => ClassifierStep {
                        state: cooldown,
                        event: Some(event),
                        wait: Wait::Sleep(COOLDOWN_MS),
                    },
                    PressStep::AwaitSecondPress(_) => ClassifierStep {
                        state: ClassifierState::Window { duration, opened: now_ms },
                        event: None,
                        wait: Wait::Poll,
                    },
                }
            }
        },
        ClassifierState::Window { duration, opened } => {
            if elapsed(opened, now_ms) >= DOUBLE_PRESS_WINDOW_MS {
                ClassifierStep {
                    state: cooldown,
                    event: Some(determine_press_type(duration, false)),
                    wait: Wait::Sleep(COOLDOWN_MS),
                }
            } else if pressed {
                ClassifierStep {
                    state: ClassifierState::SecondPress { duration },
                    event: None,
                    wait: Wait::Poll,
                }
            } else {
                ClassifierStep { state, event: None, wait: Wait::Poll }
            }
        },
        ClassifierState::SecondPress { duration } => {
            if pressed {
                ClassifierStep { state, event: None, wait: Wait::Poll }
            } else {
                ClassifierStep {
                    state: cooldown,
                    event: Some(determine_press_type(duration, true)),
                    wait: Wait::Sleep(COOLDOWN_MS),
                }
            }
        },
        ClassifierState::Cooldown { since } => {
            let gone: u32 = elapsed(since, now_ms);
            if gone >= COOLDOWN_MS + POLL_INTERVAL_MS {
                idle_step(now_ms, pressed)
            } else {
                ClassifierStep {
                    state,
                    event: None,
                    wait: Wait::Sleep(COOLDOWN_MS + POLL_INTERVAL_MS - gone),
                }
            }
        },
    }
}

/// A press held for the long-press threshold or longer is a long press the
/// moment it is released.
pub proof fn lemma_long_press(down: u64, up: u64)
    requires
        down + LONG_PRESS_MS <= up,
    ensures
        classifier_next(ClassifierState::Idle, down, true).state == (ClassifierState::Pressed {
            since: down,
        }),
        classifier_next(ClassifierState::Pressed { since: down }, up, false) == emit(
            ButtonEvent::LongPress,
            up,
        ),
{
}

/// A press shorter than the threshold opens the window. While the window
/// lasts and the button stays up nothing is emitted; the first look at or
/// after the window's end emits a short press.
pub proof fn lemma_short_press(down: u64, up: u64, look: u64, pressed: bool)
    requires
        down < up < down + LONG_PRESS_MS,
        up <= look,
    ensures
        ({
            let window = ClassifierState::Window { duration: (up - down) as u32, opened: up };
            &&& classifier_next(ClassifierState::Pressed { since: down }, up, false) == carry_on(
                window,
                Wait::Poll,
            )
            &&& look < up + DOUBLE_PRESS_WINDOW_MS ==> classifier_next(window, look, false)
                == carry_on(window, Wait::Poll)
            &&& look >= up + DOUBLE_PRESS_WINDOW_MS ==> classifier_next(window, look, pressed)
                == emit(ButtonEvent::ShortPress, look)
        }),
{
}

/// A second press that begins inside the window makes a double press, the
/// moment it is released and however long it is held.
pub proof fn lemma_double_press(down: u64, up: u64, again: u64, release: u64)
    requires
        down < up < down + LONG_PRESS_MS,
        up <= again < up + DOUBLE_PRESS_WINDOW_MS,
    ensures
        ({
            let window = ClassifierState::Window { duration: (up - down) as u32, opened: up };
            let second = ClassifierState::SecondPress { duration: (up - down) as u32 };
            &&& classifier_next(window, again, true) == carry_on(second, Wait::Poll)
            &&& classifier_next(second, release, true) == carry_on(second, Wait::Poll)
            &&& classifier_next(second, release, false) == emit(ButtonEvent::DoublePress, release)
        }),
{
}

/// After a gesture the button is ignored until the cooldown and one poll
/// interval have passed; from then on the classifier is idle again.
pub proof fn lemma_cooldown(since: u64, now: u64, pressed: bool)
    requires
        since <= now,
    ensures
        now < since + COOLDOWN_MS + POLL_INTERVAL_MS ==> {
            let step = classifier_next(ClassifierState::Cooldown { since }, now, pressed);
            step.event is None && step.state == (ClassifierState::Cooldown { since })
        },
        now >= since + COOLDOWN_MS + POLL_INTERVAL_MS ==> classifier_next(
            ClassifierState::Cooldown { since },
            now,
            pressed,
        ) == classifier_next(ClassifierState::Idle, now, pressed),
{
}

/// A gesture is only ever emitted together with the start of a cooldown, and
/// it is the one that the presses call for: long only at the release of a
/// first press of at least the threshold, double exactly at the release of a
/// second press, short only at the end of a window or for a press too short
/// to time.
pub proof fn lemma_emitted_gestures(state: ClassifierState, now: u64, pressed: bool)
    requires
        state.wf(),
    ensures
        ({
            let step = classifier_next(state, now, pressed);
            &&& step.state.wf()
            &&& step.event is Some ==> step.state == (ClassifierState::Cooldown { since: now })
            &&& step.event == Some(ButtonEvent::LongPress) ==> state is Pressed && elapsed_ms(
                state->Pressed_since,
                now,
            ) >= LONG_PRESS_MS
            &&& step.event == Some(ButtonEvent::DoublePress) <==> state is SecondPress && !pressed
            &&& step.event == Some(ButtonEvent::ShortPress) ==> state is Window || (state is Pressed
                && elapsed_ms(state->Pressed_since, now) == 0)
        }),
{
}

} // verus!

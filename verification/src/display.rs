//! The aggregator: the setup-mode and access-mode state machine that the
//! clock ticks, button gestures and sensor samples drive, and what it shows.

use crate::button::ButtonEvent;
use crate::rtc::TimeField;
use crate::sensor::{LatestData, SensorData, SensorKind};
use vstd::prelude::*;

verus! {

/// What the clock poller publishes after each read.
#[derive(Clone, Copy, Debug, PartialEq, Eq, Structural)]
pub enum RtcEvent {
    /// Hour, minute, second.
    Tick(u8, u8, u8),
}

/// Which clock field the button is setting, if any.
#[derive(Clone, Copy, Debug, PartialEq, Eq, Structural)]
pub enum SetupMode {
    Idle,
    Hours,
    Minutes,
    Seconds,
}

/// Whether all sensors may be looked at.
#[derive(Clone, Copy, Debug, PartialEq, Eq, Structural)]
pub enum AccessMode {
    Locked,
    FullAccess,
}

/// The three indicator lights; `true` is lit.
#[derive(Clone, Copy, Debug, PartialEq, Eq, Structural)]
pub struct Leds {
    pub red: bool,
    pub yellow: bool,
    pub green: bool,
}

/// What the display shows.
#[derive(Clone, Copy, Debug, PartialEq, Eq, Structural)]
pub enum DisplayLine {
    /// Setup is under way and this field is selected.
    SetupSelected(TimeField),
    /// Full access: the kind under the cursor, with its latest reading or
    /// none where none has arrived.
    FullAccess(SensorKind, Option<SensorData>),
    /// Restricted: the latest temperature, or none where none has arrived.
    Restricted(Option<SensorData>),
}

/// What a gesture did.
#[derive(Clone, Copy, Debug, PartialEq, Eq, Structural)]
pub enum ButtonOutcome {
    /// The selected clock field is to be advanced by one.
    Increment(TimeField),
    /// The display cursor moved to the next kind of sensor.
    CursorAdvanced,
    /// Setup began, with the hours selected.
    EnteredSetup,
    /// Setup moved on to the next field.
    SetupAdvanced,
    /// Setup ended.
    ExitedSetup,
    /// Access was unlocked.
    EnteredFullAccess,
    /// Access was locked again.
    ExitedFullAccess,
    /// Unlocking was refused because the minute is even.
    UnlockRefused,
}

impl SetupMode {
    /// The mode that a long press leads to: from idle through hours, minutes
    /// and seconds back to idle.
    pub open spec fn successor(self) -> SetupMode {
        match self {
            SetupMode::Idle => SetupMode::Hours,
            SetupMode::Hours => SetupMode::Minutes,
            SetupMode::Minutes => SetupMode::Seconds,
            SetupMode::Seconds => SetupMode::Idle,
        }
    }

    /// The clock field that the mode selects.
    pub open spec fn selected(self) -> Option<TimeField> {
        match self {
            SetupMode::Idle => None,
            SetupMode::Hours => Some(TimeField::Hours),
            SetupMode::Minutes => Some(TimeField::Minutes),
            SetupMode::Seconds => Some(TimeField::Seconds),
        }
    }

    /// The mode that a long press leads to.
    pub fn next(self) -> (mode: SetupMode)
        ensures
            mode == self.successor(),
    {
        match self {
            SetupMode::Idle => SetupMode::Hours,
            SetupMode::Hours => SetupMode::Minutes,
            SetupMode::Minutes => SetupMode::Seconds,
            SetupMode::Seconds => SetupMode::Idle,
        }
    }

    /// The clock field that the mode selects, none when idle.
    pub fn field(self) -> (field: Option<TimeField>)
        ensures
            field == self.selected(),
    {
        match self {
            SetupMode::Idle => None,
            SetupMode::Hours => Some(TimeField::Hours),
            SetupMode::Minutes => Some(TimeField::Minutes),
            SetupMode::Seconds => Some(TimeField::Seconds),
        }
    }
}

/// The aggregator's state.
#[derive(Clone, Copy, Debug, PartialEq, Eq, Structural)]
pub struct DisplayState {
    /// Locked or unlocked.
    pub access: AccessMode,
    /// Whether the latest minute seen is odd, which permits unlocking.
    pub can_be_unlocked: bool,
    /// The clock field being set, if any.
    pub setup_mode: SetupMode,
    /// The kind of sensor the display cursor is on.
    pub current_sensor: SensorKind,
    /// The latest reading of each kind.
    pub latest_data: LatestData,
}

/// What one cycle of the aggregator leaves to be done.
#[derive(Debug)]
pub struct CycleOutput {
    /// What each gesture of the cycle did, in the order of arrival.
    pub outcomes: Vec<ButtonOutcome>,
    /// The indicator lights to show.
    pub leds: Leds,
    /// The line to display.
    pub line: DisplayLine,
}

/// A minute that permits unlocking: an odd one.
pub open spec fn minute_is_eligible(minute: u8) -> bool {
    minute % 2 == 1
}

impl DisplayState {
    /// The state at start-up: locked, not eligible, no setup, the cursor on
    /// temperature, nothing cached.
    pub open spec fn initial() -> DisplayState {
        DisplayState {
            access: AccessMode::Locked,
            can_be_unlocked: false,
            setup_mode: SetupMode::Idle,
            current_sensor: SensorKind::Temperature,
            latest_data: LatestData::spec_empty(),
        }
    }

    /// The state after a clock tick: eligibility follows the tick's minute.
    pub open spec fn after_tick(self, tick: RtcEvent) -> DisplayState {
        match tick {
            RtcEvent::Tick(_, minute, _) => DisplayState {
                can_be_unlocked: minute_is_eligible(minute),
                ..self
            },
        }
    }

    /// The state after a gesture.
    pub open spec fn after_button(self, event: ButtonEvent) -> DisplayState {
        match event {
            ButtonEvent::ShortPress => if self.setup_mode == SetupMode::Idle {
                DisplayState { current_sensor: self.current_sensor.successor(), ..self }
            } else {
                self
            },
            ButtonEvent::LongPress => DisplayState {
                setup_mode: self.setup_mode.successor(),
                ..self
            },
            ButtonEvent::DoublePress => match self.access {
                AccessMode::FullAccess => DisplayState { access: AccessMode::Locked, ..self },
                AccessMode::Locked => if self.can_be_unlocked {
                    DisplayState { access: AccessMode::FullAccess, ..self }
                } else {
                    self
                },
            },
        }
    }

    /// What a gesture does in this state.
    pub open spec fn button_outcome(self, event: ButtonEvent) -> ButtonOutcome {
        match event {
            ButtonEvent::ShortPress => match self.setup_mode.selected() {
                Some(field) => ButtonOutcome::Increment(field),
                None => ButtonOutcome::CursorAdvanced,
            },
            ButtonEvent::LongPress => match self.setup_mode {
                SetupMode::Idle => ButtonOutcome::EnteredSetup,
                SetupMode::Seconds => ButtonOutcome::ExitedSetup,
                _ => ButtonOutcome::SetupAdvanced,
            },
            ButtonEvent::DoublePress => match self.access {
                AccessMode::FullAccess => ButtonOutcome::ExitedFullAccess,
                AccessMode::Locked => if self.can_be_unlocked {
                    ButtonOutcome::EnteredFullAccess
                } else {
                    ButtonOutcome::UnlockRefused
                },
            },
        }
    }

    /// The state after a sensor sample: the cache holds it.
    pub open spec fn after_sample(self, sample: SensorData) -> DisplayState {
        DisplayState { latest_data: self.latest_data.spec_insert(sample), ..self }
    }

    /// The state after a run of ticks, in order.
    pub open spec fn after_ticks(self, ticks: Seq<RtcEvent>) -> DisplayState
        decreases ticks.len(),
    {
        if ticks.len() == 0 {
            self
        } else {
            self.after_ticks(ticks.drop_last()).after_tick(ticks.last())
        }
    }

    /// The state after a run of gestures, in order.
    pub open spec fn after_buttons(self, events: Seq<ButtonEvent>) -> DisplayState
        decreases events.len(),
    {
        if events.len() == 0 {
            self
        } else {
            self.after_buttons(events.drop_last()).after_button(events.last())
        }
    }

    /// What each gesture of a run does, each in the state that the gestures
    /// before it have left.
    pub open spec fn button_outcomes(self, events: Seq<ButtonEvent>) -> Seq<ButtonOutcome>
        decreases events.len(),
    {
        if events.len() == 0 {
            Seq::empty()
        } else {
            self.button_outcomes(events.drop_last()).push(
                self.after_buttons(events.drop_last()).button_outcome(events.last()),
            )
        }
    }

    /// The state after a run of sensor samples, in order.
    pub open spec fn after_samples(self, samples: Seq<SensorData>) -> DisplayState
        decreases samples.len(),
    {
        if samples.len() == 0 {
            self
        } else {
            self.after_samples(samples.drop_last()).after_sample(samples.last())
        }
    }

    /// The state after one cycle: all ticks, then all gestures, then all
    /// samples.
    pub open spec fn after_cycle(
        self,
        ticks: Seq<RtcEvent>,
        events: Seq<ButtonEvent>,
        samples: Seq<SensorData>,
    ) -> DisplayState {
        self.after_ticks(ticks).after_buttons(events).after_samples(samples)
    }

    /// The indicator lights: green alone when unlocked; red and yellow when
    /// locked and unlocking is permitted; red alone when it is not.
    pub open spec fn indicator(self) -> Leds {
        match self.access {
            AccessMode::FullAccess => Leds { red: false, yellow: false, green: true },
            AccessMode::Locked => Leds { red: true, yellow: self.can_be_unlocked, green: false },
        }
    }

    /// The line to display: the selected field during setup; else, unlocked,
    /// the reading under the cursor; else the temperature, wherever the
    /// cursor is.
    pub open spec fn display(self) -> DisplayLine {
        match self.setup_mode.selected() {
            Some(field) => DisplayLine::SetupSelected(field),
            None => match self.access {
                AccessMode::FullAccess => DisplayLine::FullAccess(
                    self.current_sensor,
                    self.latest_data.spec_get(self.current_sensor),
                ),
                AccessMode::Locked => DisplayLine::Restricted(
                    self.latest_data.spec_get(SensorKind::Temperature),
                ),
            },
        }
    }

    /// The state at start-up.
    pub fn new() -> (state: DisplayState)
        ensures
            state == DisplayState::initial(),
    {
        DisplayState {
            access: AccessMode::Locked,
            can_be_unlocked: false,
            setup_mode: SetupMode::Idle,
            current_sensor: SensorKind::Temperature,
            latest_data: LatestData::new(),
        }
    }

    /// Takes in a clock tick.
    pub fn on_tick(&mut self, tick: RtcEvent)
        ensures
            *final(self) == old(self).after_tick(tick),
    {
        match tick {
            RtcEvent::Tick(_, minute, _) => {
                self.can_be_unlocked = minute % 2 == 1;
            },
        }
    }

    /// Takes in a gesture and says what it did. Where the outcome is an
    /// increment, the caller advances that field of the clock.
    pub fn on_button(&mut self, event: ButtonEvent) -> (outcome: ButtonOutcome)
        ensures
            *final(self) == old(self).after_button(event),
            outcome == old(self).button_outcome(event),
    {
        match event {
            ButtonEvent::ShortPress => match self.setup_mode.field() {
                Some(field) => ButtonOutcome::Increment(field),
                None => {
                    self.current_sensor = self.current_sensor.next();
                    ButtonOutcome::CursorAdvanced
                },
            },
            ButtonEvent::LongPress => {
                let outcome: ButtonOutcome = match self.setup_mode {
                    SetupMode::Idle => ButtonOutcome::EnteredSetup,
                    SetupMode::Seconds => ButtonOutcome::ExitedSetup,
                    _ => ButtonOutcome::SetupAdvanced,
                };
                self.setup_mode = self.setup_mode.next();
                outcome
            },
            ButtonEvent::DoublePress => match self.access {
                AccessMode::FullAccess => {
                    self.access = AccessMode::Locked;
                    ButtonOutcome::ExitedFullAccess
                },
                AccessMode::Locked => {
                    if self.can_be_unlocked {
                        self.access = AccessMode::FullAccess;
                        ButtonOutcome::EnteredFullAccess
                    } else {
                        ButtonOutcome::UnlockRefused
                    }
                },
            },
        }
    }

    /// Takes in a sensor sample.
    pub fn on_sensor(&mut self, sample: SensorData)
        ensures
            *final(self) == old(self).after_sample(sample),
    {
        self.latest_data.insert(sample);
    }

    /// The indicator lights for this state.
    pub fn leds(&self) -> (leds: Leds)
        ensures
            leds == self.indicator(),
    {
        match self.access {
            AccessMode::FullAccess => Leds { red: false, yellow: false, green: true },
            AccessMode::Locked => Leds { red: true, yellow: self.can_be_unlocked, green: false },
        }
    }

    /// The line to display in this state.
    pub fn display_line(&self) -> (line: DisplayLine)
        ensures
            line == self.display(),
    {
        match self.setup_mode.field() {
            Some(field) => DisplayLine::SetupSelected(field),
            None => match self.access {
                AccessMode::FullAccess => DisplayLine::FullAccess(
                    self.current_sensor,
                    self.latest_data.get(self.current_sensor),
                ),
                AccessMode::Locked => DisplayLine::Restricted(
                    self.latest_data.get(SensorKind::Temperature),
                ),
            },
        }
    }

    /// Runs one cycle on what the three channels held: all ticks first, then
    /// all gestures, then all samples, each in order of arrival. Returns what
    /// the gestures did, and the lights and the line for the state reached.
    pub fn display_cycle(
        &mut self,
        ticks: &Vec<RtcEvent>,
        events: &Vec<ButtonEvent>,
        samples: &Vec<SensorData>,
    ) -> (out: CycleOutput)
        ensures
            *final(self) == old(self).after_cycle(ticks@, events@, samples@),
            out.outcomes@ == old(self).after_ticks(ticks@).button_outcomes(events@),
            out.leds == final(self).indicator(),
            out.line == final(self).display(),
    {
        let mut i: usize = 0;
        while i < ticks.len()
            invariant
                i <= ticks.len(),
                *self == old(self).after_ticks(ticks@.take(i as int)),
            decreases ticks.len() - i,
        {
            assert(ticks@.take(i + 1).drop_last() =~= ticks@.take(i as int));
            self.on_tick(ticks[i]);
            i = i + 1;
        }
        assert(ticks@.take(i as int) =~= ticks@);
        let ghost ticked: DisplayState = *self;
        let mut outcomes: Vec<ButtonOutcome> = Vec::new();
        let mut j: usize = 0;
        while j < events.len()
            invariant
                j <= events.len(),
                *self == ticked.after_buttons(events@.take(j as int)),
                outcomes@ == ticked.button_outcomes(events@.take(j as int)),
            decreases events.len() - j,
        {
            assert(events@.take(j + 1).drop_last() =~= events@.take(j as int));
            let outcome: ButtonOutcome = self.on_button(events[j]);
            outcomes.push(outcome);
            j = j + 1;
        }
        assert(events@.take(j as int) =~= events@);
        let ghost pressed: DisplayState = *self;
        let mut k: usize = 0;
        while k < samples.len()
            invariant
                k <= samples.len(),
                *self == pressed.after_samples(samples@.take(k as int)),
            decreases samples.len() - k,
        {
            assert(samples@.take(k + 1).drop_last() =~= samples@.take(k as int));
            self.on_sensor(samples[k]);
            k = k + 1;
        }
        assert(samples@.take(k as int) =~= samples@);
        CycleOutput { outcomes, leds: self.leds(), line: self.display_line() }
    }
}

/// Four long presses from idle lead through hours, minutes and seconds back
/// to idle, and leave everything else as it was.
pub proof fn lemma_setup_cycle_closes(state: DisplayState)
    requires
        state.setup_mode == SetupMode::Idle,
    ensures
        ({
            let one = state.after_button(ButtonEvent::LongPress);
            let two = one.after_button(ButtonEvent::LongPress);
            let three = two.after_button(ButtonEvent::LongPress);
            let four = three.after_button(ButtonEvent::LongPress);
            &&& one.setup_mode == SetupMode::Hours
            &&& two.setup_mode == SetupMode::Minutes
            &&& three.setup_mode == SetupMode::Seconds
            &&& four.setup_mode == SetupMode::Idle
            &&& four == state
        }),
        state.after_buttons(
            seq![
                ButtonEvent::LongPress,
                ButtonEvent::LongPress,
                ButtonEvent::LongPress,
                ButtonEvent::LongPress,
            ],
        ) == state,
{
    let long = ButtonEvent::LongPress;
    let run = seq![long, long, long, long];
    assert(run.drop_last() =~= seq![long, long, long]);
    assert(run.drop_last().drop_last() =~= seq![long, long]);
    assert(run.drop_last().drop_last().drop_last() =~= seq![long]);
    assert(run.drop_last().drop_last().drop_last().drop_last() =~= Seq::<ButtonEvent>::empty());
    reveal_with_fuel(DisplayState::after_buttons, 5);
}

/// Access starts locked. A double press unlocks it exactly when it is locked
/// and the minute permits; a double press while unlocked locks it whatever
/// the minute; a double press while locked under an even minute changes
/// nothing. No double press touches anything but the access mode.
pub proof fn lemma_access_control(state: DisplayState)
    ensures
        DisplayState::initial().access == AccessMode::Locked,
        state.access == AccessMode::Locked && state.can_be_unlocked ==> state.after_button(
            ButtonEvent::DoublePress,
        ).access == AccessMode::FullAccess,
        state.access == AccessMode::FullAccess ==> state.after_button(
            ButtonEvent::DoublePress,
        ).access == AccessMode::Locked,
        state.access == AccessMode::Locked && !state.can_be_unlocked ==> state.after_button(
            ButtonEvent::DoublePress,
        ) == state,
        state.after_button(ButtonEvent::DoublePress) == (DisplayState {
            access: state.after_button(ButtonEvent::DoublePress).access,
            ..state
        }),
{
}

/// Only a double press changes the access mode, only a long press the setup
/// mode, and only a short press outside setup the cursor.
pub proof fn lemma_gestures_keep_apart(state: DisplayState, event: ButtonEvent)
    ensures
        event != ButtonEvent::DoublePress ==> state.after_button(event).access == state.access,
        event != ButtonEvent::LongPress ==> state.after_button(event).setup_mode
            == state.setup_mode,
        event != ButtonEvent::ShortPress || state.setup_mode != SetupMode::Idle
            ==> state.after_button(event).current_sensor == state.current_sensor,
        state.after_button(event).can_be_unlocked == state.can_be_unlocked,
        state.after_button(event).latest_data == state.latest_data,
{
}

/// A gesture asks for a clock field to be advanced exactly when it is a short
/// press during setup, and then for the selected field.
pub proof fn lemma_increment_only_in_setup(
    state: DisplayState,
    event: ButtonEvent,
    field: TimeField,
)
    ensures
        state.button_outcome(event) == ButtonOutcome::Increment(field) <==> event
            == ButtonEvent::ShortPress && state.setup_mode.selected() == Some(field),
{
}

/// Exactly one light pattern belongs to each of the three situations, and
/// red or green is always lit, never both.
pub proof fn lemma_indicator(state: DisplayState)
    ensures
        state.indicator().green <==> state.access == AccessMode::FullAccess,
        state.indicator().red <==> state.access == AccessMode::Locked,
        state.indicator().yellow <==> state.access == AccessMode::Locked && state.can_be_unlocked,
{
}

} // verus!

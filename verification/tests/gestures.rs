use rtc_node::button::{
    after_release, classifier_step, determine_press_type, elapsed, ButtonEvent, ClassifierState,
    ClassifierStep, PressStep, Wait, COOLDOWN_MS, DOUBLE_PRESS_WINDOW_MS, LONG_PRESS_MS,
    POLL_INTERVAL_MS,
};
use rtc_node::display::{
    AccessMode, ButtonOutcome, CycleOutput, DisplayLine, DisplayState, Leds, RtcEvent, SetupMode,
};
use rtc_node::rtc::TimeField;
use rtc_node::sensor::{sensor_cycle, Climate, LatestData, SensorData, SensorKind};

#[test]
fn thresholds() {
    assert_eq!(LONG_PRESS_MS, 2000);
    assert_eq!(DOUBLE_PRESS_WINDOW_MS, 300);
    assert_eq!(COOLDOWN_MS, 300);
    assert_eq!(POLL_INTERVAL_MS, 100);
}

#[test]
fn long_press_of_2500_ms() {
    assert_eq!(determine_press_type(2500, false), ButtonEvent::LongPress);
    assert_eq!(determine_press_type(2500, true), ButtonEvent::LongPress);
    assert_eq!(after_release(2500), PressStep::Emit(ButtonEvent::LongPress));
}

#[test]
fn short_press_of_150_ms_without_second_press() {
    assert_eq!(after_release(150), PressStep::AwaitSecondPress(300));
    assert_eq!(determine_press_type(150, false), ButtonEvent::ShortPress);
}

#[test]
fn double_press_of_150_ms_with_second_press() {
    assert_eq!(after_release(150), PressStep::AwaitSecondPress(300));
    assert_eq!(determine_press_type(150, true), ButtonEvent::DoublePress);
}

#[test]
fn press_threshold_edges() {
    assert_eq!(determine_press_type(1999, false), ButtonEvent::ShortPress);
    assert_eq!(determine_press_type(1999, true), ButtonEvent::DoublePress);
    assert_eq!(determine_press_type(2000, false), ButtonEvent::LongPress);
    assert_eq!(determine_press_type(2000, true), ButtonEvent::LongPress);
    assert_eq!(determine_press_type(1, true), ButtonEvent::DoublePress);
    assert_eq!(determine_press_type(u32::MAX, true), ButtonEvent::LongPress);
    assert_eq!(after_release(1999), PressStep::AwaitSecondPress(300));
    assert_eq!(after_release(2000), PressStep::Emit(ButtonEvent::LongPress));
}

#[test]
fn press_of_no_duration_is_short() {
    assert_eq!(after_release(0), PressStep::Emit(ButtonEvent::ShortPress));
    assert_eq!(determine_press_type(0, false), ButtonEvent::ShortPress);
    assert_eq!(determine_press_type(0, true), ButtonEvent::ShortPress);
}

#[test]
fn initial_state() {
    let state = DisplayState::new();
    assert_eq!(state.access, AccessMode::Locked);
    assert!(!state.can_be_unlocked);
    assert_eq!(state.setup_mode, SetupMode::Idle);
    assert_eq!(state.current_sensor, SensorKind::Temperature);
    assert_eq!(state.latest_data, LatestData::new());
    assert_eq!(state.leds(), Leds { red: true, yellow: false, green: false });
    assert_eq!(state.display_line(), DisplayLine::Restricted(None));
}

#[test]
fn setup_cycle_closes_after_four_long_presses() {
    let mut state = DisplayState::new();
    let before = state;
    assert_eq!(state.on_button(ButtonEvent::LongPress), ButtonOutcome::EnteredSetup);
    assert_eq!(state.setup_mode, SetupMode::Hours);
    assert_eq!(state.on_button(ButtonEvent::LongPress), ButtonOutcome::SetupAdvanced);
    assert_eq!(state.setup_mode, SetupMode::Minutes);
    assert_eq!(state.on_button(ButtonEvent::LongPress), ButtonOutcome::SetupAdvanced);
    assert_eq!(state.setup_mode, SetupMode::Seconds);
    assert_eq!(state.on_button(ButtonEvent::LongPress), ButtonOutcome::ExitedSetup);
    assert_eq!(state.setup_mode, SetupMode::Idle);
    assert_eq!(state, before);
}

#[test]
fn setup_mode_order_and_fields() {
    assert_eq!(SetupMode::Idle.next(), SetupMode::Hours);
    assert_eq!(SetupMode::Hours.next(), SetupMode::Minutes);
    assert_eq!(SetupMode::Minutes.next(), SetupMode::Seconds);
    assert_eq!(SetupMode::Seconds.next(), SetupMode::Idle);
    assert_eq!(SetupMode::Idle.field(), None);
    assert_eq!(SetupMode::Hours.field(), Some(TimeField::Hours));
    assert_eq!(SetupMode::Minutes.field(), Some(TimeField::Minutes));
    assert_eq!(SetupMode::Seconds.field(), Some(TimeField::Seconds));
}

#[test]
fn short_press_in_setup_asks_for_an_increment_of_the_selected_field() {
    let mut state = DisplayState::new();
    state.on_button(ButtonEvent::LongPress);
    let in_hours = state;
    assert_eq!(
        state.on_button(ButtonEvent::ShortPress),
        ButtonOutcome::Increment(TimeField::Hours)
    );
    assert_eq!(state, in_hours);
    state.on_button(ButtonEvent::LongPress);
    assert_eq!(
        state.on_button(ButtonEvent::ShortPress),
        ButtonOutcome::Increment(TimeField::Minutes)
    );
    state.on_button(ButtonEvent::LongPress);
    assert_eq!(
        state.on_button(ButtonEvent::ShortPress),
        ButtonOutcome::Increment(TimeField::Seconds)
    );
    assert_eq!(state.current_sensor, SensorKind::Temperature);
}

#[test]
fn short_press_when_idle_steps_the_cursor_round() {
    let mut state = DisplayState::new();
    assert_eq!(state.on_button(ButtonEvent::ShortPress), ButtonOutcome::CursorAdvanced);
    assert_eq!(state.current_sensor, SensorKind::Moisture);
    state.on_button(ButtonEvent::ShortPress);
    assert_eq!(state.current_sensor, SensorKind::Light);
    state.on_button(ButtonEvent::ShortPress);
    assert_eq!(state.current_sensor, SensorKind::Pressure);
    state.on_button(ButtonEvent::ShortPress);
    assert_eq!(state.current_sensor, SensorKind::Temperature);
}

#[test]
fn access_control() {
    let mut state = DisplayState::new();
    assert_eq!(state.access, AccessMode::Locked);
    // locked, minute even: refused, nothing changes
    state.on_tick(RtcEvent::Tick(10, 12, 0));
    let before = state;
    assert_eq!(state.on_button(ButtonEvent::DoublePress), ButtonOutcome::UnlockRefused);
    assert_eq!(state, before);
    // locked, minute odd: unlocks
    state.on_tick(RtcEvent::Tick(10, 13, 0));
    assert!(state.can_be_unlocked);
    assert_eq!(state.on_button(ButtonEvent::DoublePress), ButtonOutcome::EnteredFullAccess);
    assert_eq!(state.access, AccessMode::FullAccess);
    // unlocked, minute odd: locks
    assert_eq!(state.on_button(ButtonEvent::DoublePress), ButtonOutcome::ExitedFullAccess);
    assert_eq!(state.access, AccessMode::Locked);
    // unlocked, minute even: locks as well
    state.on_button(ButtonEvent::DoublePress);
    assert_eq!(state.access, AccessMode::FullAccess);
    state.on_tick(RtcEvent::Tick(10, 14, 0));
    assert_eq!(state.on_button(ButtonEvent::DoublePress), ButtonOutcome::ExitedFullAccess);
    assert_eq!(state.access, AccessMode::Locked);
}

#[test]
fn eligibility_follows_the_parity_of_the_minute() {
    let mut state = DisplayState::new();
    for minute in 0u8..=59 {
        state.on_tick(RtcEvent::Tick(3, minute, 59));
        assert_eq!(state.can_be_unlocked, minute % 2 == 1);
    }
}

#[test]
fn indicator_patterns() {
    let mut state = DisplayState::new();
    assert_eq!(state.leds(), Leds { red: true, yellow: false, green: false });
    state.on_tick(RtcEvent::Tick(0, 1, 0));
    assert_eq!(state.leds(), Leds { red: true, yellow: true, green: false });
    state.on_button(ButtonEvent::DoublePress);
    assert_eq!(state.leds(), Leds { red: false, yellow: false, green: true });
    state.on_tick(RtcEvent::Tick(0, 2, 0));
    assert_eq!(state.leds(), Leds { red: false, yellow: false, green: true });
}

#[test]
fn end_to_end() {
    let mut state = DisplayState::new();
    state.on_tick(RtcEvent::Tick(10, 13, 0));
    assert!(state.can_be_unlocked);
    assert_eq!(state.on_button(ButtonEvent::DoublePress), ButtonOutcome::EnteredFullAccess);
    assert_eq!(state.access, AccessMode::FullAccess);
    assert_eq!(state.leds(), Leds { red: false, yellow: false, green: true });
    assert_eq!(state.current_sensor, SensorKind::Temperature);
    assert_eq!(state.on_button(ButtonEvent::ShortPress), ButtonOutcome::CursorAdvanced);
    assert_eq!(state.current_sensor, SensorKind::Moisture);
}

#[test]
fn end_to_end_in_one_cycle() {
    let mut state = DisplayState::new();
    let out: CycleOutput = state.display_cycle(
        &vec![RtcEvent::Tick(10, 13, 0)],
        &vec![ButtonEvent::DoublePress, ButtonEvent::ShortPress],
        &vec![SensorData::Temperature(215), SensorData::Moisture(480)],
    );
    assert_eq!(
        out.outcomes,
        vec![ButtonOutcome::EnteredFullAccess, ButtonOutcome::CursorAdvanced]
    );
    assert_eq!(out.leds, Leds { red: false, yellow: false, green: true });
    assert_eq!(
        out.line,
        DisplayLine::FullAccess(SensorKind::Moisture, Some(SensorData::Moisture(480)))
    );
    assert_eq!(state.access, AccessMode::FullAccess);
    assert_eq!(state.current_sensor, SensorKind::Moisture);
}

#[test]
fn cycle_takes_ticks_before_gestures() {
    // the gesture arrived first, the odd minute after it: within one cycle
    // the tick is still seen first
    let mut state = DisplayState::new();
    let out: CycleOutput = state.display_cycle(
        &vec![RtcEvent::Tick(1, 2, 3), RtcEvent::Tick(1, 3, 3)],
        &vec![ButtonEvent::DoublePress],
        &vec![],
    );
    assert_eq!(out.outcomes, vec![ButtonOutcome::EnteredFullAccess]);
    // the last tick decides
    let mut state = DisplayState::new();
    let out: CycleOutput = state.display_cycle(
        &vec![RtcEvent::Tick(1, 3, 3), RtcEvent::Tick(1, 4, 3)],
        &vec![ButtonEvent::DoublePress],
        &vec![],
    );
    assert_eq!(out.outcomes, vec![ButtonOutcome::UnlockRefused]);
    assert_eq!(out.leds, Leds { red: true, yellow: false, green: false });
}

#[test]
fn cycle_with_nothing_to_take_in() {
    let mut state = DisplayState::new();
    let before = state;
    let out: CycleOutput = state.display_cycle(&vec![], &vec![], &vec![]);
    assert_eq!(state, before);
    assert!(out.outcomes.is_empty());
    assert_eq!(out.leds, Leds { red: true, yellow: false, green: false });
    assert_eq!(out.line, DisplayLine::Restricted(None));
}

#[test]
fn cycle_in_setup_lists_increments_in_order() {
    let mut state = DisplayState::new();
    let out: CycleOutput = state.display_cycle(
        &vec![],
        &vec![
            ButtonEvent::LongPress,
            ButtonEvent::ShortPress,
            ButtonEvent::ShortPress,
            ButtonEvent::LongPress,
            ButtonEvent::ShortPress,
        ],
        &vec![SensorData::Temperature(200)],
    );
    assert_eq!(
        out.outcomes,
        vec![
            ButtonOutcome::EnteredSetup,
            ButtonOutcome::Increment(TimeField::Hours),
            ButtonOutcome::Increment(TimeField::Hours),
            ButtonOutcome::SetupAdvanced,
            ButtonOutcome::Increment(TimeField::Minutes),
        ]
    );
    assert_eq!(out.line, DisplayLine::SetupSelected(TimeField::Minutes));
    assert_eq!(state.setup_mode, SetupMode::Minutes);
}

#[test]
fn display_when_locked_is_temperature_wherever_the_cursor_is() {
    let mut state = DisplayState::new();
    state.on_button(ButtonEvent::ShortPress);
    state.on_button(ButtonEvent::ShortPress);
    assert_eq!(state.current_sensor, SensorKind::Light);
    assert_eq!(state.display_line(), DisplayLine::Restricted(None));
    state.on_sensor(SensorData::Light(true));
    assert_eq!(state.display_line(), DisplayLine::Restricted(None));
    state.on_sensor(SensorData::Temperature(-35));
    assert_eq!(
        state.display_line(),
        DisplayLine::Restricted(Some(SensorData::Temperature(-35)))
    );
}

#[test]
fn display_when_unlocked_follows_the_cursor() {
    let mut state = DisplayState::new();
    state.on_tick(RtcEvent::Tick(0, 1, 0));
    state.on_button(ButtonEvent::DoublePress);
    assert_eq!(state.display_line(), DisplayLine::FullAccess(SensorKind::Temperature, None));
    state.on_sensor(SensorData::Pressure(100_125));
    state.on_sensor(SensorData::Light(false));
    state.on_button(ButtonEvent::ShortPress);
    assert_eq!(state.display_line(), DisplayLine::FullAccess(SensorKind::Moisture, None));
    state.on_button(ButtonEvent::ShortPress);
    assert_eq!(
        state.display_line(),
        DisplayLine::FullAccess(SensorKind::Light, Some(SensorData::Light(false)))
    );
    state.on_button(ButtonEvent::ShortPress);
    assert_eq!(
        state.display_line(),
        DisplayLine::FullAccess(SensorKind::Pressure, Some(SensorData::Pressure(100_125)))
    );
}

#[test]
fn display_during_setup_shows_the_selected_field() {
    let mut state = DisplayState::new();
    state.on_tick(RtcEvent::Tick(0, 1, 0));
    state.on_button(ButtonEvent::DoublePress);
    state.on_button(ButtonEvent::LongPress);
    assert_eq!(state.display_line(), DisplayLine::SetupSelected(TimeField::Hours));
    state.on_button(ButtonEvent::LongPress);
    assert_eq!(state.display_line(), DisplayLine::SetupSelected(TimeField::Minutes));
    state.on_button(ButtonEvent::LongPress);
    assert_eq!(state.display_line(), DisplayLine::SetupSelected(TimeField::Seconds));
    // a double press works during setup too
    assert_eq!(state.on_button(ButtonEvent::DoublePress), ButtonOutcome::ExitedFullAccess);
    assert_eq!(state.display_line(), DisplayLine::SetupSelected(TimeField::Seconds));
}

#[test]
fn latest_value_wins() {
    let mut cache = LatestData::new();
    assert_eq!(cache.get(SensorKind::Temperature), None);
    cache.insert(SensorData::Temperature(201));
    cache.insert(SensorData::Moisture(555));
    cache.insert(SensorData::Temperature(202));
    assert_eq!(cache.get(SensorKind::Temperature), Some(SensorData::Temperature(202)));
    assert_eq!(cache.get(SensorKind::Moisture), Some(SensorData::Moisture(555)));
    assert_eq!(cache.get(SensorKind::Light), None);
    assert_eq!(cache.get(SensorKind::Pressure), None);
}

#[test]
fn sample_kinds() {
    assert_eq!(SensorData::Temperature(0).kind(), SensorKind::Temperature);
    assert_eq!(SensorData::Moisture(0).kind(), SensorKind::Moisture);
    assert_eq!(SensorData::Light(true).kind(), SensorKind::Light);
    assert_eq!(SensorData::Pressure(0).kind(), SensorKind::Pressure);
    assert_eq!(SensorKind::Temperature.next(), SensorKind::Moisture);
    assert_eq!(SensorKind::Moisture.next(), SensorKind::Light);
    assert_eq!(SensorKind::Light.next(), SensorKind::Pressure);
    assert_eq!(SensorKind::Pressure.next(), SensorKind::Temperature);
}

#[test]
fn sensor_cycle_with_a_climate_reading() {
    let climate = Climate { temperature: 231, humidity: 402, pressure: 100_118 };
    assert_eq!(
        sensor_cycle(Some(climate), true),
        vec![
            SensorData::Temperature(231),
            SensorData::Moisture(402),
            SensorData::Pressure(100_118),
            SensorData::Light(true),
        ]
    );
}

#[test]
fn sensor_cycle_after_a_failed_reading_still_has_light() {
    assert_eq!(sensor_cycle(None, false), vec![SensorData::Light(false)]);
    assert_eq!(sensor_cycle(None, true), vec![SensorData::Light(true)]);
}

#[test]
fn failed_reading_keeps_the_cached_values() {
    let mut state = DisplayState::new();
    let climate = Climate { temperature: 231, humidity: 402, pressure: 100_118 };
    state.display_cycle(&vec![], &vec![], &sensor_cycle(Some(climate), true));
    state.display_cycle(&vec![], &vec![], &sensor_cycle(None, false));
    assert_eq!(
        state.latest_data,
        LatestData {
            temperature: Some(231),
            moisture: Some(402),
            light: Some(false),
            pressure: Some(100_118),
        }
    );
}

/// Feeds looks at the button, as (time, level) pairs, through the classifier
/// and collects the gestures with the times at which they were emitted.
fn classify(looks: &[(u64, bool)]) -> Vec<(u64, ButtonEvent)> {
    let mut state = ClassifierState::Idle;
    let mut out = Vec::new();
    for (now, pressed) in looks {
        let step = classifier_step(state, *now, *pressed);
        state = step.state;
        if let Some(event) = step.event {
            out.push((*now, event));
        }
    }
    out
}

#[test]
fn classifier_long_press_of_2500_ms() {
    let looks = [(0, false), (100, true), (1000, true), (2599, true), (2600, false)];
    assert_eq!(classify(&looks), vec![(2600, ButtonEvent::LongPress)]);
}

#[test]
fn classifier_short_press_of_150_ms() {
    let looks = [(100, true), (250, false), (300, false), (549, false), (550, false)];
    assert_eq!(classify(&looks), vec![(550, ButtonEvent::ShortPress)]);
}

#[test]
fn classifier_double_press_of_150_ms() {
    let looks = [(100, true), (250, false), (400, true), (5000, true), (5001, false)];
    assert_eq!(classify(&looks), vec![(5001, ButtonEvent::DoublePress)]);
}

#[test]
fn classifier_press_at_the_end_of_the_window_comes_too_late() {
    let looks = [(100, true), (250, false), (549, false), (550, true), (551, true)];
    assert_eq!(classify(&looks), vec![(550, ButtonEvent::ShortPress)]);
}

#[test]
fn classifier_press_too_short_to_time_is_short_at_once() {
    let looks = [(100, true), (100, false)];
    assert_eq!(classify(&looks), vec![(100, ButtonEvent::ShortPress)]);
}

#[test]
fn classifier_steps_one_by_one() {
    let idle = ClassifierState::Idle;
    assert_eq!(
        classifier_step(idle, 7, false),
        ClassifierStep { state: idle, event: None, wait: Wait::Sleep(100) }
    );
    let pressed = ClassifierState::Pressed { since: 7 };
    assert_eq!(
        classifier_step(idle, 7, true),
        ClassifierStep { state: pressed, event: None, wait: Wait::Poll }
    );
    assert_eq!(
        classifier_step(pressed, 900, true),
        ClassifierStep { state: pressed, event: None, wait: Wait::Poll }
    );
    let window = ClassifierState::Window { duration: 1999, opened: 2006 };
    assert_eq!(
        classifier_step(pressed, 2006, false),
        ClassifierStep { state: window, event: None, wait: Wait::Poll }
    );
    assert_eq!(
        classifier_step(pressed, 2007, false),
        ClassifierStep {
            state: ClassifierState::Cooldown { since: 2007 },
            event: Some(ButtonEvent::LongPress),
            wait: Wait::Sleep(300),
        }
    );
    assert_eq!(
        classifier_step(window, 2305, false),
        ClassifierStep { state: window, event: None, wait: Wait::Poll }
    );
    let second = ClassifierState::SecondPress { duration: 1999 };
    assert_eq!(
        classifier_step(window, 2305, true),
        ClassifierStep { state: second, event: None, wait: Wait::Poll }
    );
    assert_eq!(
        classifier_step(window, 2306, true),
        ClassifierStep {
            state: ClassifierState::Cooldown { since: 2306 },
            event: Some(ButtonEvent::ShortPress),
            wait: Wait::Sleep(300),
        }
    );
    assert_eq!(
        classifier_step(second, 9000, false),
        ClassifierStep {
            state: ClassifierState::Cooldown { since: 9000 },
            event: Some(ButtonEvent::DoublePress),
            wait: Wait::Sleep(300),
        }
    );
}

#[test]
fn classifier_ignores_the_button_during_cooldown() {
    let cooling = ClassifierState::Cooldown { since: 1000 };
    assert_eq!(
        classifier_step(cooling, 1000, true),
        ClassifierStep { state: cooling, event: None, wait: Wait::Sleep(400) }
    );
    assert_eq!(
        classifier_step(cooling, 1300, true),
        ClassifierStep { state: cooling, event: None, wait: Wait::Sleep(100) }
    );
    assert_eq!(
        classifier_step(cooling, 1399, true),
        ClassifierStep { state: cooling, event: None, wait: Wait::Sleep(1) }
    );
    assert_eq!(
        classifier_step(cooling, 1400, true),
        ClassifierStep {
            state: ClassifierState::Pressed { since: 1400 },
            event: None,
            wait: Wait::Poll,
        }
    );
    assert_eq!(
        classifier_step(cooling, 1400, false),
        ClassifierStep { state: ClassifierState::Idle, event: None, wait: Wait::Sleep(100) }
    );
}

#[test]
fn classifier_gestures_drive_the_state_machine() {
    let looks = [
        (100, true),
        (250, false),
        (560, false),
        (1000, true),
        (3200, false),
        (4000, true),
        (4100, false),
        (4200, true),
        (4300, false),
    ];
    let gestures: Vec<ButtonEvent> = classify(&looks).into_iter().map(|(_, e)| e).collect();
    assert_eq!(
        gestures,
        vec![ButtonEvent::ShortPress, ButtonEvent::LongPress, ButtonEvent::DoublePress]
    );
    let mut state = DisplayState::new();
    state.on_tick(RtcEvent::Tick(9, 41, 7));
    let outcomes: Vec<ButtonOutcome> = gestures.iter().map(|g| state.on_button(*g)).collect();
    assert_eq!(
        outcomes,
        vec![
            ButtonOutcome::CursorAdvanced,
            ButtonOutcome::EnteredSetup,
            ButtonOutcome::EnteredFullAccess,
        ]
    );
}

#[test]
fn elapsed_counts_up_to_what_fits() {
    assert_eq!(elapsed(10, 10), 0);
    assert_eq!(elapsed(10, 9), 0);
    assert_eq!(elapsed(10, 2010), 2000);
    assert_eq!(elapsed(0, u32::MAX as u64), u32::MAX);
    assert_eq!(elapsed(0, u32::MAX as u64 + 1), u32::MAX);
    assert_eq!(elapsed(0, u64::MAX), u32::MAX);
}

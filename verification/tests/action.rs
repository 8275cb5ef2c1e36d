use sleepmode::action::{SleepModeAction, UUID};
use sleepmode::clock::{Moment, WallClock};
use sleepmode::settings::SleepSettings;
use sleepmode::state::{Effect, Phase, SleepState};

const NOON: WallClock = WallClock { hour: 12, minute: 0 };
const NIGHT: WallClock = WallClock { hour: 23, minute: 0 };

fn secs(s: u64) -> Moment {
    Moment { nanos: s * 1_000_000_000 }
}

fn press_effects(brightness: u8, enabled: bool) -> Vec<Effect> {
    vec![
        Effect::Brightness(brightness),
        Effect::Button { phase: Phase::Awake, enabled },
        Effect::Report { phase: Phase::Awake, enabled },
    ]
}

#[test]
fn identifier() {
    assert_eq!(UUID, "com.rainer.sleepmode.toggle");
}

#[test]
fn button_appears() {
    let mut state = SleepState::new(secs(0));
    state.phase = Phase::Dim;
    let settings = SleepSettings { dim_brightness: 10, ..SleepSettings::default() };
    let effects = SleepModeAction.will_appear(&mut state, "abc".to_string(), &settings);
    assert_eq!(state.context, "abc");
    assert_eq!(state.settings, settings);
    assert_eq!(state.phase, Phase::Dim);
    assert_eq!(
        effects,
        vec![
            Effect::Button { phase: Phase::Dim, enabled: true },
            Effect::Report { phase: Phase::Dim, enabled: true },
        ]
    );
}

#[test]
fn inspector_appears() {
    let mut state = SleepState::new(secs(0));
    state.enabled = false;
    let effects =
        SleepModeAction.property_inspector_did_appear(&mut state, "xyz".to_string());
    assert_eq!(state.context, "xyz");
    assert_eq!(effects, vec![Effect::Report { phase: Phase::Awake, enabled: false }]);
}

#[test]
fn new_settings_while_enabled() {
    let mut state = SleepState::new(secs(0));
    state.phase = Phase::Dim;
    state.last_brightness = 20;
    let settings = SleepSettings { dim_brightness: 11, ..SleepSettings::default() };
    let effects = SleepModeAction.did_receive_settings_at(&mut state, &settings, &NOON);
    assert_eq!(state.settings, settings);
    assert_eq!(state.last_brightness, 255);
    assert_eq!(state.phase, Phase::Dim);
    let expected = vec![
        Effect::Brightness(11),
        Effect::RecordBrightness(11),
        Effect::Report { phase: Phase::Dim, enabled: true },
    ];
    assert_eq!(effects, expected);
    assert_eq!(SleepModeAction.did_receive_settings(&mut state, &settings), expected);
}

#[test]
fn new_settings_while_off() {
    let mut state = SleepState::new(secs(0));
    state.phase = Phase::Off;
    let effects = SleepModeAction.did_receive_settings_at(
        &mut state,
        &SleepSettings::default(),
        &NOON,
    );
    assert_eq!(effects[0], Effect::Brightness(0));
}

#[test]
fn new_settings_while_disabled() {
    let mut state = SleepState::new(secs(0));
    state.enabled = false;
    state.last_brightness = 70;
    let settings = SleepSettings { normal_brightness: 50, ..SleepSettings::default() };
    let expected = vec![Effect::Report { phase: Phase::Awake, enabled: false }];
    let effects = SleepModeAction.did_receive_settings_at(&mut state, &settings, &NOON);
    assert_eq!(effects, expected);
    assert_eq!(state.settings, settings);
    assert_eq!(state.last_brightness, 255);
    assert_eq!(SleepModeAction.did_receive_settings(&mut state, &settings), expected);
}

#[test]
fn settings_are_applied_again_by_the_next_tick() {
    let mut state = SleepState::new(secs(0));
    state.last_brightness = 70;
    let settings = SleepSettings::default();
    assert_eq!(state.observe_at(&secs(1), &NOON).decide(), None);
    SleepModeAction.did_receive_settings_at(&mut state, &settings, &NOON);
    assert!(state.observe_at(&secs(1), &NOON).decide().is_some());
    state.record_brightness(70);
    assert_eq!(state.observe_at(&secs(1), &NOON).decide(), None);
}

#[test]
fn press_wakes_a_deck_that_sleeps() {
    for phase in [Phase::Dim, Phase::Off] {
        let mut state = SleepState::new(secs(0));
        state.phase = phase;
        let settings = SleepSettings::default();
        let effects = SleepModeAction.key_up_at(&mut state, &settings, secs(500), &NOON);
        assert!(state.enabled);
        assert_eq!(state.phase, Phase::Awake);
        assert_eq!(state.last_activity, secs(500));
        assert_eq!(state.last_brightness, 70);
        assert_eq!(effects, press_effects(70, true));
        assert_eq!(state.observe_at(&secs(559), &NOON).decide(), None);
        assert!(state.observe_at(&secs(560), &NOON).decide().is_some());
    }
}

#[test]
fn press_disables_a_deck_that_is_awake() {
    let mut state = SleepState::new(secs(0));
    let settings = SleepSettings::default();
    let effects = SleepModeAction.key_up_at(&mut state, &settings, secs(5), &NOON);
    assert!(!state.enabled);
    assert_eq!(state.phase, Phase::Awake);
    assert_eq!(state.last_activity, secs(0));
    assert_eq!(state.last_brightness, 70);
    assert_eq!(effects, press_effects(70, false));
}

#[test]
fn press_enables_again() {
    let mut state = SleepState::new(secs(0));
    let settings = SleepSettings::default();
    SleepModeAction.key_up_at(&mut state, &settings, secs(5), &NOON);
    let effects = SleepModeAction.key_up_at(&mut state, &settings, secs(9), &NOON);
    assert!(state.enabled);
    assert_eq!(state.last_activity, secs(9));
    assert_eq!(effects, press_effects(70, true));
}

#[test]
fn press_at_night() {
    let mut state = SleepState::new(secs(0));
    state.phase = Phase::Off;
    let settings = SleepSettings { night_enabled: true, ..SleepSettings::default() };
    let effects = SleepModeAction.key_up_at(&mut state, &settings, secs(5), &NIGHT);
    assert_eq!(state.settings, settings);
    assert_eq!(state.last_brightness, 30);
    assert_eq!(effects, press_effects(30, true));
}

#[test]
fn press_by_the_local_clock() {
    let mut state = SleepState::new(secs(0));
    let settings = SleepSettings::default();
    assert_eq!(
        SleepModeAction.key_up(&mut state, &settings, secs(5)),
        press_effects(70, false)
    );
    assert!(!state.enabled);
    let all_day = SleepSettings {
        night_enabled: true,
        night_start_hour: 0,
        night_end_hour: 24,
        ..settings
    };
    assert_eq!(SleepModeAction.key_up(&mut state, &all_day, secs(6)), press_effects(30, true));
    assert!(state.enabled);
}

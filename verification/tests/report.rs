use serde_json::Value;
use sleepmode::clock::{Moment, WallClock};
use sleepmode::report::VERSION;
use sleepmode::settings::{effective_at, EffSettings, SleepSettings};
use sleepmode::state::{Observation, Phase, SleepState};

const NOON: WallClock = WallClock { hour: 12, minute: 0 };

fn secs(s: u64) -> Moment {
    Moment { nanos: s * 1_000_000_000 }
}

fn seen(phase: Phase, enabled: bool, elapsed: u64, eff: EffSettings) -> Observation {
    Observation { phase, enabled, elapsed, eff, last_brightness: 70 }
}

fn eff() -> EffSettings {
    effective_at(&SleepSettings::default(), &NOON)
}

fn shown() -> SleepState {
    let mut state = SleepState::new(secs(0));
    state.context = "button \"1\"".to_string();
    state
}

fn members(value: &Value) -> usize {
    value.as_object().unwrap().len()
}

#[test]
fn version_shown() {
    assert_eq!(VERSION, "1.4.0");
}

#[test]
fn status_of_a_deck_that_is_awake() {
    assert_eq!(
        seen(Phase::Awake, true, 5, eff()).status_text(),
        "Sleep Mode: ON  |  Phase: Awake  |  Idle: 5s\nDim in: 55s  |  Off in: 2m 55s  |  v1.4.0\n"
    );
}

#[test]
fn status_of_a_dimmed_deck_at_night() {
    let eff = EffSettings { is_night: true, ..eff() };
    assert_eq!(
        seen(Phase::Dim, true, 65, eff).status_text(),
        "Sleep Mode: ON [Night]  |  Phase: Dimmed  |  Idle: 1m 05s\n\
         Dim in: 0s  |  Off in: 1m 55s  |  v1.4.0\n"
    );
}

#[test]
fn status_of_a_disabled_deck() {
    assert_eq!(
        seen(Phase::Off, false, 3600, eff()).status_text(),
        "Sleep Mode: OFF  |  Phase: Off  |  Idle: 60m 00s\nDim in: 0s  |  Off in: 0s  |  v1.4.0\n"
    );
}

#[test]
fn status_without_switching_off() {
    let eff = EffSettings { no_off: true, ..eff() };
    assert_eq!(
        seen(Phase::Awake, true, 0, eff).status_text(),
        "Sleep Mode: ON  |  Phase: Awake  |  Idle: 0s\nDim in: 1m 00s  |  Off in: –  |  v1.4.0\n"
    );
}

#[test]
fn no_button_no_messages() {
    let state = SleepState::new(secs(0));
    assert!(state.button_messages(&Phase::Awake, true).is_empty());
    assert!(state.inspector_message_at(&Phase::Awake, true, &secs(0), &NOON).is_none());
    assert!(state.inspector_message(&Phase::Awake, true, &secs(0)).is_none());
}

#[test]
fn messages_for_the_button() {
    for (phase, enabled, title, image) in [
        (Phase::Awake, true, "Active", 0),
        (Phase::Dim, true, "Dim", 1),
        (Phase::Off, true, "Off", 2),
        (Phase::Awake, false, "Inactive", 0),
        (Phase::Dim, false, "Inactive", 0),
        (Phase::Off, false, "Inactive", 0),
    ] {
        let messages = shown().button_messages(&phase, enabled);
        assert_eq!(messages.len(), 2);
        assert_eq!(members(&messages[0]), 3);
        assert_eq!(messages[0]["event"], "setTitle");
        assert_eq!(messages[0]["context"], "button \"1\"");
        assert_eq!(members(&messages[0]["payload"]), 2);
        assert_eq!(messages[0]["payload"]["title"], title);
        assert_eq!(messages[0]["payload"]["target"], 0);
        assert_eq!(members(&messages[1]), 3);
        assert_eq!(messages[1]["event"], "setState");
        assert_eq!(messages[1]["context"], "button \"1\"");
        assert_eq!(members(&messages[1]["payload"]), 1);
        assert_eq!(messages[1]["payload"]["state"], image);
    }
}

#[test]
fn message_for_the_inspector() {
    let message = shown().inspector_message_at(&Phase::Awake, true, &secs(5), &NOON).unwrap();
    assert_eq!(members(&message), 4);
    assert_eq!(message["event"], "sendToPropertyInspector");
    assert_eq!(message["context"], "button \"1\"");
    assert_eq!(message["action"], "com.rainer.sleepmode.toggle");
    let payload = &message["payload"];
    assert_eq!(members(payload), 5);
    assert_eq!(payload["status"], "Active");
    assert_eq!(payload["until_dim"], "55s");
    assert_eq!(payload["until_off"], "2m 55s");
    assert_eq!(payload["night_active"], false);
    assert_eq!(payload["version"], "1.4.0");
    let now = shown().inspector_message(&Phase::Awake, true, &secs(5)).unwrap();
    assert_eq!(now, message);
}

#[test]
fn inspector_status_by_phase() {
    for (phase, enabled, status) in [
        (Phase::Awake, true, "Active"),
        (Phase::Dim, true, "Dimmed"),
        (Phase::Off, true, "Display off"),
        (Phase::Awake, false, "Disabled"),
        (Phase::Off, false, "Disabled"),
    ] {
        let message = shown().inspector_message_at(&phase, enabled, &secs(0), &NOON).unwrap();
        assert_eq!(message["payload"]["status"], status);
    }
}

#[test]
fn inspector_countdowns() {
    let until = |state: &SleepState, enabled: bool, at: u64| {
        let message =
            state.inspector_message_at(&Phase::Awake, enabled, &secs(at), &NOON).unwrap();
        (
            message["payload"]["until_dim"].as_str().unwrap().to_string(),
            message["payload"]["until_off"].as_str().unwrap().to_string(),
        )
    };
    let pair = |a: &str, b: &str| (a.to_string(), b.to_string());
    let mut state = shown();
    assert_eq!(until(&state, true, 59), pair("1s", "2m 01s"));
    assert_eq!(until(&state, true, 60), pair("–", "2m 00s"));
    assert_eq!(until(&state, true, 179), pair("–", "1s"));
    assert_eq!(until(&state, true, 180), pair("–", "–"));
    assert_eq!(until(&state, false, 0), pair("–", "–"));
    state.settings.no_off = true;
    assert_eq!(until(&state, true, 0), pair("1m 00s", "–"));
}

#[test]
fn inspector_at_night() {
    let mut state = shown();
    state.settings.night_enabled = true;
    let night = WallClock { hour: 2, minute: 30 };
    let message = state.inspector_message_at(&Phase::Awake, true, &secs(10), &night).unwrap();
    assert_eq!(message["payload"]["night_active"], true);
    assert_eq!(message["payload"]["until_dim"], "20s");
    assert_eq!(message["payload"]["until_off"], "1m 20s");
}

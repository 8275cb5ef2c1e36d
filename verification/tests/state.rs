use sleepmode::clock::{Moment, WallClock};
use sleepmode::settings::{effective_at, EffSettings, SleepSettings};
use sleepmode::state::{Effect, Observation, Phase, SleepState, Transition, UNAPPLIED};

const NOON: WallClock = WallClock { hour: 12, minute: 0 };
const NIGHT: WallClock = WallClock { hour: 23, minute: 0 };

fn secs(s: u64) -> Moment {
    Moment { nanos: s * 1_000_000_000 }
}

fn eff() -> EffSettings {
    effective_at(&SleepSettings::default(), &NOON)
}

fn seen(phase: Phase, elapsed: u64, last_brightness: u8) -> Observation {
    Observation { phase, enabled: true, elapsed, eff: eff(), last_brightness }
}

#[test]
fn phases_by_idle_time() {
    assert_eq!(eff().target_phase(0), Phase::Awake);
    assert_eq!(eff().target_phase(59), Phase::Awake);
    assert_eq!(eff().target_phase(60), Phase::Dim);
    assert_eq!(eff().target_phase(179), Phase::Dim);
    assert_eq!(eff().target_phase(180), Phase::Off);
    assert_eq!(eff().target_phase(u64::MAX), Phase::Off);
}

#[test]
fn no_off_stays_dim() {
    let eff = EffSettings { no_off: true, ..eff() };
    assert_eq!(eff.target_phase(180), Phase::Dim);
    assert_eq!(eff.target_phase(u64::MAX), Phase::Dim);
}

#[test]
fn brightness_by_phase() {
    assert_eq!(eff().brightness_for(&Phase::Awake), 70);
    assert_eq!(eff().brightness_for(&Phase::Dim), 20);
    assert_eq!(eff().brightness_for(&Phase::Off), 0);
}

#[test]
fn initial_state() {
    let state = SleepState::new(secs(5));
    assert_eq!(state.last_activity, secs(5));
    assert_eq!(state.phase, Phase::Awake);
    assert_eq!(state.settings, SleepSettings::default());
    assert!(!state.timer_started);
    assert!(state.enabled);
    assert_eq!(state.context, "");
    assert_eq!(state.last_brightness, 255);
}

#[test]
fn timer_is_claimed_once() {
    let mut state = SleepState::new(secs(0));
    assert!(state.claim_timer());
    assert!(state.timer_started);
    assert!(!state.claim_timer());
    assert!(state.timer_started);
}

#[test]
fn observation_of_a_state() {
    let mut state = SleepState::new(secs(10));
    state.phase = Phase::Dim;
    state.last_brightness = 20;
    let seen = state.observe_at(&secs(75), &NOON);
    assert_eq!(
        seen,
        Observation {
            phase: Phase::Dim,
            enabled: true,
            elapsed: 65,
            eff: eff(),
            last_brightness: 20,
        }
    );
    assert_eq!(state.observe(&secs(75)), seen);
}

#[test]
fn tick_goes_to_the_phase_that_is_due() {
    assert_eq!(seen(Phase::Awake, 59, 70).decide(), None);
    assert_eq!(
        seen(Phase::Awake, 60, 70).decide(),
        Some(Transition { phase: Phase::Dim, brightness: 20 })
    );
    assert_eq!(seen(Phase::Dim, 61, 20).decide(), None);
    assert_eq!(
        seen(Phase::Dim, 180, 20).decide(),
        Some(Transition { phase: Phase::Off, brightness: 0 })
    );
    assert_eq!(
        seen(Phase::Off, 0, 0).decide(),
        Some(Transition { phase: Phase::Awake, brightness: 70 })
    );
}

#[test]
fn disabled_mode_does_not_decide() {
    let seen = Observation { enabled: false, ..seen(Phase::Awake, 1000, 70) };
    assert_eq!(seen.decide(), None);
    assert_eq!(
        seen.effects(),
        vec![
            Effect::WriteStatus(seen),
            Effect::Report { phase: Phase::Awake, enabled: false },
        ]
    );
}

#[test]
fn effects_of_a_tick_that_dims() {
    let seen = seen(Phase::Awake, 60, 70);
    assert_eq!(
        seen.effects(),
        vec![
            Effect::WriteStatus(seen),
            Effect::Report { phase: Phase::Awake, enabled: true },
            Effect::Commit(Transition { phase: Phase::Dim, brightness: 20 }),
            Effect::Brightness(20),
            Effect::Button { phase: Phase::Dim, enabled: true },
        ]
    );
}

#[test]
fn effects_of_a_tick_that_switches_off() {
    let seen = seen(Phase::Dim, 180, 20);
    assert_eq!(
        seen.effects(),
        vec![
            Effect::WriteStatus(seen),
            Effect::Report { phase: Phase::Dim, enabled: true },
            Effect::Commit(Transition { phase: Phase::Off, brightness: 0 }),
            Effect::HidSleep,
            Effect::Button { phase: Phase::Off, enabled: true },
        ]
    );
}

#[test]
fn effects_of_a_tick_without_change() {
    let seen = seen(Phase::Awake, 10, 70);
    assert_eq!(
        seen.effects(),
        vec![Effect::WriteStatus(seen), Effect::Report { phase: Phase::Awake, enabled: true }]
    );
}

#[test]
fn commit_takes_the_transition() {
    let mut state = SleepState::new(secs(0));
    state.context = "button".to_string();
    state.commit(&Transition { phase: Phase::Dim, brightness: 20 });
    assert_eq!(state.phase, Phase::Dim);
    assert_eq!(state.last_brightness, 20);
    assert_eq!(state.last_activity, secs(0));
    assert_eq!(state.context, "button");
    assert!(state.enabled);
}

#[test]
fn second_tick_finds_nothing_to_do() {
    let mut state = SleepState::new(secs(0));
    let transition = state.observe_at(&secs(60), &NOON).decide().unwrap();
    state.commit(&transition);
    assert_eq!(state.observe_at(&secs(60), &NOON).decide(), None);
}

#[test]
fn first_tick_applies_a_brightness() {
    let state = SleepState::new(secs(0));
    assert_eq!(
        state.observe_at(&secs(0), &NOON).decide(),
        Some(Transition { phase: Phase::Awake, brightness: 70 })
    );
}

#[test]
fn brightness_that_stands_for_none_is_not_applied() {
    let mut state = SleepState::new(secs(0));
    state.settings.normal_brightness = UNAPPLIED;
    assert_eq!(state.observe_at(&secs(0), &NOON).decide(), None);
}

#[test]
fn nightfall_changes_the_brightness() {
    let mut state = SleepState::new(secs(0));
    state.settings.night_enabled = true;
    state.last_brightness = 70;
    assert_eq!(state.observe_at(&secs(1), &NOON).decide(), None);
    assert_eq!(
        state.observe_at(&secs(1), &NIGHT).decide(),
        Some(Transition { phase: Phase::Awake, brightness: 30 })
    );
}

#[test]
fn sleep_deepens_with_idle_time() {
    let depth = |phase: Phase| match phase {
        Phase::Awake => 0,
        Phase::Dim => 1,
        Phase::Off => 2,
    };
    for idle in 0..300 {
        assert!(depth(eff().target_phase(idle)) <= depth(eff().target_phase(idle + 1)));
    }
}

#[test]
fn recorded_brightness() {
    let mut state = SleepState::new(secs(0));
    state.record_brightness(33);
    assert_eq!(state.last_brightness, 33);
    assert_eq!(state.phase, Phase::Awake);
}

#[test]
fn press_on_the_deck_ends_the_idle_time() {
    let mut state = SleepState::new(secs(0));
    assert!(state.deck_read(Some(12), secs(50)));
    assert_eq!(state.last_activity, secs(50));
    assert_eq!(state.observe_at(&secs(109), &NOON).elapsed, 59);
}

#[test]
fn empty_read_is_no_activity() {
    let mut state = SleepState::new(secs(0));
    assert!(state.deck_read(Some(0), secs(50)));
    assert_eq!(state.last_activity, secs(0));
}

#[test]
fn failed_read_ends_the_watch() {
    let mut state = SleepState::new(secs(0));
    assert!(!state.deck_read(None, secs(50)));
    assert_eq!(state.last_activity, secs(0));
}

#[test]
fn activity_does_not_count_while_disabled() {
    let mut state = SleepState::new(secs(0));
    state.enabled = false;
    assert!(state.deck_read(Some(12), secs(50)));
    assert_eq!(state.last_activity, secs(0));
}

//! The events of the button.
use vstd::prelude::*;

use crate::clock::{shown, Moment, WallClock};
use crate::settings::{effective, effective_at, EffSettings, SleepSettings};
use crate::state::{Effect, Phase, SleepState, UNAPPLIED};

verus! {

/// The button that controls the sleep mode. Each of its events changes the
/// state and returns what is to be carried out, in order.
pub struct SleepModeAction;

/// The identifier under which the button is registered.
pub const UUID: &'static str = "com.rainer.sleepmode.toggle";

/// The state after the button appeared as the instance `instance_id`.
pub open spec fn appeared(
    state: SleepState,
    instance_id: String,
    settings: SleepSettings,
) -> SleepState {
    SleepState { context: instance_id, settings, ..state }
}

/// The state after the settings changed: no brightness has been applied yet.
pub open spec fn resettled(state: SleepState, settings: SleepSettings) -> SleepState {
    SleepState { settings, last_brightness: UNAPPLIED, ..state }
}

/// The state after the property inspector appeared for the instance
/// `instance_id`.
pub open spec fn inspected(state: SleepState, instance_id: String) -> SleepState {
    SleepState { context: instance_id, ..state }
}

/// The state after the button was pressed at the moment `at`.
pub open spec fn pressed(
    state: SleepState,
    settings: SleepSettings,
    at: Moment,
    normal_br: u8,
) -> SleepState {
    if state.enabled && state.phase == Phase::Awake {
        SleepState { settings, enabled: false, last_brightness: normal_br, ..state }
    } else {
        SleepState {
            settings,
            enabled: true,
            last_activity: at,
            phase: Phase::Awake,
            last_brightness: normal_br,
            ..state
        }
    }
}

/// What a press of the button carries out, where `enabled` tells whether the
/// sleep mode is enabled after it.
pub open spec fn press_effects(enabled: bool, normal_br: u8) -> Seq<Effect> {
    seq![
        Effect::Brightness(normal_br),
        Effect::Button { phase: Phase::Awake, enabled },
        Effect::Report { phase: Phase::Awake, enabled },
    ]
}

/// What new settings carry out: while the sleep mode is enabled, the
/// brightness of the present phase is applied and noted.
pub open spec fn settings_effects(phase: Phase, enabled: bool, eff: EffSettings) -> Seq<Effect> {
    if enabled {
        seq![
            Effect::Brightness(eff.brightness_in(phase)),
            Effect::RecordBrightness(eff.brightness_in(phase)),
            Effect::Report { phase, enabled },
        ]
    } else {
        seq![Effect::Report { phase, enabled }]
    }
}

/// What new settings carry out, with the values `eff` in force.
fn enabled_settings_effects(phase: Phase, eff: &EffSettings) -> (effects: Vec<Effect>)
    ensures
        effects@ == settings_effects(phase, true, *eff),
{
    let br: u8 = eff.brightness_for(&phase);
    vec![
        Effect::Brightness(br),
        Effect::RecordBrightness(br),
        Effect::Report { phase, enabled: true },
    ]
}

/// A press of the button at the moment `at`, with `normal_br` the brightness
/// in force for a deck that is awake.
fn press(state: &mut SleepState, settings: &SleepSettings, at: Moment, normal_br: u8) -> (effects:
    Vec<Effect>)
    ensures
        *final(state) == pressed(*old(state), *settings, at, normal_br),
        effects@ == press_effects(final(state).enabled, normal_br),
{
    state.settings = *settings;
    if state.enabled && state.phase != Phase::Awake {
        state.last_activity = at;
        state.phase = Phase::Awake;
    } else {
        state.enabled = !state.enabled;
        if state.enabled {
            state.last_activity = at;
            state.phase = Phase::Awake;
        }
    }
    state.last_brightness = normal_br;
    vec![
        Effect::Brightness(normal_br),
        Effect::Button { phase: Phase::Awake, enabled: state.enabled },
        Effect::Report { phase: Phase::Awake, enabled: state.enabled },
    ]
}

impl SleepModeAction {
    /// The button appears, as the instance `instance_id`.
    pub fn will_appear(
        &self,
        state: &mut SleepState,
        instance_id: String,
        settings: &SleepSettings,
    ) -> (effects: Vec<Effect>)
        ensures
            *final(state) == appeared(*old(state), instance_id, *settings),
            effects@ == seq![
                Effect::Button { phase: old(state).phase, enabled: old(state).enabled },
                Effect::Report { phase: old(state).phase, enabled: old(state).enabled },
            ],
    {
        state.context = instance_id;
        state.settings = *settings;
        vec![
            Effect::Button { phase: state.phase, enabled: state.enabled },
            Effect::Report { phase: state.phase, enabled: state.enabled },
        ]
    }

    /// The settings have changed, at the time of day `now`.
    pub fn did_receive_settings_at(
        &self,
        state: &mut SleepState,
        settings: &SleepSettings,
        now: &WallClock,
    ) -> (effects: Vec<Effect>)
        requires
            now.wf(),
            old(state).enabled ==> settings.fits_at(*now),
        ensures
            *final(state) == resettled(*old(state), *settings),
            effects@ == settings_effects(
                old(state).phase,
                old(state).enabled,
                settings.values_at(*now),
            ),
    {
        state.settings = *settings;
        state.last_brightness = UNAPPLIED;
        if state.enabled {
            enabled_settings_effects(state.phase, &effective_at(settings, now))
        } else {
            vec![Effect::Report { phase: state.phase, enabled: false }]
        }
    }

    /// The settings have changed; the local clock tells which of them are in
    /// force.
    pub fn did_receive_settings(&self, state: &mut SleepState, settings: &SleepSettings) -> (effects:
        Vec<Effect>)
        requires
            old(state).enabled ==> settings.fits(),
        ensures
            *final(state) == resettled(*old(state), *settings),
            exists|now: WallClock| #[trigger]
                now.wf() && effects@ == settings_effects(
                    old(state).phase,
                    old(state).enabled,
                    settings.values_at(now),
                ),
            old(state).enabled && settings.night_enabled ==> exists|now: WallClock| #[trigger]
                shown(now) && now.wf() && effects@ == settings_effects(
                    old(state).phase,
                    true,
                    settings.values_at(now),
                ),
    {
        state.settings = *settings;
        state.last_brightness = UNAPPLIED;
        if state.enabled {
            enabled_settings_effects(state.phase, &effective(settings))
        } else {
            proof {
                let midnight = WallClock { hour: 0, minute: 0 };
                assert(midnight.wf());
            }
            vec![Effect::Report { phase: state.phase, enabled: false }]
        }
    }

    /// The property inspector appears, for the instance `instance_id`.
    pub fn property_inspector_did_appear(&self, state: &mut SleepState, instance_id: String) -> (effects:
        Vec<Effect>)
        ensures
            *final(state) == inspected(*old(state), instance_id),
            effects@ == seq![
                Effect::Report { phase: old(state).phase, enabled: old(state).enabled },
            ],
    {
        state.context = instance_id;
        vec![Effect::Report { phase: state.phase, enabled: state.enabled }]
    }

    /// The button is pressed at the moment `at` and the time of day `now`. A
    /// deck that sleeps is woken; otherwise the sleep mode is switched on or
    /// off.
    pub fn key_up_at(
        &self,
        state: &mut SleepState,
        settings: &SleepSettings,
        at: Moment,
        now: &WallClock,
    ) -> (effects: Vec<Effect>)
        requires
            now.wf(),
            settings.fits_at(*now),
        ensures
            *final(state) == pressed(
                *old(state),
                *settings,
                at,
                settings.values_at(*now).normal_br,
            ),
            effects@ == press_effects(final(state).enabled, settings.values_at(*now).normal_br),
    {
        let eff = effective_at(settings, now);
        press(state, settings, at, eff.normal_br)
    }

    /// The button is pressed at the moment `at`; the local clock tells which
    /// settings are in force.
    pub fn key_up(&self, state: &mut SleepState, settings: &SleepSettings, at: Moment) -> (effects:
        Vec<Effect>)
        requires
            settings.fits(),
        ensures
            exists|now: WallClock| #[trigger]
                now.wf() && *final(state) == pressed(
                    *old(state),
                    *settings,
                    at,
                    settings.values_at(now).normal_br,
                ) && effects@ == press_effects(
                    final(state).enabled,
                    settings.values_at(now).normal_br,
                ),
            settings.night_enabled ==> exists|now: WallClock| #[trigger]
                shown(now) && now.wf() && *final(state) == pressed(
                    *old(state),
                    *settings,
                    at,
                    settings.values_at(now).normal_br,
                ) && effects@ == press_effects(
                    final(state).enabled,
                    settings.values_at(now).normal_br,
                ),
    {
        let eff = effective(settings);
        press(state, settings, at, eff.normal_br)
    }
}

} // verus!

//! What the timer and the events do, said of each call by what goes in and
//! what comes out, and what the deck is like once it has been carried out.
use vstd::prelude::*;

use crate::action::{pressed, resettled, SleepModeAction};
use crate::clock::{shown, Moment, WallClock};
use crate::laws_of_values::{
    are_day_values, are_values_for, night_on, sums_fit, sums_that_fit_are_enough,
};
use crate::settings::{EffSettings, SleepSettings};
use crate::state::{Effect, Observation, Phase, SleepState, Transition};

verus! {

/// What an effect is for.
pub enum Kind {
    /// A command to the device.
    Command,
    /// A change of the state.
    Change,
    /// The button.
    Button,
    /// The inspector.
    Report,
    /// The status file.
    Status,
}

/// What the effect is for.
pub open spec fn kind(effect: Effect) -> Kind {
    match effect {
        Effect::HidSleep => Kind::Command,
        Effect::Brightness(_) => Kind::Command,
        Effect::Commit(_) => Kind::Change,
        Effect::RecordBrightness(_) => Kind::Change,
        Effect::Button { .. } => Kind::Button,
        Effect::Report { .. } => Kind::Report,
        Effect::WriteStatus(_) => Kind::Status,
    }
}

/// `one` is carried out at place `i`, and it is the only effect of its kind.
pub open spec fn alone_at(effects: Seq<Effect>, i: int, one: Effect) -> bool {
    &&& 0 <= i < effects.len()
    &&& effects[i] == one
    &&& forall|j: int|
        0 <= j < effects.len() && j != i ==> kind(#[trigger] effects[j]) != kind(one)
}

/// `command` is the one command to the device.
pub open spec fn only_command(effects: Seq<Effect>, command: Effect) -> bool {
    kind(command) is Command && exists|i: int| #[trigger] alone_at(effects, i, command)
}

/// There is no command to the device.
pub open spec fn no_command(effects: Seq<Effect>) -> bool {
    forall|j: int| 0 <= j < effects.len() ==> !(kind(#[trigger] effects[j]) is Command)
}

/// The phase is the one that is due after `idle` seconds: by the delays alone.
pub open spec fn is_due(phase: Phase, eff: EffSettings, idle: u64) -> bool {
    &&& phase is Off <==> idle >= eff.off_at && !eff.no_off
    &&& phase is Dim ==> idle >= eff.dim_at
    &&& phase is Awake ==> idle < eff.dim_at
}

/// The brightness is the one that goes with the phase.
pub open spec fn suits(brightness: u8, eff: EffSettings, phase: Phase) -> bool {
    &&& phase is Awake ==> brightness == eff.normal_br
    &&& phase is Dim ==> brightness == eff.dim_br
    &&& phase is Off ==> brightness == 0
}

/// The tick finds everything as it is due.
pub open spec fn is_settled(seen: Observation) -> bool {
    is_due(seen.phase, seen.eff, seen.elapsed) && suits(
        seen.last_brightness,
        seen.eff,
        seen.phase,
    )
}

/// The two states are alike but for the fields that are named: the idle time,
/// the phase, the settings, the mode, the instance and the brightness.
pub open spec fn alike(
    a: SleepState,
    b: SleepState,
    activity: bool,
    phase: bool,
    settings: bool,
    enabled: bool,
    context: bool,
    brightness: bool,
) -> bool {
    &&& a.timer_started == b.timer_started
    &&& activity || a.last_activity == b.last_activity
    &&& phase || a.phase == b.phase
    &&& settings || a.settings == b.settings
    &&& enabled || a.enabled == b.enabled
    &&& context || a.context == b.context
    &&& brightness || a.last_brightness == b.last_brightness
}

/// A tick leads somewhere exactly if the mode is enabled and something is not
/// as it is due, and then to the phase that is due and its brightness.
pub proof fn tick_decides_by_what_is_due(seen: Observation, transition: Option<Transition>)
    requires
        call_ensures(Observation::decide, (&seen,), transition),
    ensures
        transition is None <==> !seen.enabled || is_settled(seen),
        transition matches Some(t) ==> is_due(t.phase, seen.eff, seen.elapsed) && suits(
            t.brightness,
            seen.eff,
            t.phase,
        ),
        transition == seen.next(),
{
}

/// A transition sends the device one command, after it has been taken: to any
/// phase but `Off` its brightness, and to `Off` the report that switches the
/// display off. The button is told last.
pub proof fn transition_sends_one_command(t: Transition, effects: Vec<Effect>)
    requires
        call_ensures(Transition::effects, (&t,), effects),
    ensures
        !(t.phase is Off) ==> only_command(effects@, Effect::Brightness(t.brightness)),
        t.phase is Off ==> only_command(effects@, Effect::HidSleep),
        alone_at(effects@, 0, Effect::Commit(t)),
        alone_at(
            effects@,
            effects@.len() - 1,
            Effect::Button { phase: t.phase, enabled: true }),
        effects@.len() == 3,
{
    let sent = effects@[1];
    assert(alone_at(effects@, 1, sent));
}

/// A tick that finds everything as it is due, or the mode disabled, sends the
/// device nothing and changes nothing.
pub proof fn settled_tick_sends_nothing(seen: Observation, effects: Vec<Effect>)
    requires
        call_ensures(Observation::effects, (&seen,), effects),
        !seen.enabled || is_settled(seen),
    ensures
        no_command(effects@),
        forall|j: int| 0 <= j < effects@.len() ==> kind(#[trigger] effects@[j]) is Status || kind(
            effects@[j],
        ) is Report,
        effects@.len() == 2,
{
}

/// A tick that finds something not as it is due sends the device one command,
/// by the phase `due`: the normal brightness in force for `Awake`, the dim one
/// for `Dim`, and the report for `Off`. The same phase and brightness are
/// taken by the state, before the device is told, and shown on the button.
pub proof fn tick_sends_what_is_due(seen: Observation, due: Phase, effects: Vec<Effect>)
    requires
        call_ensures(Observation::effects, (&seen,), effects),
        seen.enabled,
        !is_settled(seen),
        is_due(due, seen.eff, seen.elapsed),
    ensures
        due is Awake ==> only_command(effects@, Effect::Brightness(seen.eff.normal_br)),
        due is Dim ==> only_command(effects@, Effect::Brightness(seen.eff.dim_br)),
        due is Off ==> only_command(effects@, Effect::HidSleep),
        effects@.len() == 5,
        exists|t: Transition|
            t.phase == due && suits(t.brightness, seen.eff, due) && #[trigger] alone_at(
                effects@,
                2,
                Effect::Commit(t)),
        effects@[4] == (Effect::Button { phase: due, enabled: true }),
        kind(effects@[3]) is Command,
{
    let t = seen.next()->0;
    assert(t.phase == due);
    assert(alone_at(effects@, 3, effects@[3]));
    assert(alone_at(effects@, 2, Effect::Commit(t)));
}

/// Every tick first writes the status of what it has seen, and then reports
/// the phase and the mode that it has seen; it does each once.
pub proof fn tick_tells_what_it_has_seen(seen: Observation, effects: Vec<Effect>)
    requires
        call_ensures(Observation::effects, (&seen,), effects),
    ensures
        alone_at(effects@, 0, Effect::WriteStatus(seen)),
        alone_at(
            effects@,
            1,
            Effect::Report { phase: seen.phase, enabled: seen.enabled }),
{
}

/// A tick sees the state as it is, the time since the last activity, and the
/// values for the time of day.
pub proof fn tick_sees_the_state(
    state: SleepState,
    at: Moment,
    now: WallClock,
    seen: Observation,
)
    requires
        now.hour < 24,
        now.minute < 60,
        sums_fit(state.settings, now),
        call_ensures(SleepState::observe_at, (&state, &at, &now), seen),
    ensures
        seen.phase == state.phase,
        seen.enabled == state.enabled,
        seen.last_brightness == state.last_brightness,
        state.last_activity.nanos <= at.nanos ==> {
            &&& seen.elapsed * 1_000_000_000 <= at.nanos - state.last_activity.nanos
            &&& at.nanos - state.last_activity.nanos < (seen.elapsed + 1) * 1_000_000_000
        },
        at.nanos < state.last_activity.nanos ==> seen.elapsed == 0,
        are_values_for(seen.eff, state.settings, now),
        seen == state.seen(at, now),
{
    assert(state.settings.fits_at(now));
}

/// A tick by the local clock sees the values for the time that it shows.
pub proof fn tick_follows_the_local_clock(state: SleepState, at: Moment, seen: Observation)
    requires
        forall|now: WallClock|
            now.hour < 24 && now.minute < 60 ==> #[trigger] sums_fit(state.settings, now),
        call_ensures(SleepState::observe, (&state, &at), seen),
    ensures
        seen.phase == state.phase,
        seen.enabled == state.enabled,
        seen.last_brightness == state.last_brightness,
        seen.elapsed == at.secs_since(state.last_activity),
        state.settings.night_enabled ==> exists|now: WallClock| #[trigger]
            shown(now) && now.hour < 24 && now.minute < 60 && are_values_for(
                seen.eff,
                state.settings,
                now,
            ),
        !state.settings.night_enabled ==> are_day_values(seen.eff, state.settings),
{
    sums_that_fit_are_enough(state.settings);
    let midnight = WallClock { hour: 0, minute: 0 };
    assert(sums_fit(state.settings, midnight));
    if state.settings.night_enabled {
        let now = choose|now: WallClock| #[trigger]
            shown(now) && now.wf() && seen == state.seen(at, now);
        assert(shown(now));
        assert(sums_fit(state.settings, now));
    }
}

/// A transition that is taken gives the state its phase and its brightness,
/// and leaves the rest.
pub proof fn commit_takes_phase_and_brightness(state: &mut SleepState, t: Transition)
    requires
        call_ensures(SleepState::commit, (state, &t), ()),
    ensures
        final(state).phase == t.phase,
        final(state).last_brightness == t.brightness,
        alike(*old(state), *final(state), false, true, false, false, false, true),
        *final(state) == old(state).after(t),
{
}

/// Noting a brightness changes that alone.
pub proof fn recording_changes_the_brightness_alone(state: &mut SleepState, brightness: u8)
    requires
        call_ensures(SleepState::record_brightness, (state, brightness), ()),
    ensures
        final(state).last_brightness == brightness,
        alike(*old(state), *final(state), false, false, false, false, false, true),
        *final(state) == old(state).recorded(brightness),
{
}

/// The first claim of the timer is granted and no later one.
pub proof fn timer_is_granted_once(state: &mut SleepState, first: bool)
    requires
        call_ensures(SleepState::claim_timer, (state,), first),
    ensures
        first <==> !old(state).timer_started,
        final(state).timer_started,
        final(state).last_activity == old(state).last_activity,
        final(state).phase == old(state).phase,
        final(state).settings == old(state).settings,
        final(state).enabled == old(state).enabled,
        final(state).context == old(state).context,
        final(state).last_brightness == old(state).last_brightness,
{
}

/// A read from the deck counts as activity exactly if it brought something
/// and the mode is enabled; it changes nothing else, and a failed read ends
/// the watch.
pub proof fn activity_is_noted(
    state: &mut SleepState,
    read: Option<usize>,
    at: Moment,
    go_on: bool,
)
    requires
        call_ensures(SleepState::deck_read, (state, read, at), go_on),
    ensures
        alike(*old(state), *final(state), true, false, false, false, false, false),
        (read matches Some(n) && n != 0 && old(state).enabled) ==> final(state).last_activity
            == at,
        !(read matches Some(n) && n != 0 && old(state).enabled) ==> final(state).last_activity
            == old(state).last_activity,
        go_on <==> read is Some,
        *final(state) == old(state).after_read(read, at),
{
}

/// A button that appears takes its instance and its settings, and shows phase
/// and mode as they are, first on the button and then in the inspector; the
/// device is not touched.
pub proof fn appearing_button_shows_the_state(
    action: SleepModeAction,
    state: &mut SleepState,
    instance_id: String,
    settings: SleepSettings,
    effects: Vec<Effect>,
)
    requires
        call_ensures(
            SleepModeAction::will_appear,
            (&action, state, instance_id, &settings),
            effects,
        ),
    ensures
        final(state).context == instance_id,
        final(state).settings == settings,
        alike(*old(state), *final(state), false, false, true, false, true, false),
        effects@.len() == 2,
        effects@[0] == (Effect::Button {
            phase: final(state).phase,
            enabled: final(state).enabled,
        }),
        effects@[1] == (Effect::Report {
            phase: final(state).phase,
            enabled: final(state).enabled,
        }),
        no_command(effects@),
{
}

/// An inspector that appears gives its instance and is told phase and mode as
/// they are, and nothing else happens.
pub proof fn appearing_inspector_is_told_the_state(
    action: SleepModeAction,
    state: &mut SleepState,
    instance_id: String,
    effects: Vec<Effect>,
)
    requires
        call_ensures(
            SleepModeAction::property_inspector_did_appear,
            (&action, state, instance_id),
            effects,
        ),
    ensures
        final(state).context == instance_id,
        alike(*old(state), *final(state), false, false, false, false, true, false),
        effects@.len() == 1,
        effects@[0] == (Effect::Report {
            phase: final(state).phase,
            enabled: final(state).enabled,
        }),
{
}

/// What new settings make of the state: they are taken, no brightness counts
/// as applied, and the rest stays.
pub open spec fn settings_taken(
    before: SleepState,
    after: SleepState,
    settings: SleepSettings,
) -> bool {
    &&& after.settings == settings
    &&& after.last_brightness == 255
    &&& alike(before, after, false, false, true, false, false, true)
}

/// What new settings carry out on an enabled deck: one brightness is sent,
/// then the same one is noted, and the inspector is told. It is that of the
/// present phase.
pub open spec fn settings_applied(effects: Seq<Effect>, phase: Phase, eff: EffSettings) -> bool {
    &&& phase is Awake ==> only_command(effects, Effect::Brightness(eff.normal_br))
    &&& phase is Dim ==> only_command(effects, Effect::Brightness(eff.dim_br))
    &&& phase is Off ==> only_command(effects, Effect::Brightness(0))
    &&& effects.len() == 3
    &&& effects[0] is Brightness
    &&& effects[1] == Effect::RecordBrightness(effects[0]->Brightness_0)
    &&& effects[2] == (Effect::Report { phase, enabled: true })
}

/// New settings are applied at once while the mode is enabled: the brightness
/// that is sent to the device is the one that is noted, and it is the normal
/// brightness of the new settings in force where the phase is `Awake`, the dim
/// one where it is `Dim`, and none where it is `Off`. While the mode is
/// disabled, only the inspector is told.
pub proof fn new_settings_send_the_brightness_of_the_phase(
    action: SleepModeAction,
    state: &mut SleepState,
    settings: SleepSettings,
    now: WallClock,
    effects: Vec<Effect>,
)
    requires
        now.hour < 24,
        now.minute < 60,
        old(state).enabled ==> sums_fit(settings, now),
        call_ensures(
            SleepModeAction::did_receive_settings_at,
            (&action, state, &settings, &now),
            effects,
        ),
    ensures
        settings_taken(*old(state), *final(state), settings),
        old(state).enabled ==> exists|eff: EffSettings| #[trigger]
            are_values_for(eff, settings, now) && settings_applied(
                effects@,
                old(state).phase,
                eff,
            ),
        !old(state).enabled ==> effects@ == seq![
            Effect::Report { phase: old(state).phase, enabled: false },
        ],
{
    if old(state).enabled {
        assert(settings.fits_at(now));
        let eff = settings.values_at(now);
        assert(are_values_for(eff, settings, now));
        assert(alone_at(effects@, 0, effects@[0]));
    }
}

/// By the local clock, new settings are applied with the values for the time
/// that it shows.
pub proof fn new_settings_follow_the_local_clock(
    action: SleepModeAction,
    state: &mut SleepState,
    settings: SleepSettings,
    effects: Vec<Effect>,
)
    requires
        old(state).enabled ==> forall|now: WallClock|
            now.hour < 24 && now.minute < 60 ==> #[trigger] sums_fit(settings, now),
        call_ensures(
            SleepModeAction::did_receive_settings,
            (&action, state, &settings),
            effects,
        ),
    ensures
        settings_taken(*old(state), *final(state), settings),
        old(state).enabled && settings.night_enabled ==> exists|now: WallClock, eff: EffSettings|
            #[trigger] shown(now) && now.hour < 24 && now.minute < 60 && #[trigger]
            are_values_for(eff, settings, now) && settings_applied(
                effects@,
                old(state).phase,
                eff,
            ),
        old(state).enabled && !settings.night_enabled ==> exists|eff: EffSettings| #[trigger]
            are_day_values(eff, settings) && settings_applied(effects@, old(state).phase, eff),
        !old(state).enabled ==> effects@ == seq![
            Effect::Report { phase: old(state).phase, enabled: false },
        ],
{
    let midnight = WallClock { hour: 0, minute: 0 };
    if old(state).enabled {
        sums_that_fit_are_enough(settings);
        assert(sums_fit(settings, midnight));
        assert(alone_at(effects@, 0, effects@[0]));
        if settings.night_enabled {
            let now = choose|now: WallClock| #[trigger]
                shown(now) && now.wf() && effects@ == crate::action::settings_effects(
                    old(state).phase,
                    true,
                    settings.values_at(now),
                );
            assert(shown(now));
            assert(sums_fit(settings, now));
            let eff = settings.values_at(now);
            assert(are_values_for(eff, settings, now));
            assert(settings_applied(effects@, old(state).phase, eff));
        } else {
            let eff = settings.values(false);
            assert(are_day_values(eff, settings));
            assert(settings_applied(effects@, old(state).phase, eff));
        }
    }
}

/// What a press makes of the state, with `normal` the normal brightness: a
/// deck that is awake and enabled is disabled, and stays as it is; any other
/// is awake and enabled afterwards, and its idle time starts.
pub open spec fn press_taken(
    before: SleepState,
    after: SleepState,
    settings: SleepSettings,
    at: Moment,
    normal: u8,
) -> bool {
    &&& after.settings == settings
    &&& after.last_brightness == normal
    &&& alike(before, after, true, true, true, true, false, true)
    &&& !after.enabled <==> before.enabled && before.phase is Awake
    &&& after.enabled ==> after.phase is Awake && after.last_activity == at
    &&& !after.enabled ==> after.phase == before.phase && after.last_activity
        == before.last_activity
}

/// What a press carries out: one brightness is sent, the normal one, and the
/// button and then the inspector show a deck that is awake, with the mode as
/// it is after the press.
pub open spec fn press_carried_out(effects: Seq<Effect>, after: SleepState, normal: u8) -> bool {
    &&& only_command(effects, Effect::Brightness(normal))
    &&& effects.len() == 3
    &&& effects[0] is Brightness
    &&& effects[1] == (Effect::Button { phase: Phase::Awake, enabled: after.enabled })
    &&& effects[2] == (Effect::Report { phase: Phase::Awake, enabled: after.enabled })
}

/// Every press, whether it wakes, enables or disables, sends the device
/// exactly one brightness: the normal brightness of the given settings for the
/// time of day. The state notes the same one.
pub proof fn press_sends_the_normal_brightness(
    action: SleepModeAction,
    state: &mut SleepState,
    settings: SleepSettings,
    at: Moment,
    now: WallClock,
    effects: Vec<Effect>,
)
    requires
        now.hour < 24,
        now.minute < 60,
        sums_fit(settings, now),
        call_ensures(
            SleepModeAction::key_up_at,
            (&action, state, &settings, at, &now),
            effects,
        ),
    ensures
        ({
            let normal = if night_on(settings, now) {
                settings.night_normal_brightness
            } else {
                settings.normal_brightness
            };
            &&& press_taken(*old(state), *final(state), settings, at, normal)
            &&& press_carried_out(effects@, *final(state), normal)
            &&& only_command(effects@, Effect::Brightness(final(state).last_brightness))
        }),
{
    assert(settings.fits_at(now));
    assert(alone_at(effects@, 0, effects@[0]));
}

/// By the local clock, a press sends the normal brightness for the time that
/// it shows.
pub proof fn press_follows_the_local_clock(
    action: SleepModeAction,
    state: &mut SleepState,
    settings: SleepSettings,
    at: Moment,
    effects: Vec<Effect>,
)
    requires
        forall|now: WallClock|
            now.hour < 24 && now.minute < 60 ==> #[trigger] sums_fit(settings, now),
        call_ensures(SleepModeAction::key_up, (&action, state, &settings, at), effects),
    ensures
        settings.night_enabled ==> exists|now: WallClock| #[trigger]
            shown(now) && now.hour < 24 && now.minute < 60 && ({
                let normal = if night_on(settings, now) {
                    settings.night_normal_brightness
                } else {
                    settings.normal_brightness
                };
                &&& press_taken(*old(state), *final(state), settings, at, normal)
                &&& press_carried_out(effects@, *final(state), normal)
            }),
        !settings.night_enabled ==> press_taken(
            *old(state),
            *final(state),
            settings,
            at,
            settings.normal_brightness,
        ) && press_carried_out(effects@, *final(state), settings.normal_brightness),
{
    sums_that_fit_are_enough(settings);
    assert(alone_at(effects@, 0, effects@[0]));
    if settings.night_enabled {
        let now = choose|now: WallClock| #[trigger]
            shown(now) && now.wf() && *final(state) == pressed(
                *old(state),
                settings,
                at,
                settings.values_at(now).normal_br,
            ) && effects@ == crate::action::press_effects(
                final(state).enabled,
                settings.values_at(now).normal_br,
            );
        assert(shown(now));
    }
}

/// Ticks and events can be taken at every time of day at which the delays of
/// the settings can be added up, in every state and at every moment.
pub proof fn nothing_else_is_asked_of_the_caller(
    action: SleepModeAction,
    state: &mut SleepState,
    seen: SleepState,
    settings: SleepSettings,
    at: Moment,
    now: WallClock,
)
    requires
        now.hour < 24,
        now.minute < 60,
    ensures
        sums_fit(seen.settings, now) ==> call_requires(
            SleepState::observe_at,
            (&seen, &at, &now),
        ),
        sums_fit(settings, now) ==> call_requires(
            SleepModeAction::key_up_at,
            (&action, state, &settings, at, &now),
        ),
        !old(state).enabled || sums_fit(settings, now) ==> call_requires(
            SleepModeAction::did_receive_settings_at,
            (&action, state, &settings, &now),
        ),
{
    assert(sums_fit(seen.settings, now) ==> seen.settings.fits_at(now));
    assert(sums_fit(settings, now) ==> settings.fits_at(now));
}

/// What the device was last told.
pub enum Device {
    /// To show this brightness.
    Lit(u8),
    /// To switch its display off.
    Dark,
}

/// The state and the device.
pub struct Scene {
    pub state: SleepState,
    pub device: Device,
}

/// The scene after an effect was carried out.
pub open spec fn carried_out(scene: Scene, effect: Effect) -> Scene {
    match effect {
        Effect::HidSleep => Scene { device: Device::Dark, ..scene },
        Effect::Brightness(b) => Scene { device: Device::Lit(b), ..scene },
        Effect::Commit(t) => Scene {
            state: SleepState { phase: t.phase, last_brightness: t.brightness, ..scene.state },
            ..scene
        },
        Effect::RecordBrightness(b) => Scene {
            state: SleepState { last_brightness: b, ..scene.state },
            ..scene
        },
        Effect::Button { .. } => scene,
        Effect::Report { .. } => scene,
        Effect::WriteStatus(_) => scene,
    }
}

/// The scene after all effects were carried out, one after the other.
pub open spec fn all_carried_out(scene: Scene, effects: Seq<Effect>) -> Scene
    decreases effects.len(),
{
    if effects.len() == 0 {
        scene
    } else {
        carried_out(all_carried_out(scene, effects.drop_last()), effects.last())
    }
}

/// The device shows what the state says: the brightness that was applied last,
/// or nothing where the phase is `Off`.
pub open spec fn in_step(scene: Scene) -> bool {
    if scene.state.phase is Off {
        scene.device is Dark || scene.device == Device::Lit(0)
    } else {
        scene.device == Device::Lit(scene.state.last_brightness)
    }
}

proof fn carry_first(scene: Scene, effects: Seq<Effect>)
    ensures
        effects.len() == 1 ==> all_carried_out(scene, effects) == carried_out(scene, effects[0]),
        effects.len() == 2 ==> all_carried_out(scene, effects) == carried_out(
            carried_out(scene, effects[0]),
            effects[1],
        ),
        effects.len() == 3 ==> all_carried_out(scene, effects) == carried_out(
            carried_out(carried_out(scene, effects[0]), effects[1]),
            effects[2],
        ),
        effects.len() == 5 ==> all_carried_out(scene, effects) == carried_out(
            carried_out(
                carried_out(
                    carried_out(carried_out(scene, effects[0]), effects[1]),
                    effects[2],
                ),
                effects[3],
            ),
            effects[4],
        ),
{
    reveal_with_fuel(all_carried_out, 6);
}

/// A whole tick brings state and device to what is due, whatever the device
/// showed before a transition, and keeps them in step where there is none.
pub proof fn tick_keeps_the_device_in_step(
    scene: Scene,
    at: Moment,
    now: WallClock,
    seen: Observation,
    effects: Vec<Effect>,
)
    requires
        now.hour < 24,
        now.minute < 60,
        sums_fit(scene.state.settings, now),
        call_ensures(SleepState::observe_at, (&scene.state, &at, &now), seen),
        call_ensures(Observation::effects, (&seen,), effects),
    ensures
        ({
            let after = all_carried_out(scene, effects@);
            &&& in_step(scene) ==> in_step(after)
            &&& scene.state.enabled && !is_settled(seen) ==> in_step(after)
            &&& scene.state.enabled ==> {
                &&& is_due(after.state.phase, seen.eff, seen.elapsed)
                &&& suits(after.state.last_brightness, seen.eff, after.state.phase)
                &&& are_values_for(seen.eff, scene.state.settings, now)
            }
            &&& !scene.state.enabled ==> after == scene
            &&& alike(scene.state, after.state, false, true, false, false, false, true)
        }),
{
    assert(scene.state.settings.fits_at(now));
    carry_first(scene, effects@);
}

/// After a press the device shows what the state says, whatever it showed
/// before.
pub proof fn press_brings_the_device_in_step(
    action: SleepModeAction,
    state: &mut SleepState,
    device: Device,
    settings: SleepSettings,
    at: Moment,
    now: WallClock,
    effects: Vec<Effect>,
)
    requires
        now.hour < 24,
        now.minute < 60,
        sums_fit(settings, now),
        call_ensures(
            SleepModeAction::key_up_at,
            (&action, state, &settings, at, &now),
            effects,
        ),
    ensures
        ({
            let after = all_carried_out(Scene { state: *final(state), device }, effects@);
            in_step(after) && !(after.device is Dark) && after.state == *final(state)
        }),
{
    assert(settings.fits_at(now));
    carry_first(Scene { state: *final(state), device }, effects@);
}

/// After new settings the device shows what the state says, if the mode is
/// enabled, whatever it showed before.
pub proof fn new_settings_bring_the_device_in_step(
    action: SleepModeAction,
    state: &mut SleepState,
    device: Device,
    settings: SleepSettings,
    now: WallClock,
    effects: Vec<Effect>,
)
    requires
        now.hour < 24,
        now.minute < 60,
        old(state).enabled,
        sums_fit(settings, now),
        call_ensures(
            SleepModeAction::did_receive_settings_at,
            (&action, state, &settings, &now),
            effects,
        ),
    ensures
        ({
            let after = all_carried_out(Scene { state: *final(state), device }, effects@);
            &&& in_step(after)
            &&& after.state.phase == old(state).phase
            &&& exists|eff: EffSettings| #[trigger]
                are_values_for(eff, settings, now) && suits(
                    after.state.last_brightness,
                    eff,
                    old(state).phase,
                )
        }),
{
    assert(settings.fits_at(now));
    assert(are_values_for(settings.values_at(now), settings, now));
    assert(*final(state) == resettled(*old(state), settings));
    carry_first(Scene { state: *final(state), device }, effects@);
}

} // verus!

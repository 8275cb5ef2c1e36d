//! What holds of the sleep mode as a whole, over several events.
//!
//! A tick is spoken of here as one whole ([`SleepState::ticked`]): what it
//! decides is taken by the state that it has seen.
use vstd::prelude::*;

use crate::action::{appeared, inspected, pressed, resettled};
use crate::clock::{Moment, WallClock};
use crate::report::countdown;
use crate::settings::{EffSettings, SleepSettings};
use crate::state::{Effect, Observation, Phase, SleepState, UNAPPLIED};
use crate::text::{decimal_is_digits, mmss};

verus! {

/// How deep a phase of sleep is.
pub open spec fn depth(phase: Phase) -> int {
    match phase {
        Phase::Awake => 0,
        Phase::Dim => 1,
        Phase::Off => 2,
    }
}

/// Sleep only deepens: with the same values in force, a longer idle time never
/// calls for a lighter phase.
pub proof fn sleep_only_deepens(eff: EffSettings, idle: u64, longer: u64)
    requires
        idle <= longer,
    ensures
        depth(eff.phase_after(idle)) <= depth(eff.phase_after(longer)),
{
}

/// The deck is dimmed before it is switched off, or at the same time.
pub proof fn dimming_comes_first(settings: SleepSettings, now: WallClock)
    requires
        settings.fits_at(now),
    ensures
        settings.values_at(now).dim_at <= settings.values_at(now).off_at,
{
}

/// Where switching off is ruled out, it is never called for.
pub proof fn no_off_is_kept(eff: EffSettings, idle: u64)
    requires
        eff.no_off,
    ensures
        eff.phase_after(idle) != Phase::Off,
{
}

/// While the night mode is off, the time of day does not matter.
pub proof fn without_night_mode_the_clock_does_not_matter(
    settings: SleepSettings,
    now: WallClock,
    other: WallClock,
)
    requires
        !settings.night_enabled,
    ensures
        settings.values_at(now) == settings.values_at(other),
        !settings.values_at(now).is_night,
{
}

/// A tick brings about what is due: the phase for the idle time, with the
/// brightness that goes with it.
pub proof fn tick_brings_about_what_is_due(state: SleepState, at: Moment, now: WallClock)
    requires
        state.enabled,
    ensures
        ({
            let eff = state.settings.values_at(now);
            let due = eff.phase_after(at.secs_since(state.last_activity));
            let after = state.ticked(at, now);
            after.phase == due && after.last_brightness == eff.brightness_in(due)
        }),
{
}

/// A tick settles: a second one at the same moment and time of day finds
/// nothing to do.
pub proof fn tick_settles(state: SleepState, at: Moment, now: WallClock)
    ensures
        state.ticked(at, now).seen(at, now).next() is None,
        state.ticked(at, now).ticked(at, now) == state.ticked(at, now),
{
}

/// While the sleep mode is disabled, a tick only tells how things stand.
pub proof fn disabled_mode_leaves_the_deck_alone(state: SleepState, at: Moment, now: WallClock)
    requires
        !state.enabled,
    ensures
        state.seen(at, now).next() is None,
        state.ticked(at, now) == state,
        state.seen(at, now).carries_out() == seq![
            Effect::WriteStatus(state.seen(at, now)),
            Effect::Report { phase: state.phase, enabled: false },
        ],
{
}

/// A tick switches the display off exactly where it goes to `Off`: by the
/// report for it, and never by a brightness.
pub proof fn display_is_switched_off_by_report_alone(seen: Observation)
    ensures
        seen.carries_out().contains(Effect::HidSleep) <==> (seen.next() is Some
            && seen.next()->0.phase == Phase::Off),
        seen.carries_out().contains(Effect::HidSleep) ==> forall|brightness: u8|
            !(#[trigger] seen.carries_out().contains(Effect::Brightness(brightness))),
{
    let effects = seen.carries_out();
    match seen.next() {
        Some(transition) => {
            assert(effects.len() == 5);
            if transition.phase == Phase::Off {
                assert(effects[3] == Effect::HidSleep);
            }
        },
        None => {},
    }
}

/// As long as no brightness has been applied, the next tick applies one,
/// unless the one that is due is the value that stands for none.
pub proof fn unapplied_brightness_is_applied(state: SleepState, at: Moment, now: WallClock)
    requires
        state.enabled,
        state.last_brightness == UNAPPLIED,
        state.settings.values_at(now).brightness_in(
            state.settings.values_at(now).phase_after(at.secs_since(state.last_activity)),
        ) != UNAPPLIED,
    ensures
        state.seen(at, now).next() is Some,
{
}

/// New settings are applied by the next tick if nothing is noted before,
/// unless the brightness that is due is the value that stands for none.
pub proof fn new_settings_are_applied(
    state: SleepState,
    settings: SleepSettings,
    at: Moment,
    now: WallClock,
)
    requires
        state.enabled,
        settings.values_at(now).brightness_in(
            settings.values_at(now).phase_after(at.secs_since(state.last_activity)),
        ) != UNAPPLIED,
    ensures
        resettled(state, settings).seen(at, now).next() is Some,
{
}

/// Once the brightness that new settings call for has been noted, a tick finds
/// nothing to do if the phase is the one that is due.
pub proof fn noted_settings_need_no_tick(
    state: SleepState,
    settings: SleepSettings,
    at: Moment,
    now: WallClock,
)
    requires
        settings.values_at(now).phase_after(at.secs_since(state.last_activity)) == state.phase,
    ensures
        resettled(state, settings).recorded(
            settings.values_at(now).brightness_in(state.phase),
        ).seen(at, now).next() is None,
{
}

/// A change of the brightness in force, as between day and night, is applied
/// without a change of the phase.
pub proof fn brightness_follows_the_time_of_day(state: SleepState, at: Moment, now: WallClock)
    requires
        state.enabled,
        state.settings.values_at(now).phase_after(at.secs_since(state.last_activity))
            == state.phase,
        state.settings.values_at(now).brightness_in(state.phase) != state.last_brightness,
    ensures
        state.seen(at, now).next() is Some,
        state.ticked(at, now) == state.recorded(
            state.settings.values_at(now).brightness_in(state.phase),
        ),
{
}

/// A press wakes a deck that sleeps and leaves the sleep mode enabled.
pub proof fn press_wakes_a_sleeping_deck(
    state: SleepState,
    settings: SleepSettings,
    at: Moment,
    normal_br: u8,
)
    requires
        state.enabled,
        state.phase != Phase::Awake,
    ensures
        pressed(state, settings, at, normal_br).enabled,
        pressed(state, settings, at, normal_br).phase == Phase::Awake,
        pressed(state, settings, at, normal_br).last_activity == at,
{
}

/// A press on a deck that does not sleep switches the sleep mode over, and a
/// second one switches it back.
pub proof fn second_press_undoes_the_first(
    state: SleepState,
    settings: SleepSettings,
    at: Moment,
    normal_br: u8,
    later: Moment,
    later_br: u8,
)
    requires
        !state.enabled || state.phase == Phase::Awake,
    ensures
        pressed(state, settings, at, normal_br).enabled == !state.enabled,
        pressed(pressed(state, settings, at, normal_br), settings, later, later_br).enabled
            == state.enabled,
{
}

/// After a press that leaves the sleep mode enabled, the timer has nothing to
/// do until the delay for dimming is over, as long as the values in force stay
/// the same.
pub proof fn pressed_deck_stays_awake(
    state: SleepState,
    settings: SleepSettings,
    at: Moment,
    now: WallClock,
    later: Moment,
    then: WallClock,
)
    requires
        settings.fits_at(now),
        settings.values_at(then) == settings.values_at(now),
        later.secs_since(at) < settings.values_at(now).dim_at,
    ensures
        ({
            let after = pressed(state, settings, at, settings.values_at(now).normal_br);
            after.seen(later, then).next() is None
        }),
{
}

/// A press on the deck starts the idle time anew: until the delay for dimming
/// is over, the deck is to be awake.
pub proof fn activity_keeps_the_deck_awake(
    state: SleepState,
    bytes: usize,
    at: Moment,
    later: Moment,
    now: WallClock,
)
    requires
        state.enabled,
        bytes > 0,
        state.settings.fits_at(now),
        later.secs_since(at) < state.settings.values_at(now).dim_at,
    ensures
        state.after_read(Some(bytes), at).ticked(later, now).phase == Phase::Awake,
{
}

/// What the deck sends does not matter while the sleep mode is disabled.
pub proof fn activity_is_ignored_while_disabled(
    state: SleepState,
    read: Option<usize>,
    at: Moment,
)
    requires
        !state.enabled,
    ensures
        state.after_read(read, at) == state,
{
}

/// A disabled sleep mode keeps the deck awake: if a state is of this kind, it
/// is so after every event.
pub proof fn disabled_deck_is_awake(
    state: SleepState,
    settings: SleepSettings,
    instance_id: String,
    read: Option<usize>,
    brightness: u8,
    at: Moment,
    now: WallClock,
)
    requires
        state.enabled || state.phase == Phase::Awake,
    ensures
        ({
            let next = state.ticked(at, now);
            next.enabled || next.phase == Phase::Awake
        }),
        ({
            let next = pressed(state, settings, at, brightness);
            next.enabled || next.phase == Phase::Awake
        }),
        ({
            let next = appeared(state, instance_id, settings);
            next.enabled || next.phase == Phase::Awake
        }),
        ({
            let next = resettled(state, settings);
            next.enabled || next.phase == Phase::Awake
        }),
        ({
            let next = inspected(state, instance_id);
            next.enabled || next.phase == Phase::Awake
        }),
        ({
            let next = state.after_read(read, at);
            next.enabled || next.phase == Phase::Awake
        }),
        ({
            let next = state.recorded(brightness);
            next.enabled || next.phase == Phase::Awake
        }),
        ({
            let next = state.claimed();
            next.enabled || next.phase == Phase::Awake
        }),
{
}

/// The timer is started once: after it was claimed, no event gives it free.
pub proof fn timer_stays_claimed(
    state: SleepState,
    settings: SleepSettings,
    instance_id: String,
    read: Option<usize>,
    brightness: u8,
    at: Moment,
    now: WallClock,
)
    ensures
        state.claimed().timer_started,
        state.timer_started ==> {
            &&& state.ticked(at, now).timer_started
            &&& pressed(state, settings, at, brightness).timer_started
            &&& appeared(state, instance_id, settings).timer_started
            &&& resettled(state, settings).timer_started
            &&& inspected(state, instance_id).timer_started
            &&& state.after_read(read, at).timer_started
            &&& state.recorded(brightness).timer_started
        },
{
}

/// Only the button switches the sleep mode on and off.
pub proof fn only_a_press_switches_the_mode(
    state: SleepState,
    settings: SleepSettings,
    instance_id: String,
    read: Option<usize>,
    brightness: u8,
    at: Moment,
    now: WallClock,
)
    ensures
        state.ticked(at, now).enabled == state.enabled,
        appeared(state, instance_id, settings).enabled == state.enabled,
        resettled(state, settings).enabled == state.enabled,
        inspected(state, instance_id).enabled == state.enabled,
        state.after_read(read, at).enabled == state.enabled,
        state.recorded(brightness).enabled == state.enabled,
        state.claimed().enabled == state.enabled,
{
}

/// The countdown to dimming agrees with the timer: it shows a dash exactly
/// where a phase other than `Awake` is due, and else the deck is to be dimmed
/// or switched off when the time that it shows is over, and not before.
pub proof fn countdown_agrees_with_dimming(
    settings: SleepSettings,
    now: WallClock,
    elapsed: u64,
    further: u64,
)
    requires
        settings.fits_at(now),
        elapsed + further <= u64::MAX,
    ensures
        ({
            let eff = settings.values_at(now);
            &&& countdown(true, eff.dim_at, elapsed) == "–"@ <==> eff.phase_after(elapsed)
                != Phase::Awake
            &&& elapsed < eff.dim_at ==> (eff.phase_after((elapsed + further) as u64)
                != Phase::Awake <==> further >= eff.dim_at - elapsed)
        }),
{
    countdown_is_no_dash(settings.values_at(now).dim_at, elapsed);
}

/// The countdown to switching off agrees with the timer: where switching off
/// is not ruled out, it shows a dash exactly where `Off` is due, and else the
/// deck is to be switched off when the time that it shows is over, and not
/// before.
pub proof fn countdown_agrees_with_switching_off(
    eff: EffSettings,
    elapsed: u64,
    further: u64,
)
    requires
        elapsed + further <= u64::MAX,
    ensures
        eff.no_off ==> countdown(!eff.no_off, eff.off_at, elapsed) == "–"@,
        !eff.no_off ==> {
            &&& countdown(!eff.no_off, eff.off_at, elapsed) == "–"@ <==> eff.phase_after(elapsed)
                == Phase::Off
            &&& elapsed < eff.off_at ==> (eff.phase_after((elapsed + further) as u64)
                == Phase::Off <==> further >= eff.off_at - elapsed)
        },
{
    countdown_is_no_dash(eff.off_at, elapsed);
}

proof fn countdown_is_no_dash(delay: u64, elapsed: u64)
    ensures
        countdown(true, delay, elapsed) == "–"@ <==> elapsed >= delay,
{
    if elapsed < delay {
        let left = (delay - elapsed) as nat;
        reveal_strlit("–");
        reveal_strlit("s");
        reveal_strlit("m ");
        decimal_is_digits(left);
        decimal_is_digits(left / 60);
        assert(mmss(left).last() == 's');
    }
}

} // verus!

//! What the clocks and the settings give, said of each call by what goes in
//! and what comes out.
use vstd::prelude::*;

use crate::clock::{is_night_at, is_night_time, shown, Moment, WallClock};
use crate::settings::{effective, effective_at, EffSettings, SleepSettings};
use crate::state::Phase;

verus! {

/// Minute `t` belongs to the night from minute `start` to minute `end`: the
/// day is what lies from the end to the start, and where the start comes
/// first, the night is what lies between the two.
pub open spec fn night_minute(start: int, end: int, t: int) -> bool {
    &&& start <= end ==> start <= t && t < end
    &&& end < start ==> !(end <= t && t < start)
}

/// The night of these settings is on at `now`.
pub open spec fn night_on(s: SleepSettings, now: WallClock) -> bool {
    s.night_enabled && night_minute(
        60 * s.night_start_hour + s.night_start_min,
        60 * s.night_end_hour + s.night_end_min,
        60 * now.hour + now.minute,
    )
}

/// The delays that count at `now` can be added up.
pub open spec fn sums_fit(s: SleepSettings, now: WallClock) -> bool {
    if night_on(s, now) {
        s.night_dim_after_secs + s.night_off_after_secs <= u64::MAX
    } else {
        s.dim_after_secs + s.off_after_secs <= u64::MAX
    }
}

/// These are the night values of the settings, field by field.
pub open spec fn are_night_values(eff: EffSettings, s: SleepSettings) -> bool {
    &&& eff.is_night
    &&& eff.normal_br == s.night_normal_brightness
    &&& eff.dim_br == s.night_dim_brightness
    &&& eff.dim_at == s.night_dim_after_secs
    &&& eff.off_at - eff.dim_at == s.night_off_after_secs
    &&& eff.no_off == s.night_no_off
}

/// These are the day values of the settings, field by field.
pub open spec fn are_day_values(eff: EffSettings, s: SleepSettings) -> bool {
    &&& !eff.is_night
    &&& eff.normal_br == s.normal_brightness
    &&& eff.dim_br == s.dim_brightness
    &&& eff.dim_at == s.dim_after_secs
    &&& eff.off_at - eff.dim_at == s.off_after_secs
    &&& eff.no_off == s.no_off
}

/// These are the values of the settings for the time of day `now`.
pub open spec fn are_values_for(eff: EffSettings, s: SleepSettings, now: WallClock) -> bool {
    if night_on(s, now) {
        are_night_values(eff, s)
    } else {
        are_day_values(eff, s)
    }
}

/// At a given time of day it is night from the first minute of the window on,
/// until the minute before its last; with its ends in the other order the
/// window is what lies outside.
pub proof fn night_lies_between_its_ends(
    start_h: u8,
    start_m: u8,
    end_h: u8,
    end_m: u8,
    now: WallClock,
    night: bool,
)
    requires
        now.hour < 24,
        now.minute < 60,
        call_ensures(is_night_at, (start_h, start_m, end_h, end_m, &now), night),
    ensures
        night == night_minute(
            60 * start_h + start_m,
            60 * end_h + end_m,
            60 * now.hour + now.minute,
        ),
{
}

/// Whether it is night is decided by what the local clock shows.
pub proof fn night_follows_the_local_clock(
    start_h: u8,
    start_m: u8,
    end_h: u8,
    end_m: u8,
    night: bool,
)
    requires
        call_ensures(is_night_time, (start_h, start_m, end_h, end_m), night),
    ensures
        exists|now: WallClock| #[trigger]
            shown(now) && now.hour < 24 && now.minute < 60 && night == night_minute(
                60 * start_h + start_m,
                60 * end_h + end_m,
                60 * now.hour + now.minute,
            ),
{
    let now = choose|now: WallClock| #[trigger]
        shown(now) && now.wf() && night == crate::clock::in_window(
            start_h * 60 + start_m,
            end_h * 60 + end_m,
            now.minutes(),
        );
    assert(shown(now));
}

/// The seconds that have passed are the whole ones: no more than the time
/// between the two readings, and less than one short of it. A reading before
/// the other counts as none.
pub proof fn elapsed_seconds_are_whole(since: Moment, at: Moment, secs: u64)
    requires
        call_ensures(Moment::elapsed_since, (&at, &since), secs),
    ensures
        since.nanos <= at.nanos ==> {
            &&& secs * 1_000_000_000 <= at.nanos - since.nanos
            &&& at.nanos - since.nanos < (secs + 1) * 1_000_000_000
        },
        at.nanos < since.nanos ==> secs == 0,
{
}

/// At a given time of day the values in force are the night values of the
/// settings while their night is on, and their day values otherwise.
pub proof fn values_belong_to_the_time_of_day(
    s: SleepSettings,
    now: WallClock,
    eff: EffSettings,
)
    requires
        now.hour < 24,
        now.minute < 60,
        sums_fit(s, now),
        call_ensures(effective_at, (&s, &now), eff),
    ensures
        are_values_for(eff, s, now),
{
    assert(s.fits_at(now));
}

/// The values in force now are those for the time that the local clock shows
/// in this call: night values if and only if that time is in the night. With
/// the night mode off they are the day values.
pub proof fn values_follow_the_local_clock(s: SleepSettings, eff: EffSettings)
    requires
        forall|now: WallClock|
            now.hour < 24 && now.minute < 60 ==> #[trigger] sums_fit(s, now),
        call_ensures(effective, (&s,), eff),
    ensures
        s.night_enabled ==> exists|now: WallClock| #[trigger]
            shown(now) && now.hour < 24 && now.minute < 60 && are_values_for(eff, s, now),
        !s.night_enabled ==> are_day_values(eff, s),
{
    sums_that_fit_are_enough(s);
    let midnight = WallClock { hour: 0, minute: 0 };
    assert(sums_fit(s, midnight));
    if s.night_enabled {
        let now = choose|now: WallClock| #[trigger]
            shown(now) && now.wf() && eff == s.values_at(now);
        assert(shown(now));
        assert(sums_fit(s, now));
    }
}

/// The values in force can be asked for wherever the delays that may count
/// can be added up, and [`SleepSettings::delays_fit`] tells exactly that.
pub proof fn sums_that_fit_are_enough(s: SleepSettings)
    requires
        forall|now: WallClock|
            now.hour < 24 && now.minute < 60 ==> #[trigger] sums_fit(s, now),
    ensures
        s.fits(),
        call_requires(effective, (&s,)),
        forall|b: bool| call_ensures(SleepSettings::delays_fit, (&s,), b) ==> b,
{
    assert forall|now: WallClock| #[trigger] now.wf() implies s.fits_at(now) by {
        assert(sums_fit(s, now));
    }
}

/// Settings with delays that cannot be added up at some time of day are told
/// from the others.
pub proof fn sums_that_do_not_fit_are_found(s: SleepSettings, now: WallClock, b: bool)
    requires
        now.hour < 24,
        now.minute < 60,
        !sums_fit(s, now),
        call_ensures(SleepSettings::delays_fit, (&s,), b),
    ensures
        !b,
{
    assert(now.wf());
    assert(!s.fits_at(now));
}

/// The values for a time of day can be asked for wherever the delays that
/// count then can be added up.
pub proof fn values_can_be_asked_for(s: SleepSettings, now: WallClock)
    requires
        now.hour < 24,
        now.minute < 60,
        sums_fit(s, now),
    ensures
        call_requires(effective_at, (&s, &now)),
        s.fits_at(now),
{
    assert(s.fits_at(now));
}

/// A reading is a time of day exactly if its hour and its minute are.
pub proof fn times_of_day_are_those_of_a_clock(now: WallClock)
    ensures
        now.wf() <==> now.hour < 24 && now.minute < 60,
        now.wf() ==> 0 <= now.minutes() < 24 * 60,
{
}

/// The phase that is due: `Off` from the delay for switching off on, unless
/// that is ruled out; before it, `Dim` from the delay for dimming on; and
/// `Awake` before both.
pub proof fn phase_is_due_by_the_delays(eff: EffSettings, idle: u64, phase: Phase)
    requires
        call_ensures(EffSettings::target_phase, (&eff, idle), phase),
    ensures
        phase is Off <==> idle >= eff.off_at && !eff.no_off,
        phase is Awake ==> idle < eff.dim_at,
        phase is Dim ==> idle >= eff.dim_at,
        eff.phase_after(idle) == phase,
{
}

/// Each phase has its brightness: the normal one, the dim one, or none.
pub proof fn brightness_belongs_to_the_phase(eff: EffSettings, phase: Phase, brightness: u8)
    requires
        call_ensures(EffSettings::brightness_for, (&eff, &phase), brightness),
    ensures
        phase is Awake ==> brightness == eff.normal_br,
        phase is Dim ==> brightness == eff.dim_br,
        phase is Off ==> brightness == 0,
        eff.brightness_in(phase) == brightness,
{
}

} // verus!

//! What the user sets, and what of it is in force at a time of day.
use vstd::prelude::*;

use crate::clock::{in_window, is_night_at, is_night_time, shown, WallClock};

verus! {

/// The settings of the sleep mode, with its delays in seconds. The delay
/// until the deck is switched off counts from the dimming.
#[derive(Clone, Copy, PartialEq, Eq, Structural, Debug)]
pub struct SleepSettings {
    pub normal_brightness: u8,
    pub dim_brightness: u8,
    pub dim_after_secs: u64,
    pub off_after_secs: u64,
    pub no_off: bool,
    pub night_enabled: bool,
    pub night_start_hour: u8,
    pub night_start_min: u8,
    pub night_end_hour: u8,
    pub night_end_min: u8,
    pub night_normal_brightness: u8,
    pub night_dim_brightness: u8,
    pub night_dim_after_secs: u64,
    pub night_off_after_secs: u64,
    pub night_no_off: bool,
}

/// The values in force at some time of day. Both delays count from the last
/// activity.
#[derive(Clone, Copy, PartialEq, Eq, Structural, Debug)]
pub struct EffSettings {
    pub normal_br: u8,
    pub dim_br: u8,
    pub dim_at: u64,
    pub off_at: u64,
    pub no_off: bool,
    pub is_night: bool,
}

/// The settings of a user who has set nothing.
pub open spec fn default_settings() -> SleepSettings {
    SleepSettings {
        normal_brightness: 70,
        dim_brightness: 20,
        dim_after_secs: 60,
        off_after_secs: 120,
        no_off: false,
        night_enabled: false,
        night_start_hour: 22,
        night_start_min: 0,
        night_end_hour: 7,
        night_end_min: 0,
        night_normal_brightness: 30,
        night_dim_brightness: 5,
        night_dim_after_secs: 30,
        night_off_after_secs: 60,
        night_no_off: false,
    }
}

impl Default for SleepSettings {
    fn default() -> (settings: Self)
        ensures
            settings == default_settings(),
    {
        SleepSettings {
            normal_brightness: 70,
            dim_brightness: 20,
            dim_after_secs: 60,
            off_after_secs: 120,
            no_off: false,
            night_enabled: false,
            night_start_hour: 22,
            night_start_min: 0,
            night_end_hour: 7,
            night_end_min: 0,
            night_normal_brightness: 30,
            night_dim_brightness: 5,
            night_dim_after_secs: 30,
            night_off_after_secs: 60,
            night_no_off: false,
        }
    }
}

impl SleepSettings {
    /// Minute of the day at which the night begins.
    pub open spec fn night_start(self) -> int {
        self.night_start_hour * 60 + self.night_start_min
    }

    /// Minute of the day at which the night ends.
    pub open spec fn night_end(self) -> int {
        self.night_end_hour * 60 + self.night_end_min
    }

    /// The night values are in force at `now`.
    pub open spec fn night_at(self, now: WallClock) -> bool {
        self.night_enabled && in_window(self.night_start(), self.night_end(), now.minutes())
    }

    /// Seconds without activity until the deck is switched off.
    pub open spec fn off_delay(self, night: bool) -> int {
        if night {
            self.night_dim_after_secs + self.night_off_after_secs
        } else {
            self.dim_after_secs + self.off_after_secs
        }
    }

    /// The delay in force at `now` fits the machine's integers.
    pub open spec fn fits_at(self, now: WallClock) -> bool {
        self.off_delay(self.night_at(now)) <= u64::MAX
    }

    /// The delay in force fits the machine's integers at every time of day.
    pub open spec fn fits(self) -> bool {
        forall|now: WallClock| #[trigger] now.wf() ==> self.fits_at(now)
    }

    /// The day or the night values.
    pub open spec fn values(self, night: bool) -> EffSettings {
        if night {
            EffSettings {
                normal_br: self.night_normal_brightness,
                dim_br: self.night_dim_brightness,
                dim_at: self.night_dim_after_secs,
                off_at: self.off_delay(true) as u64,
                no_off: self.night_no_off,
                is_night: true,
            }
        } else {
            EffSettings {
                normal_br: self.normal_brightness,
                dim_br: self.dim_brightness,
                dim_at: self.dim_after_secs,
                off_at: self.off_delay(false) as u64,
                no_off: self.no_off,
                is_night: false,
            }
        }
    }

    /// The values in force at `now`.
    pub open spec fn values_at(self, now: WallClock) -> EffSettings {
        self.values(self.night_at(now))
    }

    /// Whether [`effective`] can add up the delays at every time of day.
    pub fn delays_fit(&self) -> (b: bool)
        ensures
            b == self.fits(),
    {
        let day_fits = self.off_after_secs <= u64::MAX - self.dim_after_secs;
        let night_fits = self.night_off_after_secs <= u64::MAX - self.night_dim_after_secs;
        let start: u16 = self.night_start_hour as u16 * 60 + self.night_start_min as u16;
        let end: u16 = self.night_end_hour as u16 * 60 + self.night_end_min as u16;
        // Whether some minute of the day lies inside the window, and some outside.
        let opens = if start <= end {
            start < end && start < 1440
        } else {
            start < 1440 || end > 0
        };
        let closes = if start <= end {
            start > 0 || end < 1440
        } else {
            end < 1440
        };
        let some_night = self.night_enabled && opens;
        let some_day = !self.night_enabled || closes;
        proof {
            let midnight = WallClock { hour: 0, minute: 0 };
            assert(midnight.wf());
            if start < 1440 {
                clock_at_minute(start as int);
            }
            if end < 1440 {
                clock_at_minute(end as int);
            }
            if some_night {
                let witness = if start < 1440 { clock_at(start as int) } else { midnight };
                assert(witness.wf() && self.night_at(witness));
            }
            if some_day {
                let witness = if end < 1440 { clock_at(end as int) } else { midnight };
                assert(witness.wf() && !self.night_at(witness));
            }
            assert forall|now: WallClock| #[trigger] now.wf() implies {
                &&& self.night_at(now) ==> some_night
                &&& !self.night_at(now) ==> some_day
            } by {
                assert(now.minutes() < 1440);
            }
        }
        (!some_night || night_fits) && (!some_day || day_fits)
    }
}

/// The reading of a clock `t` minutes after midnight.
spec fn clock_at(t: int) -> WallClock {
    WallClock { hour: (t / 60) as u32, minute: (t % 60) as u32 }
}

proof fn clock_at_minute(t: int)
    requires
        0 <= t < 1440,
    ensures
        clock_at(t).wf(),
        clock_at(t).minutes() == t,
{
}

/// The day or the night values of `s`.
fn effective_when(s: &SleepSettings, is_night: bool) -> (eff: EffSettings)
    requires
        s.off_delay(is_night) <= u64::MAX,
    ensures
        eff == s.values(is_night),
{
    if is_night {
        EffSettings {
            normal_br: s.night_normal_brightness,
            dim_br: s.night_dim_brightness,
            dim_at: s.night_dim_after_secs,
            off_at: s.night_dim_after_secs + s.night_off_after_secs,
            no_off: s.night_no_off,
            is_night: true,
        }
    } else {
        EffSettings {
            normal_br: s.normal_brightness,
            dim_br: s.dim_brightness,
            dim_at: s.dim_after_secs,
            off_at: s.dim_after_secs + s.off_after_secs,
            no_off: s.no_off,
            is_night: false,
        }
    }
}

/// The values of `s` that are in force at `now`.
pub fn effective_at(s: &SleepSettings, now: &WallClock) -> (eff: EffSettings)
    requires
        now.wf(),
        s.fits_at(*now),
    ensures
        eff == s.values_at(*now),
{
    let is_night = s.night_enabled && is_night_at(
        s.night_start_hour,
        s.night_start_min,
        s.night_end_hour,
        s.night_end_min,
        now,
    );
    effective_when(s, is_night)
}

/// The values of `s` that are in force now, by the local clock, which is read
/// only where the night mode is enabled.
pub fn effective(s: &SleepSettings) -> (eff: EffSettings)
    requires
        s.fits(),
    ensures
        exists|now: WallClock| #[trigger] now.wf() && eff == s.values_at(now),
        s.night_enabled ==> exists|now: WallClock| #[trigger]
            shown(now) && now.wf() && eff == s.values_at(now),
        !s.night_enabled ==> eff == s.values(false),
{
    let is_night = s.night_enabled && is_night_time(
        s.night_start_hour,
        s.night_start_min,
        s.night_end_hour,
        s.night_end_min,
    );
    proof {
        let midnight = WallClock { hour: 0, minute: 0 };
        assert(midnight.wf());
    }
    effective_when(s, is_night)
}

} // verus!

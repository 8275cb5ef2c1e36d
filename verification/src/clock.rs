//! Readings of the two clocks that the library works with: the local time of
//! day, which selects the day or the night values, and the monotonic clock,
//! from which the idle time is taken.
use chrono::Timelike;
use vstd::prelude::*;

verus! {

/// A local time of day, to the minute.
#[derive(Clone, Copy, PartialEq, Eq, Structural, Debug)]
pub struct WallClock {
    pub hour: u32,
    pub minute: u32,
}

impl WallClock {
    /// The reading is one that a clock shows.
    pub open spec fn wf(self) -> bool {
        self.hour < 24 && self.minute < 60
    }

    /// Minutes since midnight.
    pub open spec fn minutes(self) -> int {
        self.hour * 60 + self.minute
    }
}

/// `t` lies in the window that opens at `start` and closes at `end`, all three
/// in minutes since midnight. A window that closes before it opens crosses
/// midnight.
pub open spec fn in_window(start: int, end: int, t: int) -> bool {
    if start <= end {
        start <= t < end
    } else {
        start <= t || t < end
    }
}

/// Reads the local time of day: `chrono::Local::now`, of which the result is
/// taken apart by `Timelike::hour` and `Timelike::minute`.
///
/// Claimed is only what holds of every reading: the hour is from 0 to 23 and
/// the minute from 0 to 59. Which time it is rests on the system clock and the
/// time zone of the machine. `Local::now` has no argument; it panics where
/// the system clock stands before 1970.
#[verifier::external_body]
fn local_clock() -> (now: WallClock)
    ensures
        now.wf(),
{
    let now = chrono::Local::now();
    WallClock { hour: now.hour(), minute: now.minute() }
}

/// A reading of the local clock: one that a call of [`local_clock`] returned.
/// Nothing but such a call gives one, so a result that is stated of a shown
/// reading rests on what the clock showed, and on no other time of day.
pub closed spec fn shown(now: WallClock) -> bool {
    call_ensures(local_clock, (), now)
}

/// What counts as shown is what the call returns, neither more nor less.
proof fn shown_is_returned(now: WallClock)
    ensures
        shown(now) <==> call_ensures(local_clock, (), now),
{
}

/// What the local clock shows is a time of day.
pub proof fn shown_reading_is_a_time_of_day(now: WallClock)
    requires
        shown(now),
    ensures
        now.hour < 24,
        now.minute < 60,
{
}

/// Whether the clock shows a time inside the window from `start_h:start_m` to
/// `end_h:end_m`.
pub fn is_night_at(start_h: u8, start_m: u8, end_h: u8, end_m: u8, now: &WallClock) -> (night: bool)
    requires
        now.wf(),
    ensures
        night == in_window(start_h * 60 + start_m, end_h * 60 + end_m, now.minutes()),
{
    let cur: u16 = now.hour as u16 * 60 + now.minute as u16;
    let sta: u16 = start_h as u16 * 60 + start_m as u16;
    let end: u16 = end_h as u16 * 60 + end_m as u16;
    if sta <= end {
        cur >= sta && cur < end
    } else {
        cur >= sta || cur < end
    }
}

/// Whether it is now, by the local clock, inside the window from
/// `start_h:start_m` to `end_h:end_m`.
pub fn is_night_time(start_h: u8, start_m: u8, end_h: u8, end_m: u8) -> (night: bool)
    ensures
        exists|now: WallClock| #[trigger]
            shown(now) && now.wf() && night == in_window(
                start_h * 60 + start_m,
                end_h * 60 + end_m,
                now.minutes(),
            ),
{
    let now = local_clock();
    assert(shown(now));
    is_night_at(start_h, start_m, end_h, end_m, &now)
}

/// A reading of a monotonic clock: nanoseconds since some fixed moment before
/// every reading.
#[derive(Clone, Copy, PartialEq, Eq, Structural, Debug)]
pub struct Moment {
    pub nanos: u64,
}

impl Moment {
    /// Whole seconds from `since` to `self`, and none if `since` is the later
    /// of the two.
    pub open spec fn secs_since(self, since: Moment) -> u64 {
        if since.nanos <= self.nanos {
            ((self.nanos - since.nanos) / 1_000_000_000) as u64
        } else {
            0
        }
    }

    /// Whole seconds that have passed from `since` until this reading.
    pub fn elapsed_since(&self, since: &Moment) -> (secs: u64)
        ensures
            secs == self.secs_since(*since),
    {
        if since.nanos <= self.nanos {
            (self.nanos - since.nanos) / 1_000_000_000
        } else {
            0
        }
    }
}

/// A window that closes when it opens is empty: with equal ends it is never
/// night.
pub proof fn window_with_equal_ends_is_empty(at: int, t: int)
    ensures
        !in_window(at, at, t),
{
}

/// Exchanging the ends of a window gives the rest of the day: at every time
/// exactly one of the two windows is open.
pub proof fn exchanged_ends_give_the_complement(start: int, end: int, t: int)
    requires
        start != end,
    ensures
        in_window(start, end, t) == !in_window(end, start, t),
{
}

/// Where both ends are times of the day, the window is read round the clock:
/// a time is inside if, going forward from the start, it comes before the end.
pub proof fn window_is_read_round_the_clock(start: int, end: int, t: int)
    requires
        0 <= start < 1440,
        0 <= end < 1440,
        0 <= t < 1440,
    ensures
        in_window(start, end, t) == ((t - start) % 1440 < (end - start) % 1440),
{
}

} // verus!

use chrono::Timelike;
use sleepmode::clock::{is_night_at, is_night_time, Moment, WallClock};

fn clock(hour: u32, minute: u32) -> WallClock {
    WallClock { hour, minute }
}

#[test]
fn night_within_one_day() {
    assert!(!is_night_at(1, 30, 5, 45, &clock(1, 29)));
    assert!(is_night_at(1, 30, 5, 45, &clock(1, 30)));
    assert!(is_night_at(1, 30, 5, 45, &clock(5, 44)));
    assert!(!is_night_at(1, 30, 5, 45, &clock(5, 45)));
}

#[test]
fn night_across_midnight() {
    assert!(!is_night_at(22, 30, 7, 15, &clock(22, 29)));
    assert!(is_night_at(22, 30, 7, 15, &clock(22, 30)));
    assert!(is_night_at(22, 30, 7, 15, &clock(23, 59)));
    assert!(is_night_at(22, 30, 7, 15, &clock(0, 0)));
    assert!(is_night_at(22, 30, 7, 15, &clock(7, 14)));
    assert!(!is_night_at(22, 30, 7, 15, &clock(7, 15)));
    assert!(!is_night_at(22, 30, 7, 15, &clock(12, 0)));
}

#[test]
fn equal_ends_make_no_night() {
    for hour in 0..24 {
        for minute in 0..60 {
            assert!(!is_night_at(13, 20, 13, 20, &clock(hour, minute)));
        }
    }
}

#[test]
fn exchanged_ends_make_the_rest_of_the_day() {
    for hour in 0..24 {
        for minute in 0..60 {
            let now = clock(hour, minute);
            assert_ne!(is_night_at(22, 30, 7, 15, &now), is_night_at(7, 15, 22, 30, &now));
        }
    }
}

#[test]
fn ends_beyond_the_day_are_taken_as_they_are() {
    assert!(is_night_at(0, 0, 24, 0, &clock(23, 59)));
    assert!(!is_night_at(24, 0, 255, 255, &clock(0, 0)));
    assert!(is_night_at(255, 255, 1, 0, &clock(0, 59)));
    assert!(!is_night_at(255, 255, 1, 0, &clock(1, 0)));
}

#[test]
fn window_round_the_clock() {
    for (start, end) in [(22 * 60 + 30, 7 * 60 + 15), (60, 120), (0, 1439), (1439, 0)] {
        for t in 0..1440i32 {
            let now = clock(t as u32 / 60, t as u32 % 60);
            let night = is_night_at(
                (start / 60) as u8,
                (start % 60) as u8,
                (end / 60) as u8,
                (end % 60) as u8,
                &now,
            );
            assert_eq!(night, (t - start).rem_euclid(1440) < (end - start).rem_euclid(1440));
        }
    }
}

#[test]
fn local_time_is_the_one_that_counts() {
    assert!(is_night_time(0, 0, 24, 0));
    assert!(!is_night_time(9, 0, 9, 0));
    loop {
        let before = chrono::Local::now();
        let (hour, minute) = (before.hour() as u8, before.minute() as u8);
        let this_minute = is_night_time(hour, minute, hour, minute + 1);
        let other_minutes = is_night_time(hour, minute + 1, hour, minute);
        let after = chrono::Local::now();
        if (after.hour() as u8, after.minute() as u8) == (hour, minute) {
            assert!(this_minute);
            assert!(!other_minutes);
            return;
        }
    }
}

#[test]
fn elapsed_time_in_whole_seconds() {
    let since = Moment { nanos: 500_000_000 };
    assert_eq!(Moment { nanos: 500_000_000 }.elapsed_since(&since), 0);
    assert_eq!(Moment { nanos: 1_499_999_999 }.elapsed_since(&since), 0);
    assert_eq!(Moment { nanos: 1_500_000_000 }.elapsed_since(&since), 1);
    assert_eq!(Moment { nanos: 61_400_000_000 }.elapsed_since(&since), 60);
}

#[test]
fn elapsed_time_is_never_negative() {
    let since = Moment { nanos: 5_000_000_000 };
    assert_eq!(Moment { nanos: 1_000_000_000 }.elapsed_since(&since), 0);
}

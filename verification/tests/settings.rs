use sleepmode::clock::WallClock;
use sleepmode::settings::{effective, effective_at, EffSettings, SleepSettings};

fn clock(hour: u32, minute: u32) -> WallClock {
    WallClock { hour, minute }
}

#[test]
fn default_values() {
    let s = SleepSettings::default();
    assert_eq!(s.normal_brightness, 70);
    assert_eq!(s.dim_brightness, 20);
    assert_eq!(s.dim_after_secs, 60);
    assert_eq!(s.off_after_secs, 120);
    assert!(!s.no_off);
    assert!(!s.night_enabled);
    assert_eq!((s.night_start_hour, s.night_start_min), (22, 0));
    assert_eq!((s.night_end_hour, s.night_end_min), (7, 0));
    assert_eq!(s.night_normal_brightness, 30);
    assert_eq!(s.night_dim_brightness, 5);
    assert_eq!(s.night_dim_after_secs, 30);
    assert_eq!(s.night_off_after_secs, 60);
    assert!(!s.night_no_off);
}

#[test]
fn day_values() {
    let s = SleepSettings { night_enabled: true, night_no_off: true, ..SleepSettings::default() };
    let expected = EffSettings {
        normal_br: 70,
        dim_br: 20,
        dim_at: 60,
        off_at: 180,
        no_off: false,
        is_night: false,
    };
    assert_eq!(effective_at(&s, &clock(7, 0)), expected);
    assert_eq!(effective_at(&s, &clock(21, 59)), expected);
}

#[test]
fn night_values() {
    let s = SleepSettings { night_enabled: true, night_no_off: true, ..SleepSettings::default() };
    let expected = EffSettings {
        normal_br: 30,
        dim_br: 5,
        dim_at: 30,
        off_at: 90,
        no_off: true,
        is_night: true,
    };
    assert_eq!(effective_at(&s, &clock(22, 0)), expected);
    assert_eq!(effective_at(&s, &clock(6, 59)), expected);
}

#[test]
fn day_values_without_night_mode() {
    let s = SleepSettings::default();
    assert_eq!(effective_at(&s, &clock(23, 0)), effective_at(&s, &clock(12, 0)));
    assert_eq!(effective(&s), effective_at(&s, &clock(12, 0)));
}

#[test]
fn values_by_the_local_clock() {
    let all_day = SleepSettings {
        night_enabled: true,
        night_start_hour: 0,
        night_end_hour: 24,
        ..SleepSettings::default()
    };
    assert!(effective(&all_day).is_night);
    assert_eq!(effective(&all_day).normal_br, 30);
    let never = SleepSettings { night_start_hour: 7, ..all_day };
    let never = SleepSettings { night_end_hour: 7, ..never };
    assert!(!effective(&never).is_night);
}

#[test]
fn delays_that_fit() {
    assert!(SleepSettings::default().delays_fit());
    let s = SleepSettings { off_after_secs: u64::MAX - 60, ..SleepSettings::default() };
    assert!(s.delays_fit());
    assert_eq!(effective_at(&s, &clock(0, 0)).off_at, u64::MAX);
}

#[test]
fn delays_that_do_not_fit() {
    let day = SleepSettings { off_after_secs: u64::MAX - 59, ..SleepSettings::default() };
    assert!(!day.delays_fit());
    let night = SleepSettings { night_off_after_secs: u64::MAX, ..SleepSettings::default() };
    assert!(night.delays_fit());
    assert!(!SleepSettings { night_enabled: true, ..night }.delays_fit());
}

#[test]
fn delays_that_never_come_into_force_do_not_count() {
    let all_night = SleepSettings {
        night_enabled: true,
        night_start_hour: 0,
        night_end_hour: 24,
        off_after_secs: u64::MAX,
        ..SleepSettings::default()
    };
    assert!(all_night.delays_fit());
    assert!(!SleepSettings { night_start_min: 1, ..all_night }.delays_fit());
    let no_night = SleepSettings {
        night_enabled: true,
        night_start_hour: 24,
        night_end_hour: 0,
        night_off_after_secs: u64::MAX,
        ..SleepSettings::default()
    };
    assert!(no_night.delays_fit());
    assert!(!SleepSettings { night_end_min: 1, ..no_night }.delays_fit());
}

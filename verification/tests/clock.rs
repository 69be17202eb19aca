use easi_publish::{today_ymd, Clock};

// 2020-01-02T23:30:00Z
const LATE_EVENING: i64 = 1_578_007_800;

#[test]
fn fixed_clock_date_ignores_offset_and_time() {
    let clock = Clock::Fixed { year: 2020, month: 1, day: 2 };
    assert_eq!(today_ymd(clock, None, 0), Some((2020, 1, 2)));
    assert_eq!(today_ymd(clock, Some(3600), LATE_EVENING), Some((2020, 1, 2)));
}

#[test]
fn utc_clock_uses_the_utc_date() {
    assert_eq!(today_ymd(Clock::Utc, None, 0), Some((1970, 1, 1)));
    assert_eq!(today_ymd(Clock::Utc, None, LATE_EVENING), Some((2020, 1, 2)));
}

#[test]
fn explicit_offset_is_absolute() {
    // One hour east of UTC it is already the next day.
    assert_eq!(today_ymd(Clock::Utc, Some(3600), LATE_EVENING), Some((2020, 1, 3)));
    assert_eq!(today_ymd(Clock::SystemLocal, Some(3600), LATE_EVENING), Some((2020, 1, 3)));
    assert_eq!(today_ymd(Clock::Utc, Some(-86_399), LATE_EVENING), Some((2020, 1, 1)));
}

#[test]
fn out_of_range_offsets_yield_nothing() {
    assert_eq!(today_ymd(Clock::Utc, Some(86_400), LATE_EVENING), None);
    assert_eq!(today_ymd(Clock::SystemLocal, Some(i64::MAX), LATE_EVENING), None);
    assert_eq!(today_ymd(Clock::Utc, Some(i64::from(i32::MIN) - 1), 0), None);
}

#[test]
fn local_clock_yields_a_calendar_date() {
    let (_, m, d) = today_ymd(Clock::SystemLocal, None, LATE_EVENING).unwrap();
    assert!((1..=12).contains(&m));
    assert!((1..=31).contains(&d));
}

#[test]
fn the_edge_of_the_calendar_yields_nothing() {
    // The last second chrono can represent: 262142-12-31T23:59:59Z.
    const LAST: i64 = 8_210_266_876_799;
    assert_eq!(today_ymd(Clock::Utc, None, LAST), Some((262_142, 12, 31)));
    assert_eq!(today_ymd(Clock::Utc, Some(3600), LAST), None);
    assert_eq!(today_ymd(Clock::Utc, Some(-3600), LAST), Some((262_142, 12, 31)));
    assert_eq!(today_ymd(Clock::Utc, None, i64::MAX), None);
    // The host zone may or may not move past the edge, but never panics.
    let _ = today_ymd(Clock::SystemLocal, None, LAST);
}

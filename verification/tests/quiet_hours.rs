use alertbot::clock::TimeOfDay;
use alertbot::config::QuietHours;

fn at(hour: u32, minute: u32) -> TimeOfDay {
    TimeOfDay::from_hms(hour, minute, 0).unwrap()
}

#[test]
fn overnight_window_covers_late_evening() {
    let window = QuietHours::new(at(22, 0), at(7, 0));
    assert!(window.is_quiet(at(23, 30)));
}

#[test]
fn overnight_window_leaves_midday_free() {
    let window = QuietHours::new(at(22, 0), at(7, 0));
    assert!(!window.is_quiet(at(12, 0)));
}

#[test]
fn daytime_window_covers_morning() {
    let window = QuietHours::new(at(9, 0), at(17, 0));
    assert!(window.is_quiet(at(10, 0)));
}

#[test]
fn daytime_window_leaves_evening_free() {
    let window = QuietHours::new(at(9, 0), at(17, 0));
    assert!(!window.is_quiet(at(20, 0)));
}

#[test]
fn window_starts_at_its_start_and_stops_before_its_end() {
    let day = QuietHours::new(at(9, 0), at(17, 0));
    assert!(day.is_quiet(at(9, 0)));
    assert!(!day.is_quiet(at(17, 0)));
    assert!(!day.is_quiet(at(8, 59)));
    assert!(day.is_quiet(at(16, 59)));

    let night = QuietHours::new(at(22, 0), at(7, 0));
    assert!(night.is_quiet(at(22, 0)));
    assert!(!night.is_quiet(at(7, 0)));
    assert!(night.is_quiet(at(0, 0)));
    assert!(night.is_quiet(at(6, 59)));
    assert!(!night.is_quiet(at(21, 59)));
}

#[test]
fn window_of_no_length_is_never_quiet() {
    let window = QuietHours::new(at(8, 0), at(8, 0));
    assert!(!window.is_quiet(at(8, 0)));
    assert!(!window.is_quiet(at(7, 59)));
    assert!(!window.is_quiet(at(23, 0)));
}

#[test]
fn nanoseconds_break_ties_between_equal_seconds() {
    let start = TimeOfDay { secs: 100, nanos: 500 };
    let end = TimeOfDay { secs: 100, nanos: 900 };
    let window = QuietHours::new(start, end);
    assert!(!window.is_quiet(TimeOfDay { secs: 100, nanos: 499 }));
    assert!(window.is_quiet(TimeOfDay { secs: 100, nanos: 500 }));
    assert!(window.is_quiet(TimeOfDay { secs: 100, nanos: 899 }));
    assert!(!window.is_quiet(TimeOfDay { secs: 100, nanos: 900 }));
}

#[test]
fn window_reports_its_bounds() {
    let window = QuietHours::new(at(22, 0), at(7, 0));
    assert_eq!(window.start(), TimeOfDay { secs: 79_200, nanos: 0 });
    assert_eq!(window.end(), TimeOfDay { secs: 25_200, nanos: 0 });
}

#[test]
fn from_hms_counts_seconds_since_midnight() {
    assert_eq!(TimeOfDay::from_hms(0, 0, 0), Some(TimeOfDay { secs: 0, nanos: 0 }));
    assert_eq!(TimeOfDay::from_hms(1, 2, 3), Some(TimeOfDay { secs: 3723, nanos: 0 }));
    assert_eq!(TimeOfDay::from_hms(23, 59, 59), Some(TimeOfDay { secs: 86_399, nanos: 0 }));
}

#[test]
fn from_hms_rejects_parts_out_of_range() {
    assert_eq!(TimeOfDay::from_hms(24, 0, 0), None);
    assert_eq!(TimeOfDay::from_hms(0, 60, 0), None);
    assert_eq!(TimeOfDay::from_hms(0, 0, 60), None);
    assert_eq!(TimeOfDay::from_hms(u32::MAX, u32::MAX, u32::MAX), None);
}

#[test]
fn is_before_orders_by_seconds_then_nanoseconds() {
    let a = TimeOfDay { secs: 10, nanos: 999 };
    let b = TimeOfDay { secs: 11, nanos: 0 };
    assert!(a.is_before(&b));
    assert!(!b.is_before(&a));
    assert!(!a.is_before(&a));
    assert!(TimeOfDay { secs: 10, nanos: 1 }.is_before(&TimeOfDay { secs: 10, nanos: 2 }));
}

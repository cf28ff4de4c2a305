use alertbot::clock::{TimeOfDay, Timestamp};
use alertbot::config::{AlertConfig, Config, QuietHours};
use alertbot::coordinator::{Action, Coordinator, Event, CLEANUP_INTERVAL_SECS};
use alertbot::feed::{FeedError, RawRecord};
use alertbot::relay::Outcome;
use std::time::Duration;

fn strings(items: &[&str]) -> Vec<String> {
    items.iter().map(|s| s.to_string()).collect()
}

fn config(accepted: &[&str], poll_secs: u64, quiet: Option<QuietHours>) -> Config {
    Config {
        alerts: AlertConfig {
            alerts_channel: 42,
            alert_types: strings(accepted),
            check_interval: Duration::from_secs(poll_secs),
            areas: strings(&["ILZ014", "ILC031"]),
        },
        quiet_hours: quiet,
    }
}

fn at(hour: u32, minute: u32) -> TimeOfDay {
    TimeOfDay::from_hms(hour, minute, 0).unwrap()
}

const ONE_WARNING: &[u8] = br#"{"features":[{"properties":{"category":"Warning","headline":"H","description":"D","ends":"2024-05-01T18:30:00-05:00"}}]}"#;
const SAME_WARNING_LATER_END: &[u8] = br#"{"features":[{"properties":{"category":"Warning","headline":"H","description":"D","ends":"2024-05-02T06:00:00-05:00"}}]}"#;

fn announcements(action: &Action) -> Vec<String> {
    match action {
        Action::Deliver { outcomes, .. } => outcomes
            .iter()
            .filter_map(|o| match o {
                Outcome::Announce(text) => Some(text.clone()),
                _ => None,
            })
            .collect(),
        _ => Vec::new(),
    }
}

#[test]
fn one_accepted_feature_is_announced_exactly_once() {
    let mut core = Coordinator::new(config(&["Warning"], 60, None));
    let first = core.step(Event::Response { status: 200, body: ONE_WARNING.to_vec() });
    assert_eq!(
        first,
        Action::Deliver {
            channel: 42,
            outcomes: vec![Outcome::Announce(
                "**New alert**:\nCategory: Warning\nH\nD".to_string()
            )],
        }
    );
    assert_eq!(core.store().len(), 1);

    let second = core.step(Event::Response { status: 200, body: ONE_WARNING.to_vec() });
    assert_eq!(second, Action::Deliver { channel: 42, outcomes: vec![Outcome::Duplicate] });
    assert!(announcements(&second).is_empty());
    assert_eq!(core.store().len(), 1);
}

#[test]
fn feature_without_ends_is_dropped_without_failure() {
    let mut core = Coordinator::new(config(&["Warning"], 60, None));
    let body = br#"{"features":[{"properties":{"category":"Warning","headline":"H","description":"D"}}]}"#;
    let action = core.step(Event::Response { status: 200, body: body.to_vec() });
    assert_eq!(action, Action::Deliver { channel: 42, outcomes: vec![Outcome::NoEndTime] });
    assert!(announcements(&action).is_empty());
    assert_eq!(core.store().len(), 0);
}

#[test]
fn resend_with_a_new_end_time_is_not_announced_again() {
    let mut core = Coordinator::new(config(&["Warning"], 60, None));
    let first = core.on_response(200, ONE_WARNING);
    assert_eq!(announcements(&first).len(), 1);
    let second = core.on_response(200, SAME_WARNING_LATER_END);
    assert!(announcements(&second).is_empty());
    let third = core.on_response(200, ONE_WARNING);
    assert!(announcements(&third).is_empty());
    assert_eq!(core.store().len(), 1);
}

#[test]
fn same_alert_twice_in_one_answer_is_announced_once() {
    let mut core = Coordinator::new(config(&["Warning"], 60, None));
    let body = br#"{"features":[
        {"properties":{"category":"Warning","headline":"H","description":"D","ends":"2024-05-01T18:30:00-05:00"}},
        {"properties":{"category":"Warning","headline":"H","description":"D","ends":"2024-05-03T18:30:00-05:00"}}
    ]}"#;
    let action = core.on_response(200, body);
    assert_eq!(
        action,
        Action::Deliver {
            channel: 42,
            outcomes: vec![
                Outcome::Announce("**New alert**:\nCategory: Warning\nH\nD".to_string()),
                Outcome::Duplicate,
            ],
        }
    );
}

#[test]
fn entry_without_text_never_enters_the_store() {
    let mut core = Coordinator::new(config(&["", "Warning"], 60, None));
    let body = br#"{"features":[
        {"properties":{"ends":"2024-05-01T18:30:00-05:00"}},
        {"properties":{"category":"","headline":"","description":"","ends":"2024-05-01T18:30:00-05:00"}}
    ]}"#;
    let action = core.on_response(200, body);
    assert_eq!(
        action,
        Action::Deliver { channel: 42, outcomes: vec![Outcome::Blank, Outcome::Blank] }
    );
    assert!(core.store().is_empty());
}

#[test]
fn entry_of_an_unlisted_category_never_enters_the_store() {
    let mut core = Coordinator::new(config(&["Watch"], 60, None));
    let action = core.on_response(200, ONE_WARNING);
    assert_eq!(action, Action::Deliver { channel: 42, outcomes: vec![Outcome::NotAccepted] });
    assert!(core.store().is_empty());
}

#[test]
fn one_bad_entry_does_not_stop_the_batch() {
    let mut core = Coordinator::new(config(&["Warning"], 60, None));
    let body = br#"{"features":[
        {"properties":{"category":"Warning","headline":"A","description":"","ends":"never"}},
        {"properties":{"category":"Other","headline":"B","description":"","ends":"2024-05-01T18:30:00Z"}},
        {"bogus":true},
        {"properties":{"category":"Warning","headline":"C","description":"c","ends":"2024-05-01T18:30:00Z"}}
    ]}"#;
    let action = core.on_response(200, body);
    assert_eq!(
        action,
        Action::Deliver {
            channel: 42,
            outcomes: vec![
                Outcome::NoEndTime,
                Outcome::NotAccepted,
                Outcome::NotAccepted,
                Outcome::Announce("**New alert**:\nCategory: Warning\nC\nc".to_string()),
            ],
        }
    );
    assert_eq!(core.store().len(), 1);
}

#[test]
fn entry_dropped_for_its_end_time_is_taken_once_the_feed_mends_it() {
    let mut core = Coordinator::new(config(&["Warning"], 60, None));
    let broken = br#"{"features":[{"properties":{"category":"Warning","headline":"H","description":"D","ends":"soon"}}]}"#;
    assert!(announcements(&core.on_response(200, broken)).is_empty());
    assert_eq!(announcements(&core.on_response(200, ONE_WARNING)).len(), 1);
}

#[test]
fn status_outside_the_two_hundreds_is_rejected() {
    let mut core = Coordinator::new(config(&["Warning"], 60, None));
    for status in [0u16, 100, 199, 300, 304, 404, 500, 503, u16::MAX] {
        let action = core.on_response(status, ONE_WARNING);
        assert_eq!(action, Action::Rejected(FeedError::Status(status)));
        assert!(core.store().is_empty());
    }
    for status in [200u16, 204, 299] {
        let mut fresh = Coordinator::new(config(&["Warning"], 60, None));
        assert_eq!(announcements(&fresh.on_response(status, ONE_WARNING)).len(), 1);
    }
}

#[test]
fn body_that_is_not_json_is_rejected() {
    let mut core = Coordinator::new(config(&["Warning"], 60, None));
    core.on_response(200, ONE_WARNING);
    let action = core.step(Event::Response { status: 200, body: b"<html>busy</html>".to_vec() });
    assert_eq!(action, Action::Rejected(FeedError::InvalidJson));
    assert_eq!(core.store().len(), 1);
}

#[test]
fn failed_fetch_changes_nothing() {
    let mut core = Coordinator::new(config(&["Warning"], 60, None));
    core.on_response(200, ONE_WARNING);
    assert_eq!(core.step(Event::FetchFailed), Action::Wait);
    assert_eq!(core.store().len(), 1);
    assert!(announcements(&core.on_response(200, ONE_WARNING)).is_empty());
}

#[test]
fn fetch_tick_asks_for_the_configured_areas() {
    let mut core = Coordinator::new(config(&["Warning"], 60, None));
    assert_eq!(
        core.step(Event::FetchTick(at(12, 0))),
        Action::Fetch("https://api.weather.gov/alerts/active?zone=ILZ014,ILC031".to_string())
    );
}

#[test]
fn fetch_tick_in_quiet_hours_is_skipped() {
    let quiet = QuietHours::new(at(22, 0), at(7, 0));
    let mut core = Coordinator::new(config(&["Warning"], 60, Some(quiet)));
    core.on_response(200, ONE_WARNING);
    assert_eq!(core.step(Event::FetchTick(at(23, 30))), Action::Wait);
    assert_eq!(core.step(Event::FetchTick(at(3, 0))), Action::Wait);
    assert_eq!(core.store().len(), 1);
    assert!(matches!(core.step(Event::FetchTick(at(12, 0))), Action::Fetch(_)));
    assert!(matches!(core.on_fetch_tick(at(7, 0)), Action::Fetch(_)));
}

#[test]
fn quiet_hours_pause_and_do_not_reset() {
    let quiet = QuietHours::new(at(22, 0), at(7, 0));
    let mut core = Coordinator::new(config(&["Warning"], 60, Some(quiet)));
    assert_eq!(announcements(&core.on_response(200, ONE_WARNING)).len(), 1);
    assert_eq!(core.step(Event::FetchTick(at(23, 0))), Action::Wait);
    assert!(announcements(&core.on_response(200, ONE_WARNING)).is_empty());
}

#[test]
fn cleanup_forgets_what_has_ended() {
    let mut core = Coordinator::new(config(&["Warning"], 60, None));
    core.on_response(200, ONE_WARNING);
    let before_end = Timestamp { secs: 1_714_588_199, nanos: 999_999_999 };
    assert_eq!(core.step(Event::CleanupTick(before_end)), Action::Pruned(0));
    assert_eq!(core.store().len(), 1);
    let at_end = Timestamp { secs: 1_714_588_200, nanos: 0 };
    assert_eq!(core.step(Event::CleanupTick(at_end)), Action::Pruned(1));
    assert!(core.store().is_empty());
    assert_eq!(announcements(&core.on_response(200, ONE_WARNING)).len(), 1);
}

#[test]
fn change_of_poll_interval_keeps_the_store() {
    let mut core = Coordinator::new(config(&["Warning"], 60, None));
    assert_eq!(announcements(&core.on_response(200, ONE_WARNING)).len(), 1);
    let action = core.step(Event::ConfigChanged(config(&["Warning"], 600, None)));
    assert_eq!(action, Action::Reschedule(Duration::from_secs(600)));
    assert_eq!(core.config().alerts.check_interval, Duration::from_secs(600));
    assert_eq!(core.store().len(), 1);
    assert!(announcements(&core.on_response(200, ONE_WARNING)).is_empty());
}

#[test]
fn config_change_replaces_every_setting() {
    let mut core = Coordinator::new(config(&["Warning"], 60, None));
    let replacement = Config {
        alerts: AlertConfig {
            alerts_channel: 7,
            alert_types: strings(&["Watch"]),
            check_interval: Duration::from_secs(5),
            areas: strings(&["X"]),
        },
        quiet_hours: Some(QuietHours::new(at(1, 0), at(2, 0))),
    };
    core.on_config_change(replacement);
    assert_eq!(core.config().alerts.alerts_channel, 7);
    assert_eq!(core.config().alerts.areas, strings(&["X"]));
    assert!(core.config().alerts.accepts("Watch"));
    assert!(!core.config().alerts.accepts("Warning"));
    assert_eq!(core.on_fetch_tick(at(1, 30)), Action::Wait);
    assert_eq!(
        core.on_fetch_tick(at(2, 0)),
        Action::Fetch("https://api.weather.gov/alerts/active?zone=X".to_string())
    );
    assert_eq!(
        core.on_response(200, ONE_WARNING),
        Action::Deliver { channel: 7, outcomes: vec![Outcome::NotAccepted] }
    );
}

#[test]
fn relay_takes_records_directly() {
    let mut core = Coordinator::new(config(&["Warning"], 60, None));
    let record = || RawRecord {
        category: Some("Warning".to_string()),
        headline: Some("H".to_string()),
        description: None,
        ends: Some("2024-05-01T18:30:00Z".to_string()),
    };
    let outcomes = core.relay(&vec![record(), record()]);
    assert_eq!(
        outcomes,
        vec![
            Outcome::Announce("**New alert**:\nCategory: Warning\nH\n".to_string()),
            Outcome::Duplicate
        ]
    );
}

#[test]
fn cleanup_runs_hourly() {
    assert_eq!(CLEANUP_INTERVAL_SECS, 3600);
}

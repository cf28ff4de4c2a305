use alertbot::roles::{get_role_suggestions, suggestion_line, Candidate, MAX_DISTANCE};
use alertbot::uptime::Uptime;
use alertbot::words::plural;

fn strings(items: &[&str]) -> Vec<String> {
    items.iter().map(|s| s.to_string()).collect()
}

#[test]
fn uptime_splits_seconds() {
    assert_eq!(Uptime::from_seconds(0), Uptime { days: 0, hours: 0, minutes: 0, seconds: 0 });
    assert_eq!(Uptime::from_seconds(59), Uptime { days: 0, hours: 0, minutes: 0, seconds: 59 });
    assert_eq!(Uptime::from_seconds(60), Uptime { days: 0, hours: 0, minutes: 1, seconds: 0 });
    assert_eq!(Uptime::from_seconds(3600), Uptime { days: 0, hours: 1, minutes: 0, seconds: 0 });
    assert_eq!(
        Uptime::from_seconds(86_399),
        Uptime { days: 0, hours: 23, minutes: 59, seconds: 59 }
    );
    assert_eq!(Uptime::from_seconds(86_400), Uptime { days: 1, hours: 0, minutes: 0, seconds: 0 });
    assert_eq!(Uptime::from_seconds(90_061), Uptime { days: 1, hours: 1, minutes: 1, seconds: 1 });
}

#[test]
fn uptime_splits_the_largest_span() {
    assert_eq!(
        Uptime::from_seconds(u64::MAX),
        Uptime { days: 213_503_982_334_601, hours: 7, minutes: 0, seconds: 15 }
    );
}

#[test]
fn uptime_parts_read_with_the_right_endings() {
    let up = Uptime::from_seconds(90_061 + 60);
    let line = format!(
        "{} day{}, {} hour{}, {} minute{}, {} second{}",
        up.days,
        plural(up.days),
        up.hours,
        plural(up.hours),
        up.minutes,
        plural(up.minutes),
        up.seconds,
        plural(up.seconds)
    );
    assert_eq!(line, "1 day, 1 hour, 2 minutes, 1 second");
}

#[test]
fn suggestions_list_the_names_within_three_edits() {
    let names = strings(&["sitting", "kitchen", "dog", "mittens"]);
    assert_eq!(
        get_role_suggestions("kitten", &names),
        Some("(*similar roles:*  sitting kitchen mittens)\n".to_string())
    );
}

#[test]
fn suggestions_stop_at_four_edits() {
    assert_eq!(MAX_DISTANCE, 3);
    assert_eq!(get_role_suggestions("abcd", &strings(&["wxyz"])), None);
    assert_eq!(
        get_role_suggestions("abcd", &strings(&["abcz", "abyz", "axyz", "wxyz"])),
        Some("(*similar roles:*  abcz abyz axyz)\n".to_string())
    );
}

#[test]
fn suggestions_count_characters_not_bytes() {
    assert_eq!(
        get_role_suggestions("\u{e9}\u{e9}\u{e9}\u{e9}", &strings(&["e"])),
        None
    );
    assert_eq!(
        get_role_suggestions("\u{e9}\u{e9}\u{e9}", &strings(&["eee"])),
        Some("(*similar roles:*  eee)\n".to_string())
    );
}

#[test]
fn no_names_give_no_suggestion() {
    assert_eq!(get_role_suggestions("anything", &Vec::new()), None);
    assert_eq!(get_role_suggestions("", &strings(&["longer"])), None);
}

#[test]
fn a_name_that_matches_is_suggested_too() {
    assert_eq!(
        get_role_suggestions("mods", &strings(&["mods"])),
        Some("(*similar roles:*  mods)\n".to_string())
    );
}

#[test]
fn suggestion_line_goes_by_the_given_distances() {
    let candidates = vec![
        Candidate { name: "far".to_string(), distance: 4 },
        Candidate { name: "near".to_string(), distance: 3 },
        Candidate { name: "same".to_string(), distance: 0 },
        Candidate { name: "off".to_string(), distance: usize::MAX },
    ];
    assert_eq!(suggestion_line(&candidates), Some("(*similar roles:*  near same)\n".to_string()));
    assert_eq!(suggestion_line(&Vec::new()), None);
    let empty_name = vec![Candidate { name: String::new(), distance: 0 }];
    assert_eq!(suggestion_line(&empty_name), Some("(*similar roles:*  )\n".to_string()));
}

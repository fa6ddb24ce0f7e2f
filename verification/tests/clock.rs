use omne_tui::clock::{format_updated_label_at, human_time_ago, parse_rfc3339_timestamp, time_ago_at};

const SEC: i128 = 1_000_000_000;

#[test]
fn parses_rfc3339_into_unix_nanoseconds() {
    assert_eq!(parse_rfc3339_timestamp("1970-01-01T00:00:01Z"), Some(SEC));
    assert_eq!(parse_rfc3339_timestamp("1970-01-01T01:00:00+01:00"), Some(0));
    assert_eq!(parse_rfc3339_timestamp("1970-01-01T00:00:00.5Z"), Some(SEC / 2));
    assert_eq!(parse_rfc3339_timestamp("not a time"), None);
    assert_eq!(parse_rfc3339_timestamp(""), None);
}

#[test]
fn time_ago_picks_the_unit() {
    assert_eq!(time_ago_at(0, 0), "0 seconds ago");
    assert_eq!(time_ago_at(SEC, 0), "1 second ago");
    assert_eq!(time_ago_at(59 * SEC + SEC / 2, 0), "59 seconds ago");
    assert_eq!(time_ago_at(90 * SEC, 0), "1 minute ago");
    assert_eq!(time_ago_at(3600 * SEC, 0), "1 hour ago");
    assert_eq!(time_ago_at(7199 * SEC, 0), "1 hour ago");
    assert_eq!(time_ago_at(2 * 86400 * SEC, 0), "2 days ago");
    // A time in the future counts as now.
    assert_eq!(time_ago_at(0, 5 * SEC), "0 seconds ago");
}

#[test]
fn human_time_ago_of_a_past_time_is_in_days() {
    let ts = parse_rfc3339_timestamp("2020-01-01T00:00:00Z").expect("parses");
    assert!(human_time_ago(ts).ends_with("days ago"));
}

#[test]
fn updated_label_falls_back_to_creation_then_dash() {
    let now = 120 * SEC;
    assert_eq!(
        format_updated_label_at(now, Some("1970-01-01T00:01:00Z"), Some("1970-01-01T00:00:00Z")),
        "1 minute ago"
    );
    assert_eq!(
        format_updated_label_at(now, Some("bad"), Some("1970-01-01T00:00:00Z")),
        "2 minutes ago"
    );
    assert_eq!(format_updated_label_at(now, None, None), "-");
    assert_eq!(format_updated_label_at(now, Some("bad"), None), "-");
}

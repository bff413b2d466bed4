use logcore::entry::{build_insert_message, build_insert_with, choose_timestamp, LogEntry, TextEntry};
use logcore::time::{current_timestamp, format_timestamp, is_timestamp, parse_timestamp, TimeParts};

fn parts(year: i32, month: u32, day: u32, hour: u32, minute: u32, second: u32) -> TimeParts {
    TimeParts { year, month, day, hour, minute, second }
}

#[test]
fn formats_with_zero_padding() {
    let s = format_timestamp(parts(2024, 1, 2, 3, 4, 5));
    assert_eq!(s, "2024-01-02 03:04:05");
}

#[test]
fn formats_the_largest_carriable_moment() {
    let s = format_timestamp(parts(9999, 12, 31, 23, 59, 59));
    assert_eq!(s, "9999-12-31 23:59:59");
}

#[test]
fn out_of_range_components_fall_back_to_epoch() {
    assert_eq!(format_timestamp(parts(10000, 1, 1, 0, 0, 0)), "1970-01-01 00:00:00");
    assert_eq!(format_timestamp(parts(-1, 1, 1, 0, 0, 0)), "1970-01-01 00:00:00");
    assert_eq!(format_timestamp(parts(2024, 13, 1, 0, 0, 0)), "1970-01-01 00:00:00");
    assert_eq!(format_timestamp(parts(2024, 1, 0, 0, 0, 0)), "1970-01-01 00:00:00");
    assert_eq!(format_timestamp(parts(2024, 1, 1, 24, 0, 0)), "1970-01-01 00:00:00");
}

#[test]
fn timestamp_shape_validator() {
    assert!(is_timestamp("2024-01-02 03:04:05"));
    assert!(is_timestamp("1970-01-01 00:00:00"));
    assert!(!is_timestamp(""));
    assert!(!is_timestamp("2024-01-02"));
    assert!(!is_timestamp("2024-01-02T03:04:05"));
    assert!(!is_timestamp("2024-01-02 03:04:0x"));
    assert!(!is_timestamp("2024-01-02 03:04:055"));
}

#[test]
fn current_time_is_a_parseable_timestamp() {
    let now = current_timestamp();
    assert_eq!(now.len(), 19);
    assert!(is_timestamp(&now));
    let parts = parse_timestamp(&now).expect("derived timestamps parse");
    assert!((1..=12).contains(&parts.month));
    assert!((1..=31).contains(&parts.day));
    assert!(parts.hour <= 23 && parts.minute <= 59 && parts.second <= 59);
}

#[test]
fn format_then_parse_round_trips() {
    let p = parts(2024, 12, 31, 23, 59, 59);
    let s = format_timestamp(p);
    let q = parse_timestamp(&s).unwrap();
    assert_eq!(
        (q.year, q.month, q.day, q.hour, q.minute, q.second),
        (2024, 12, 31, 23, 59, 59)
    );
}

#[test]
fn parsing_rejects_other_shapes() {
    assert!(parse_timestamp("").is_none());
    assert!(parse_timestamp("2024-1-2 3:4:5").is_none());
    assert!(parse_timestamp("yesterday at noon").is_none());
}

#[test]
fn supplied_timestamp_is_preserved_verbatim() {
    let picked = choose_timestamp(Some("not even a timestamp".to_string()));
    assert_eq!(picked, "not even a timestamp");
}

#[test]
fn omitted_timestamp_is_derived_and_parseable() {
    let picked = choose_timestamp(None);
    assert!(!picked.is_empty());
    assert!(is_timestamp(&picked));
}

#[test]
fn structured_insert_carries_key_value_timestamp() {
    let entry = LogEntry { key: "boot".to_string(), value: "ok".to_string() };
    let s = build_insert_with(entry, "2024-01-02 03:04:05".to_string());
    assert_eq!(s.sql, "INSERT INTO logs (key, value, timestamp) VALUES (?, ?, ?)");
    assert_eq!(
        s.params,
        vec![
            "boot".to_string(),
            "ok".to_string(),
            "2024-01-02 03:04:05".to_string()
        ]
    );
}

#[test]
fn free_text_insert_keeps_supplied_timestamp() {
    let entry = TextEntry {
        message: "hello".to_string(),
        timestamp: Some("whatever the client sent".to_string()),
    };
    let s = build_insert_message(entry);
    assert_eq!(s.sql, "INSERT INTO logs (message, timestamp) VALUES (?, ?)");
    assert_eq!(
        s.params,
        vec!["hello".to_string(), "whatever the client sent".to_string()]
    );
}

#[test]
fn free_text_insert_derives_missing_timestamp() {
    let entry = TextEntry { message: "hello".to_string(), timestamp: None };
    let s = build_insert_message(entry);
    assert_eq!(s.params.len(), 2);
    assert_eq!(s.params[0], "hello");
    assert!(is_timestamp(&s.params[1]));
}

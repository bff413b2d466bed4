use logcore::error::LogError;
use logcore::query::{build_query, screen_free_text, QueryFilter};

fn filter(
    key: Option<&str>,
    value_like: Option<&str>,
    from: Option<&str>,
    to: Option<&str>,
) -> QueryFilter {
    QueryFilter {
        key: key.map(|s| s.to_string()),
        value_like: value_like.map(|s| s.to_string()),
        from: from.map(|s| s.to_string()),
        to: to.map(|s| s.to_string()),
    }
}

const BASE: &str = "SELECT id, key, value, timestamp FROM logs WHERE 1=1";

#[test]
fn empty_filter_builds_base_statement() {
    let s = build_query(&filter(None, None, None, None));
    assert_eq!(s.sql, BASE);
    assert!(s.params.is_empty());
}

#[test]
fn key_filter_appends_exact_match() {
    let s = build_query(&filter(Some("boot"), None, None, None));
    assert_eq!(s.sql, format!("{} AND key = ?", BASE));
    assert_eq!(s.params, vec!["boot".to_string()]);
}

#[test]
fn value_like_filter_appends_pattern_match() {
    let s = build_query(&filter(None, Some("%err%"), None, None));
    assert_eq!(s.sql, format!("{} AND value LIKE ?", BASE));
    assert_eq!(s.params, vec!["%err%".to_string()]);
}

#[test]
fn from_filter_appends_strict_lower_bound() {
    let s = build_query(&filter(None, None, Some("2024-01-01 00:00:00"), None));
    assert_eq!(s.sql, format!("{} AND timestamp > ?", BASE));
    assert_eq!(s.params, vec!["2024-01-01 00:00:00".to_string()]);
}

#[test]
fn to_filter_appends_strict_upper_bound() {
    let s = build_query(&filter(None, None, None, Some("2025-01-01 00:00:00")));
    assert_eq!(s.sql, format!("{} AND timestamp < ?", BASE));
    assert_eq!(s.params, vec!["2025-01-01 00:00:00".to_string()]);
}

#[test]
fn filters_compose_in_fixed_order() {
    let s = build_query(&filter(Some("k"), Some("v%"), Some("a"), Some("b")));
    assert_eq!(
        s.sql,
        format!(
            "{} AND key = ? AND value LIKE ? AND timestamp > ? AND timestamp < ?",
            BASE
        )
    );
    assert_eq!(
        s.params,
        vec!["k".to_string(), "v%".to_string(), "a".to_string(), "b".to_string()]
    );
}

#[test]
fn key_and_to_compose_without_middle_clauses() {
    let s = build_query(&filter(Some("k"), None, None, Some("b")));
    assert_eq!(s.sql, format!("{} AND key = ? AND timestamp < ?", BASE));
    assert_eq!(s.params, vec!["k".to_string(), "b".to_string()]);
}

#[test]
fn empty_field_values_pass_verbatim() {
    let s = build_query(&filter(Some(""), None, None, None));
    assert_eq!(s.sql, format!("{} AND key = ?", BASE));
    assert_eq!(s.params, vec![String::new()]);
}

#[test]
fn select_statement_is_admitted_verbatim() {
    let r = screen_free_text("SELECT value FROM logs".to_string()).unwrap();
    assert_eq!(r.sql, "SELECT value FROM logs");
    assert!(r.params.is_empty());
}

#[test]
fn select_check_ignores_case_and_leading_whitespace() {
    assert!(screen_free_text("  \t\n sElEcT * FROM logs".to_string()).is_ok());
    assert!(screen_free_text("select 1".to_string()).is_ok());
}

#[test]
fn non_select_statement_is_forbidden() {
    let r = screen_free_text("DROP TABLE logs".to_string());
    assert!(matches!(r, Err(LogError::QueryRejected)));
    let r = screen_free_text("DELETE FROM logs".to_string());
    assert!(matches!(r, Err(LogError::QueryRejected)));
    let r = screen_free_text("  update logs set value = 'x'".to_string());
    assert!(matches!(r, Err(LogError::QueryRejected)));
}

#[test]
fn short_or_empty_statement_is_forbidden() {
    assert!(screen_free_text(String::new()).is_err());
    assert!(screen_free_text("   ".to_string()).is_err());
    assert!(screen_free_text("sel".to_string()).is_err());
}

#[test]
fn error_status_codes() {
    assert_eq!(LogError::WriteFailure.status_code(), 500);
    assert_eq!(LogError::QueryRejected.status_code(), 403);
    assert_eq!(LogError::QueryFailure.status_code(), 400);
}

use issue_bot::utils::search_type::{SearchStatus, SearchType};
use issue_bot::text::{
    decimal_string, parse_u64, same_text, trim_matching, truncate_bytes,
};

#[test]
fn search_type_texts() {
    assert_eq!(SearchType::Issues.as_str(), "issues");
    assert_eq!(SearchType::PullRequests.as_str(), "pull requests");
    assert_eq!(SearchStatus::Open.as_str(), "open");
    assert_eq!(SearchStatus::Closed.as_str(), "closed");
}

#[test]
fn trim_removes_quotes_at_both_ends_only() {
    assert_eq!(trim_matching("\"\"hello \"world\"\"", '"'), "hello \"world");
    assert_eq!(trim_matching("plain", '"'), "plain");
    assert_eq!(trim_matching("\"\"\"", '"'), "");
    assert_eq!(trim_matching("", '"'), "");
    assert_eq!(trim_matching("\"é\"", '"'), "é");
}

#[test]
fn trim_agrees_with_std() {
    for s in ["\"a\"", "a\"b", "\"\"x", "y\"\"", "\"", "\"\"", "ab", "\"ü\"ß\""] {
        assert_eq!(trim_matching(s, '"'), s.trim_matches('"'));
    }
}

#[test]
fn parse_accepts_what_std_accepts() {
    assert_eq!(parse_u64("42"), Some(42));
    assert_eq!(parse_u64("+7"), Some(7));
    assert_eq!(parse_u64("007"), Some(7));
    assert_eq!(parse_u64("0"), Some(0));
    assert_eq!(parse_u64("18446744073709551615"), Some(u64::MAX));
}

#[test]
fn parse_rejects_what_std_rejects() {
    assert_eq!(parse_u64(""), None);
    assert_eq!(parse_u64("+"), None);
    assert_eq!(parse_u64("-1"), None);
    assert_eq!(parse_u64(" 1"), None);
    assert_eq!(parse_u64("1a"), None);
    assert_eq!(parse_u64("++1"), None);
    assert_eq!(parse_u64("18446744073709551616"), None);
    assert_eq!(parse_u64("99999999999999999999999"), None);
}

#[test]
fn parse_agrees_with_std() {
    for s in [
        "", "+", "-", "-0", "+0", "12", "1_000", "٣", "18446744073709551615", "18446744073709551616",
        "184467440737095516150", "00000000000000000000000000001",
    ] {
        assert_eq!(parse_u64(s), s.parse::<u64>().ok(), "input {:?}", s);
    }
}

#[test]
fn decimal_string_matches_to_string() {
    for n in [0u64, 5, 9, 10, 99, 100, 12345, u64::MAX] {
        assert_eq!(decimal_string(n), n.to_string());
    }
}

#[test]
fn decimal_then_parse_gives_number_back() {
    for n in [0u64, 1, 25, 4096, 1234567890123, u64::MAX] {
        assert_eq!(parse_u64(&decimal_string(n)), Some(n));
    }
}

#[test]
fn same_text_compares_characters() {
    assert!(same_text("issues", "issues"));
    assert!(!same_text("issues", "issue"));
    assert!(!same_text("Issues", "issues"));
    assert!(same_text("", ""));
}

#[test]
fn truncate_keeps_short_text() {
    assert_eq!(truncate_bytes("short".to_string(), 256), "short");
    let exact = "x".repeat(256);
    assert_eq!(truncate_bytes(exact.clone(), 256), exact);
}

#[test]
fn truncate_cuts_long_text_to_bytes() {
    let long = "y".repeat(300);
    assert_eq!(truncate_bytes(long, 256), "y".repeat(256));
    // 127 two-byte characters (254 bytes), then ASCII: byte 256 is a boundary.
    let mixed = format!("{}{}", "é".repeat(127), "abcdef");
    let cut = truncate_bytes(mixed.clone(), 256);
    assert_eq!(cut.len(), 256);
    assert_eq!(cut, format!("{}{}", "é".repeat(127), "ab"));
    let mut expected = mixed;
    expected.truncate(256);
    assert_eq!(cut, expected);
}

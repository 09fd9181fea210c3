use update_check::version::{compare_versions, parse_segment_or_zero, version_parts};

#[test]
fn newer_simple() {
    assert!(compare_versions("5.3", "5.2"));
}

#[test]
fn equal_is_not_newer() {
    assert!(!compare_versions("5.2", "5.2"));
}

#[test]
fn numeric_not_textual_comparison() {
    assert!(!compare_versions("5.2", "5.10"));
    assert!(compare_versions("5.10", "5.2"));
}

#[test]
fn longer_on_equal_prefix_is_newer() {
    assert!(compare_versions("5.2.1", "5.2"));
    assert!(!compare_versions("5.2", "5.2.1"));
}

#[test]
fn malformed_segment_degrades_to_zero() {
    // "5.x" and "5.0" both parse to [5, 0].
    assert!(!compare_versions("5.x", "5.0"));
    assert!(!compare_versions("5.0", "5.x"));
}

#[test]
fn strict_order_on_concrete_chain() {
    // Irreflexive, asymmetric, transitive on a concrete chain.
    assert!(!compare_versions("5.10", "5.10"));
    assert!(compare_versions("6.0", "5.10"));
    assert!(!compare_versions("5.10", "6.0"));
    assert!(compare_versions("5.10", "5.2"));
    assert!(compare_versions("6.0", "5.2"));
}

#[test]
fn end_to_end_pair() {
    assert!(compare_versions("6.0", "5.2"));
    assert!(!compare_versions("5.2", "6.0"));
}

#[test]
fn parse_segment_plain() {
    assert_eq!(parse_segment_or_zero("5"), 5);
    assert_eq!(parse_segment_or_zero("007"), 7);
    assert_eq!(parse_segment_or_zero("4294967295"), 4294967295);
}

#[test]
fn parse_segment_failures_give_zero() {
    assert_eq!(parse_segment_or_zero(""), 0);
    assert_eq!(parse_segment_or_zero("x"), 0);
    assert_eq!(parse_segment_or_zero("1a"), 0);
    assert_eq!(parse_segment_or_zero("-3"), 0);
    // One past u32::MAX, and something far larger.
    assert_eq!(parse_segment_or_zero("4294967296"), 0);
    assert_eq!(parse_segment_or_zero("99999999999999999999"), 0);
}

#[test]
fn parts_split_on_dots() {
    assert_eq!(version_parts("5.10.2"), vec![5, 10, 2]);
    assert_eq!(version_parts("5"), vec![5]);
}

#[test]
fn parts_of_degenerate_strings() {
    // An empty string is one empty (hence zero) segment, as are the empty
    // segments around consecutive or trailing dots.
    assert_eq!(version_parts(""), vec![0]);
    assert_eq!(version_parts("5..2"), vec![5, 0, 2]);
    assert_eq!(version_parts("5."), vec![5, 0]);
}

//! Tests for origin pattern parsing and matching.

use project_cache::origin::{matches_any_origin, SchemeDomainPort};

fn parse_pattern(s: &str) -> SchemeDomainPort {
    SchemeDomainPort::parse(s)
}

#[test]
fn parsing_splits_scheme_domain_and_port() {
    let p = parse_pattern("https://example.com:8443");
    assert_eq!(p.scheme.as_deref(), Some("https"));
    assert_eq!(p.domain.as_deref(), Some("example.com"));
    assert_eq!(p.port.as_deref(), Some("8443"));
}

#[test]
fn parsing_without_scheme_leaves_it_wild() {
    let p = parse_pattern("example.com");
    assert!(p.scheme.is_none());
    assert_eq!(p.domain.as_deref(), Some("example.com"));
    assert!(p.port.is_none());
}

#[test]
fn parsing_turns_stars_into_wildcards() {
    let p = parse_pattern("*://*:*");
    assert!(p.scheme.is_none());
    assert!(p.domain.is_none());
    assert!(p.port.is_none());
    let q = parse_pattern("*");
    assert!(q.scheme.is_none());
    assert!(q.domain.is_none());
    assert!(q.port.is_none());
}

#[test]
fn pattern_matching_honours_every_component() {
    let origin = parse_pattern("https://example.com:443");
    assert!(parse_pattern("*").matches(&origin));
    assert!(parse_pattern("example.com").matches(&origin));
    assert!(parse_pattern("https://example.com").matches(&origin));
    assert!(parse_pattern("example.com:443").matches(&origin));
    assert!(!parse_pattern("http://example.com").matches(&origin));
    assert!(!parse_pattern("example.com:80").matches(&origin));
    assert!(!parse_pattern("other.com").matches(&origin));
}

#[test]
fn pinned_port_requires_the_origin_to_carry_one() {
    let origin = parse_pattern("https://example.com");
    assert!(!parse_pattern("example.com:443").matches(&origin));
    assert!(parse_pattern("example.com").matches(&origin));
}

#[test]
fn matching_is_ascii_case_insensitive() {
    let origin = parse_pattern("HTTPS://Example.COM");
    assert!(parse_pattern("https://example.com").matches(&origin));
}

#[test]
fn any_origin_accepts_absent_origins() {
    assert!(matches_any_origin(None, &Vec::new()));
}

#[test]
fn any_origin_needs_one_matching_pattern() {
    let patterns = vec![parse_pattern("a.example"), parse_pattern("b.example")];
    assert!(matches_any_origin(Some("https://b.example"), &patterns));
    assert!(!matches_any_origin(Some("https://c.example"), &patterns));
    assert!(!matches_any_origin(Some("https://b.example"), &Vec::new()));
}

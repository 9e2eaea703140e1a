use staticdatagen::generators::cname::{validate_domain, CnameConfig, CnameError, CnameGenerator};
use staticdatagen::text::{decimal_string, parse_u32, replace};
use std::collections::HashMap;

#[test]
fn long_label_anywhere_is_label_too_long() {
    let domain = format!("www.{}.org", "x".repeat(70));
    assert!(matches!(
        validate_domain(&domain),
        Err(CnameError::LabelTooLong(l)) if l == "x".repeat(70)
    ));
}

#[test]
fn domain_over_255_is_excessive() {
    let domain = format!("{}.com", "a.".repeat(130));
    assert!(matches!(
        validate_domain(&domain),
        Err(CnameError::ExcessiveDomainLength(d)) if d == domain
    ));
    let exact = format!("{}.{}.{}.{}", "a".repeat(63), "b".repeat(63), "c".repeat(63), "d".repeat(63));
    assert_eq!(exact.len(), 255);
    assert!(validate_domain(&exact).is_ok());
}

#[test]
fn single_label_is_malformed() {
    assert!(matches!(validate_domain("localhost"), Err(CnameError::MalformedDomain(_))));
}

#[test]
fn trailing_hyphen_is_rejected() {
    assert!(matches!(
        validate_domain("example.com-"),
        Err(CnameError::InvalidHyphenUsage(l)) if l == "com-"
    ));
}

#[test]
fn default_format_with_explicit_ttl() {
    let config = CnameConfig::new("example.com", Some(7200), None).unwrap();
    assert_eq!(config.generate_custom(), "example.com 7200 IN CNAME www.example.com");
}

#[test]
fn ttl_bounds() {
    assert!(matches!(CnameConfig::new("example.com", Some(0), None), Err(CnameError::InvalidTtl(_))));
    let config = CnameConfig::new("example.com", Some(u32::MAX), None).unwrap();
    assert_eq!(config.generate_custom(), "example.com 4294967295 IN CNAME www.example.com");
}

#[test]
fn batch_keeps_input_order() {
    let cfg_b = CnameConfig::new("b.example.org", Some(60), None).unwrap();
    let cfg_a = CnameConfig::new("a.example.org", Some(61), None).unwrap();
    let out = CnameGenerator::batch_generate(vec![cfg_b, cfg_a]);
    let texts: Vec<String> = out.into_iter().map(|r| r.unwrap()).collect();
    assert_eq!(
        texts,
        vec![
            "b.example.org 60 IN CNAME www.b.example.org".to_string(),
            "a.example.org 61 IN CNAME www.a.example.org".to_string()
        ]
    );
}

#[test]
fn metadata_default_ttl_matches_explicit() {
    let mut without = HashMap::new();
    without.insert("cname".to_string(), "example.com".to_string());
    let mut with = without.clone();
    with.insert("ttl".to_string(), "3600".to_string());
    let a = CnameGenerator::from_metadata(&without).unwrap();
    let b = CnameGenerator::from_metadata(&with).unwrap();
    assert_eq!(a, b);
    assert_eq!(a, "example.com 3600 IN CNAME www.example.com");
}

#[test]
fn metadata_negative_ttl_is_invalid() {
    let mut m = HashMap::new();
    m.insert("cname".to_string(), "example.com".to_string());
    m.insert("ttl".to_string(), "-1".to_string());
    assert!(matches!(CnameGenerator::from_metadata(&m), Err(CnameError::InvalidTtl(_))));
}

#[test]
fn metadata_without_cname_is_empty_domain() {
    let mut m = HashMap::new();
    m.insert("ttl".to_string(), "60".to_string());
    assert!(matches!(CnameGenerator::from_metadata(&m), Err(CnameError::EmptyDomain)));
}

#[test]
fn custom_format_round_trip() {
    let config = CnameConfig::new(
        "example.com",
        Some(3600),
        Some("{domain} {ttl} CUSTOM_FORMAT {domain}".to_string()),
    )
    .unwrap();
    assert_eq!(config.generate_custom(), "example.com 3600 CUSTOM_FORMAT example.com");
}

#[test]
fn uppercase_domain_is_lowered_by_idna() {
    let config = CnameConfig::new("Example.COM", None, None).unwrap();
    assert_eq!(config.domain, "example.com");
}

#[test]
fn unconvertible_domain_reports_invalid_characters() {
    let result = CnameConfig::new("xn--a.com", None, None);
    assert!(matches!(result, Err(CnameError::InvalidCharacters(m)) if m == "Invalid domain format: xn--a.com"));
}

#[test]
fn error_messages() {
    assert_eq!(CnameError::EmptyDomain.to_string(), "Domain name cannot be empty.");
    assert_eq!(
        CnameError::LabelTooLong("abc".to_string()).to_string(),
        "Domain label exceeds maximum length of 63 characters: abc"
    );
    assert_eq!(CnameError::InvalidTtl("x".to_string()).to_string(), "Invalid TTL value: x");
}

#[test]
fn text_helpers() {
    assert_eq!(decimal_string(0), "0");
    assert_eq!(decimal_string(1200), "1200");
    assert_eq!(parse_u32("+42"), Some(42));
    assert_eq!(parse_u32("4294967295"), Some(u32::MAX));
    assert_eq!(parse_u32("4294967296"), None);
    assert_eq!(parse_u32(""), None);
    assert_eq!(parse_u32("+"), None);
    assert_eq!(replace("aXbXX", "XX", "-"), "aXb-");
    assert_eq!(replace("{ttl}{ttl}", "{ttl}", "7"), "77");
}

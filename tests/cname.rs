use staticdatagen::generators::cname::{CnameConfig, CnameError, CnameGenerator};
use std::collections::HashMap;

#[test]
fn test_valid_domain_names() {
    let valid_domains = [
        "example.com",
        "sub.example.com",
        "my-site.example.com",
        "example.co.uk",
    ];
    for domain in &valid_domains {
        assert!(
            CnameConfig::new(domain, None, None).is_ok(),
            "Domain should be valid: {}",
            domain
        );
    }
}

#[test]
fn test_invalid_domain_names() {
    let long = "a".repeat(64);
    let invalid_domains = [
        "",
        "example",
        "-example.com",
        "example-.com",
        "exam ple.com",
        "example..com",
        long.as_str(),
        "exam@ple.com",
    ];
    for domain in &invalid_domains {
        assert!(
            CnameConfig::new(domain, None, None).is_err(),
            "Domain should be invalid: {}",
            domain
        );
    }
}

#[test]
fn cname_test_cname_generation() {
    let config = CnameConfig::new("example.com", Some(7200), None).unwrap();
    let generator = CnameGenerator::new(config);
    let content = generator.generate();
    assert_eq!(content, "example.com 7200 IN CNAME www.example.com");
}

#[test]
fn test_cname_with_different_ttl() {
    let config = CnameConfig::new("example.com", Some(1800), None).unwrap();
    let generator = CnameGenerator::new(config);
    let content = generator.generate();
    assert_eq!(content, "example.com 1800 IN CNAME www.example.com");
}

#[test]
fn test_default_ttl() {
    let config = CnameConfig::new("example.com", None, None).unwrap();
    assert_eq!(config.ttl, 3600);
}

#[test]
fn test_cname_error_empty_domain() {
    let result = CnameConfig::new("", None, None);
    assert!(matches!(result, Err(CnameError::EmptyDomain)));
}

#[test]
fn test_cname_error_invalid_characters() {
    let result = CnameConfig::new("exam@ple.com", None, None);
    assert!(matches!(
        result,
        Err(CnameError::InvalidCharacters(label)) if label == "exam@ple"
    ));
}

#[test]
fn test_cname_error_label_too_long() {
    let long_label = "a".repeat(64);
    let domain = format!("{}.com", long_label);
    let result = CnameConfig::new(&domain, None, None);
    assert!(matches!(
        result,
        Err(CnameError::LabelTooLong(label)) if label == long_label
    ));
}

#[test]
fn test_cname_error_malformed_domain() {
    let result = CnameConfig::new("example..com", None, None);
    assert!(matches!(
        result,
        Err(CnameError::MalformedDomain(message)) if message.contains("Empty label")
    ));
}

#[test]
fn test_cname_error_invalid_hyphen_usage() {
    let result = CnameConfig::new("-example.com", None, None);
    assert!(matches!(
        result,
        Err(CnameError::InvalidHyphenUsage(label)) if label == "-example"
    ));
}

#[test]
fn test_invalid_ttl() {
    let result = CnameConfig::new("example.com", Some(0), None);
    assert!(
        matches!(result, Err(CnameError::InvalidTtl(message)) if message.contains("TTL must be greater than 0"))
    );
}

#[test]
fn cname_test_empty_metadata() {
    let metadata: HashMap<String, String> = HashMap::new();
    let result = CnameGenerator::from_metadata(&metadata);
    assert!(matches!(result, Err(CnameError::EmptyDomain)));
}

#[test]
fn test_invalid_metadata_domain() {
    let mut metadata = HashMap::new();
    _ = metadata.insert("cname".to_string(), "invalid_domain".to_string());
    let result = CnameGenerator::from_metadata(&metadata);
    assert!(result.is_err());
}

#[test]
fn test_valid_metadata() {
    let mut metadata = HashMap::new();
    _ = metadata.insert("cname".to_string(), "example.com".to_string());
    _ = metadata.insert("ttl".to_string(), "3600".to_string());
    let result = CnameGenerator::from_metadata(&metadata).unwrap();
    assert_eq!(result, "example.com 3600 IN CNAME www.example.com");
}

#[test]
fn test_min_label_length() {
    let domain = "a.b";
    let config = CnameConfig::new(domain, None, None);
    assert!(config.is_ok(), "Domain should be valid: {}", domain);
}

#[test]
fn test_max_domain_length() {
    let max_label = "a".repeat(63);
    let domain = format!("{}.{}.{}", max_label, max_label, "a.com");
    let config = CnameConfig::new(&domain, None, None);
    assert!(config.is_ok(), "Domain should be valid: {}", domain);
}

#[test]
fn test_max_ttl() {
    let config = CnameConfig::new("example.com", Some(u32::MAX), None).unwrap();
    assert_eq!(config.ttl, u32::MAX);
}

#[test]
fn test_invalid_domain_with_valid_ttl() {
    let result = CnameConfig::new("example..com", Some(7200), None);
    assert!(result.is_err(), "Domain should be invalid");
}

#[test]
fn test_metadata_missing_cname_key() {
    let mut metadata = HashMap::new();
    _ = metadata.insert("other".to_string(), "example.com".to_string());
    let result = CnameGenerator::from_metadata(&metadata);
    assert!(matches!(result, Err(CnameError::EmptyDomain)));
}

#[test]
fn test_case_sensitive_metadata_key() {
    let mut metadata = HashMap::new();
    _ = metadata.insert("CNAME".to_string(), "example.com".to_string());
    let result = CnameGenerator::from_metadata(&metadata);
    assert!(matches!(result, Err(CnameError::EmptyDomain)));
}

#[test]
fn test_whitespace_in_domain() {
    let result = CnameConfig::new(" example.com ", None, None);
    assert!(
        matches!(result, Err(CnameError::InvalidCharacters(_))),
        "Expected InvalidCharacters error for domain with leading/trailing whitespace."
    );
}

#[test]
fn test_generate_exact_format() {
    let config = CnameConfig::new("example.com", Some(7200), None).unwrap();
    let generator = CnameGenerator::new(config);
    let content = generator.generate();
    assert_eq!(content, "example.com 7200 IN CNAME www.example.com");
}

#[test]
fn test_label_length_at_limit() {
    let label = "a".repeat(63);
    let domain = format!("{}.com", label);
    let config = CnameConfig::new(&domain, None, None);
    assert!(config.is_ok(), "Domain should be valid: {}", domain);
}

#[test]
fn test_label_length_exceeding_limit() {
    let label = "a".repeat(64);
    let domain = format!("{}.com", label);
    let result = CnameConfig::new(&domain, None, None);
    assert!(matches!(result, Err(CnameError::LabelTooLong(_))));
}

#[test]
fn test_debug_output() {
    let config = CnameConfig::new("example.com", Some(7200), None).unwrap();
    let debug_output = format!("{:?}", config);
    assert!(debug_output.contains("example.com"));
    assert!(debug_output.contains("7200"));
}

#[test]
fn test_parallel_batch_generation() {
    let configs = (0..100_000)
        .map(|i| CnameConfig::new(&format!("example{}.com", i), Some(3600), None).unwrap())
        .collect::<Vec<_>>();
    let start = std::time::Instant::now();
    let records = CnameGenerator::batch_generate(configs);
    let (successes, failures): (Vec<_>, Vec<_>) = records.into_iter().partition(Result::is_ok);
    let duration = start.elapsed();
    println!(
        "Generated {} records successfully, {} failed, in {:?}",
        successes.len(),
        failures.len(),
        duration
    );
    assert_eq!(successes.len(), 100_000);
    assert!(failures.is_empty(), "There should be no failures");
}

#[test]
fn test_large_domain() {
    let domain = format!("{}.{}.com", "a".repeat(63), "b".repeat(63));
    let config = CnameConfig::new(&domain, Some(3600), None);
    assert!(config.is_ok(), "Large domain should be valid");
}

#[test]
fn test_cname_config_max_domain_length() {
    let max_label = "a".repeat(63);
    let domain = format!("{}.{}.{}", max_label, max_label, "com");
    let config = CnameConfig::new(&domain.clone(), Some(3600), None);
    assert!(config.is_ok(), "Domain should be valid: {}", domain);
}

#[test]
fn test_cname_config_max_ttl() {
    let config = CnameConfig::new("example.com", Some(u32::MAX), None).unwrap();
    assert_eq!(config.ttl, u32::MAX);
}

#[test]
fn test_parallel_batch_large_input() {
    let configs = (0..1_000)
        .map(|i| CnameConfig::new(&format!("example{}.com", i), Some(3600), None).unwrap())
        .collect::<Vec<_>>();
    let results = CnameGenerator::batch_generate(configs);
    let successes: Vec<_> = results.into_iter().filter_map(Result::ok).collect();
    assert_eq!(successes.len(), 1_000);
}

#[test]
fn test_custom_format_generation() {
    let config = CnameConfig::new(
        "example.com",
        Some(3600),
        Some("{domain} {ttl} IN ALIAS custom.{domain}".to_string()),
    )
    .unwrap();
    let generator = CnameGenerator::new(config);
    let record = generator.generate();
    assert_eq!(record, "example.com 3600 IN ALIAS custom.example.com");
}

#[test]
fn test_validate_invalid_characters_in_domain() {
    let invalid_domain = "exa$mple.com";
    let result = CnameConfig::new(invalid_domain, None, None);
    assert!(matches!(
        result,
        Err(CnameError::InvalidCharacters(domain)) if domain == "exa$mple"
    ));
}

#[test]
fn test_validate_single_label_domain() {
    let single_label = "example";
    let result = CnameConfig::new(single_label, None, None);
    assert!(
        matches!(result, Err(CnameError::MalformedDomain(_))),
        "Expected MalformedDomain error for single-label domain: {}",
        single_label
    );
}

#[test]
fn test_invalid_ttl_zero() {
    let result = CnameConfig::new("example.com", Some(0), None);
    assert!(matches!(result, Err(CnameError::InvalidTtl(_))));
}

#[test]
fn test_unicode_domain_handling() {
    let domain = "exámple.com";
    let result = CnameConfig::new(domain, Some(3600), None);
    assert!(result.is_ok(), "Unicode domains should pass with IDN conversion");
    if let Ok(config) = result {
        assert_eq!(config.domain, "xn--exmple-qta.com");
    }
}

#[test]
fn test_excessive_total_domain_length() {
    let long_domain = format!("{}.{}.{}", "a".repeat(63), "b".repeat(63), "c".repeat(130));
    let result = CnameConfig::new(&long_domain, Some(3600), None);
    assert!(
        matches!(result, Err(CnameError::ExcessiveDomainLength(_))),
        "Expected ExcessiveDomainLength error for domain: {}",
        long_domain
    );
}

#[test]
fn test_custom_format_missing_variables() {
    let config = CnameConfig::new(
        "example.com",
        Some(3600),
        Some("{domain} IN CNAME".to_string()),
    )
    .unwrap();
    let generator = CnameGenerator::new(config);
    let record = generator.generate();
    assert_eq!(record, "example.com IN CNAME");
}

#[test]
fn test_order_preservation_in_batch_generation() {
    let configs = vec![
        CnameConfig::new("b.example.com", Some(3600), None).unwrap(),
        CnameConfig::new("a.example.com", Some(3600), None).unwrap(),
    ];
    let records = CnameGenerator::batch_generate(configs.clone());
    let results: Vec<_> = records.into_iter().filter_map(Result::ok).collect();
    assert_eq!(
        results,
        vec![
            "b.example.com 3600 IN CNAME www.b.example.com",
            "a.example.com 3600 IN CNAME www.a.example.com"
        ]
    );
}

#[test]
fn test_metadata_with_invalid_ttl() {
    let mut metadata = HashMap::new();
    _ = metadata.insert("cname".to_string(), "example.com".to_string());
    _ = metadata.insert("ttl".to_string(), "invalid".to_string());
    let result = CnameGenerator::from_metadata(&metadata);
    assert!(matches!(result, Err(CnameError::InvalidTtl(_))));
}

#[test]
fn test_custom_format_with_escapes() {
    let config = CnameConfig::new(
        "example.com",
        Some(3600),
        Some("\\{domain\\} {ttl}".to_string()),
    )
    .unwrap();
    let generator = CnameGenerator::new(config);
    let record = generator.generate();
    assert_eq!(record, "\\{domain\\} 3600");
}

#[test]
fn test_error_display_variants() {
    let errors = vec![
        CnameError::EmptyDomain,
        CnameError::InvalidCharacters("test".to_string()),
        CnameError::LabelTooLong("test".to_string()),
        CnameError::MalformedDomain("test".to_string()),
        CnameError::InvalidHyphenUsage("test".to_string()),
        CnameError::InvalidTtl("test".to_string()),
        CnameError::ExcessiveDomainLength("test".to_string()),
    ];
    for err in errors {
        assert!(!err.to_string().is_empty());
    }
}

#[test]
fn test_batch_generate_empty_input() {
    let records = CnameGenerator::batch_generate(vec![]);
    assert!(records.is_empty());
}

#[test]
fn test_debug_implementation() {
    let config = CnameConfig::new("example.com", Some(3600), None).unwrap();
    let generator = CnameGenerator::new(config);
    assert!(!format!("{:?}", generator).is_empty());
}

#[test]
fn test_unicode_normalization() {
    let configs = vec![
        CnameConfig::new("café.com", Some(3600), None).unwrap(),
        CnameConfig::new("cafe\u{0301}.com", Some(3600), None).unwrap(),
    ];
    let records = CnameGenerator::batch_generate(configs);
    let results: Vec<_> = records.into_iter().filter_map(Result::ok).collect();
    assert_eq!(results[0], results[1]);
}

#[test]
fn test_non_utf8_domain() {
    let domain = String::from_utf8(vec![0xFF]).unwrap_or_default();
    let result = CnameConfig::new(&domain, None, None);
    assert!(result.is_err());
}

#[test]
fn test_metadata_with_custom_format() {
    let mut metadata = HashMap::new();
    _ = metadata.insert("cname".to_string(), "example.com".to_string());
    _ = metadata.insert("format".to_string(), "{domain} CNAME {ttl}".to_string());
    let result = CnameGenerator::from_metadata(&metadata).unwrap();
    assert!(result.contains("example.com CNAME 3600"));
}

#[test]
fn test_clone_and_eq() {
    let config1 = CnameConfig::new("example.com", Some(3600), None).unwrap();
    let config2 = config1.clone();
    assert_eq!(config1, config2);
}

#[test]
fn test_generate_custom_empty_format() {
    let config = CnameConfig::new("example.com", Some(3600), Some(String::new())).unwrap();
    let generator = CnameGenerator::new(config);
    let record = generator.generate();
    assert!(record.is_empty());
}

#[test]
fn test_batch_generate_error_propagation() {
    let configs = vec![
        CnameConfig::new("example.com", Some(3600), None).unwrap(),
        CnameConfig::new("invalid..domain", Some(3600), None).unwrap_or_default(),
    ];
    let results = CnameGenerator::batch_generate(configs);
    assert_eq!(results.len(), 2);
}

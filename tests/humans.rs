use staticdatagen::generators::humans::{
    sanitize_date, sanitize_text, sanitize_twitter_handle, sanitize_url, HumansConfig,
    HumansConfigBuilder, HumansError, HumansGenerator, MAX_TEXT_LENGTH,
};
use std::collections::HashMap;

#[test]
fn test_generate_humans_content() {
    let config = HumansConfig {
        author: "John Doe".to_string(),
        author_website: "https://example.com".to_string(),
        author_twitter: "@johndoe".to_string(),
        author_location: "New York".to_string(),
        site_components: "Rust, SSG".to_string(),
        site_last_updated: "2024-01-01".to_string(),
        site_standards: "HTML5, CSS3".to_string(),
        site_software: "StaticDataGen".to_string(),
        thanks: "Contributors".to_string(),
    };
    let generator = HumansGenerator::new(config);
    let content = generator.generate();
    assert!(content.contains("John Doe"));
    assert!(content.contains("https://example.com"));
    assert!(content.contains("@johndoe"));
    assert!(content.contains("Contributors"));
}

#[test]
fn humans_test_empty_metadata() {
    let metadata: HashMap<String, String> = HashMap::new();
    assert!(HumansConfig::from_metadata(&metadata).is_err());
}

#[test]
fn humans_test_sanitize_text() {
    assert_eq!(sanitize_text("Normal"), "Normal");
    assert_eq!(sanitize_text("Invalid\nChars"), "InvalidChars");
}

#[test]
fn test_sanitize_url() {
    assert_eq!(sanitize_url("https://example.com").unwrap(), "https://example.com");
    assert!(matches!(sanitize_url("ftp://example.com"), Err(HumansError::InvalidUrl(_))));
}

#[test]
fn test_sanitize_twitter_handle() {
    assert_eq!(sanitize_twitter_handle("@valid_handle"), "@valid_handle");
    assert!(sanitize_twitter_handle("invalid").is_empty());
}

#[test]
fn test_builder_new() {
    let builder = HumansConfigBuilder::new();
    assert!(builder.config.author.is_empty());
}

#[test]
fn test_builder_methods() {
    let config = HumansConfig::builder()
        .author("John Doe")
        .author_website("https://example.com")
        .unwrap()
        .author_twitter("@johndoe")
        .author_location("New York")
        .site_components("Rust")
        .site_last_updated("2024-01-01T00:00:00Z")
        .unwrap()
        .site_standards("HTML5")
        .site_software("StaticDataGen")
        .thanks("Contributors")
        .build()
        .unwrap();
    assert_eq!(config.author, "John Doe");
    assert_eq!(config.author_website, "https://example.com");
    assert_eq!(config.author_twitter, "@johndoe");
    assert_eq!(config.author_location, "New York");
    assert_eq!(config.site_components, "Rust");
    assert_eq!(config.site_last_updated, "2024-01-01T00:00:00Z");
    assert_eq!(config.site_standards, "HTML5");
    assert_eq!(config.site_software, "StaticDataGen");
    assert_eq!(config.thanks, "Contributors");
}

#[test]
fn test_builder_invalid_author() {
    let result = HumansConfig::builder().build();
    assert!(matches!(result, Err(HumansError::MissingMetadata(_))));
}

#[test]
fn test_builder_invalid_website() {
    let result = HumansConfig::builder()
        .author("John Doe")
        .author_website("invalid-url")
        .and_then(|builder| builder.build());
    assert!(matches!(result, Err(HumansError::InvalidUrl(_))));
}

#[test]
fn test_builder_invalid_date() {
    let result = HumansConfig::builder()
        .author("John Doe")
        .site_last_updated("invalid-date")
        .and_then(|builder| builder.build());
    assert!(matches!(result, Err(HumansError::InvalidDate(_))));
}

#[test]
fn test_from_metadata_complete() {
    let mut metadata = HashMap::new();
    _ = metadata.insert("author".to_string(), "John Doe".to_string());
    _ = metadata.insert("author_website".to_string(), "https://example.com".to_string());
    _ = metadata.insert("author_twitter".to_string(), "@johndoe".to_string());
    _ = metadata.insert("author_location".to_string(), "New York".to_string());
    _ = metadata.insert("site_components".to_string(), "Rust".to_string());
    _ = metadata.insert("site_last_updated".to_string(), "2024-01-01T00:00:00Z".to_string());
    _ = metadata.insert("site_standards".to_string(), "HTML5".to_string());
    _ = metadata.insert("site_software".to_string(), "StaticDataGen".to_string());
    _ = metadata.insert("thanks".to_string(), "Contributors".to_string());
    let config = HumansConfig::from_metadata(&metadata).unwrap();
    assert_eq!(config.author, "John Doe");
    assert_eq!(config.site_software, "StaticDataGen");
}

#[test]
fn test_from_metadata_invalid_website() {
    let mut metadata = HashMap::new();
    _ = metadata.insert("author".to_string(), "John Doe".to_string());
    _ = metadata.insert("author_website".to_string(), "invalid-url".to_string());
    let result = HumansConfig::from_metadata(&metadata);
    assert!(matches!(result, Err(HumansError::InvalidUrl(_))));
}

#[test]
fn test_from_metadata_invalid_date() {
    let mut metadata = HashMap::new();
    _ = metadata.insert("author".to_string(), "John Doe".to_string());
    _ = metadata.insert("site_last_updated".to_string(), "invalid-date".to_string());
    let result = HumansConfig::from_metadata(&metadata);
    assert!(matches!(result, Err(HumansError::InvalidDate(_))));
}

#[test]
fn test_generate_empty_sections() {
    let config = HumansConfig::builder().author("John Doe").build().unwrap();
    let generator = HumansGenerator::new(config);
    let content = generator.generate();
    assert!(content.contains("John Doe"));
    assert!(!content.contains("Website:"));
    assert!(!content.contains("Twitter:"));
    assert!(!content.contains("Thanks:"));
}

#[test]
fn test_sanitize_text_whitespace() {
    assert_eq!(sanitize_text("  Test  "), "Test");
    assert_eq!(sanitize_text("\t\nTest\r\n"), "Test");
}

#[test]
fn test_sanitize_text_length_limit() {
    let long_text = "a".repeat(MAX_TEXT_LENGTH + 10);
    assert_eq!(sanitize_text(&long_text).len(), MAX_TEXT_LENGTH);
}

#[test]
fn test_sanitize_url_empty() {
    assert_eq!(sanitize_url("").unwrap(), "");
    assert_eq!(sanitize_url("   ").unwrap(), "");
}

#[test]
fn test_sanitize_url_valid_schemes() {
    assert!(sanitize_url("http://example.com").is_ok());
    assert!(sanitize_url("https://example.com").is_ok());
}

#[test]
fn test_sanitize_twitter_handle_empty() {
    assert_eq!(sanitize_twitter_handle(""), "");
    assert_eq!(sanitize_twitter_handle("   "), "");
}

#[test]
fn test_sanitize_twitter_handle_invalid_chars() {
    assert_eq!(sanitize_twitter_handle("@handle!"), "");
    assert_eq!(sanitize_twitter_handle("@handle space"), "");
}

#[test]
fn test_sanitize_date_empty() {
    assert_eq!(sanitize_date("").unwrap(), "");
    assert_eq!(sanitize_date("   ").unwrap(), "");
}

#[test]
fn humans_test_error_display() {
    let err = HumansError::InvalidInput {
        field: "test".to_string(),
        message: "invalid".to_string(),
    };
    assert_eq!(err.to_string(), "Invalid input for field 'test': invalid");
}

#[test]
fn test_config_default() {
    let config = HumansConfig::default();
    assert!(config.author.is_empty());
    assert!(config.author_website.is_empty());
    assert!(config.author_twitter.is_empty());
    assert!(config.author_location.is_empty());
    assert!(config.site_components.is_empty());
    assert!(config.site_last_updated.is_empty());
    assert!(config.site_standards.is_empty());
    assert!(config.site_software.is_empty());
    assert!(config.thanks.is_empty());
}

#[test]
fn test_generator_debug() {
    let config = HumansConfig::default();
    let generator = HumansGenerator::new(config);
    assert!(!format!("{:?}", generator).is_empty());
}

#[test]
fn humans_exact_layout() {
    let config = HumansConfig::builder()
        .author("  Ada  ")
        .thanks("All")
        .site_last_updated("2024-05-01")
        .unwrap()
        .build()
        .unwrap();
    assert_eq!(
        HumansGenerator::new(config).generate(),
        "/* TEAM */\n    Name: Ada\n\n/* THANKS */\n    Thanks: All\n\n/* SITE */\n    Last update: 2024-05-01\n"
    );
}

#[test]
fn humans_url_and_date_are_trimmed() {
    assert_eq!(sanitize_url("  http://a.example ").unwrap(), "http://a.example");
    assert_eq!(sanitize_date(" 2024-01-01 ").unwrap(), "2024-01-01");
    assert!(matches!(sanitize_date("2024-13-45"), Err(HumansError::InvalidDate(d)) if d == "2024-13-45"));
}

#[test]
fn humans_bare_at_sign_is_kept() {
    assert_eq!(sanitize_twitter_handle(" @ "), "@");
}

use staticdatagen::generators::news_sitemap::{
    format_publication_date, sanitize_text, validate_genres, validate_keywords, validate_language,
    validate_url, NewsSiteMapConfig, NewsSiteMapGenerator,
};
use std::collections::HashMap;

#[test]
fn test_news_sitemap_generation() {
    let mut metadata = HashMap::new();
    let _ = metadata.insert("news_title".to_string(), "Test News".to_string());
    let _ = metadata.insert(
        "news_publication_date".to_string(),
        "Tue, 20 Feb 2024 15:15:15 GMT".to_string(),
    );
    let _ = metadata.insert("news_loc".to_string(), "https://example.com".to_string());
    let config = NewsSiteMapConfig::new(metadata);
    let generator = NewsSiteMapGenerator::new(config);
    let news_data = generator.config.to_news_data();
    assert_eq!(news_data.news_title, "Test News");
    assert!(
        news_data.news_publication_date == "2024-02-20T15:15:15Z"
            || news_data.news_publication_date == "2024-02-20T15:15:15+00:00"
    );
    assert_eq!(news_data.news_loc, "https://example.com");
}

#[test]
fn test_validate_genres() {
    assert_eq!(validate_genres("Blog, OpEd, Invalid"), "Blog, OpEd");
    assert_eq!(validate_genres("PressRelease,Satire"), "PressRelease, Satire");
    assert!(validate_genres("Invalid").is_empty());
    assert!(validate_genres("").is_empty());
}

#[test]
fn test_validate_keywords() {
    assert_eq!(validate_keywords("news, breaking, update"), "news, breaking, update");
    let many_keywords = (0..20).map(|i| i.to_string()).collect::<Vec<_>>().join(",");
    assert_eq!(validate_keywords(&many_keywords).split(',').count(), 10);
}

#[test]
fn test_validate_language() {
    assert_eq!(validate_language("en"), "en");
    assert_eq!(validate_language("fr"), "fr");
    assert_eq!(validate_language("invalid"), "en");
    assert_eq!(validate_language(""), "en");
}

#[test]
fn test_validate_url() {
    assert_eq!(validate_url("https://example.com"), "https://example.com");
    assert_eq!(validate_url("http://example.com"), "http://example.com");
    assert!(validate_url("invalid-url").is_empty());
    assert!(validate_url("https://example.com<script>").is_empty());
}

#[test]
fn news_sitemap_test_sanitize_text() {
    assert_eq!(sanitize_text("Normal text"), "Normal text");
    assert_eq!(sanitize_text("Text\nwith\tcontrol\rchars"), "Textwithcontrolchars");
    let long_text = "a".repeat(2000);
    assert_eq!(sanitize_text(&long_text).len(), 1000);
}

#[test]
fn test_get_sanitized() {
    let mut metadata = HashMap::new();
    let _ = metadata.insert("key1".to_string(), "value1".to_string());
    let config = NewsSiteMapConfig::new(metadata);
    assert_eq!(config.get_sanitized("key1", "default"), "value1");
    assert_eq!(config.get_sanitized("key2", "default"), "default");
}

#[test]
fn test_validate_genres_edge_cases() {
    assert_eq!(validate_genres("PressRelease, Blog, Opinion"), "PressRelease, Blog, Opinion");
    assert_eq!(validate_genres("PressRelease, InvalidGenre, Blog"), "PressRelease, Blog");
    assert!(validate_genres("InvalidGenre").is_empty());
    assert!(validate_genres("").is_empty());
}

#[test]
fn test_validate_keywords_edge_cases() {
    assert_eq!(validate_keywords("keyword1, keyword2, keyword3"), "keyword1, keyword2, keyword3");
    assert_eq!(validate_keywords("1,2,3,4,5,6,7,8,9,10,11"), "1, 2, 3, 4, 5, 6, 7, 8, 9, 10");
    assert!(validate_keywords("").is_empty());
}

#[test]
fn test_validate_url_edge_cases() {
    assert_eq!(validate_url("https://example.com"), "https://example.com");
    assert_eq!(validate_url("http://example.com"), "http://example.com");
    assert!(validate_url("not-a-valid-url").is_empty());
    assert!(validate_url("https://example.com<script>").is_empty());
}

#[test]
fn test_sanitize_text_edge_cases() {
    assert_eq!(sanitize_text("Normal text"), "Normal text");
    assert_eq!(sanitize_text("Text\nwith\rcontrols"), "Textwithcontrols");
    let long_text = "a".repeat(2000);
    assert_eq!(sanitize_text(&long_text).len(), 1000);
}

#[test]
fn test_to_news_data_missing_keys() {
    let mut metadata = HashMap::new();
    let _ = metadata.insert("news_title".to_string(), "Sample News".to_string());
    let config = NewsSiteMapConfig::new(metadata);
    let news_data = config.to_news_data();
    assert_eq!(news_data.news_title, "Sample News");
    assert_eq!(news_data.news_publication_name, "Unnamed Publication");
    assert_eq!(news_data.news_loc, "");
    assert_eq!(news_data.news_language, "en");
    assert!(news_data.news_genres.is_empty());
    assert!(news_data.news_keywords.is_empty());
    assert!(news_data.news_image_loc.is_empty());
}

#[test]
fn test_to_news_data_invalid_metadata() {
    let mut metadata = HashMap::new();
    let _ = metadata.insert("news_title".to_string(), "Invalid\nTitle".to_string());
    let _ = metadata.insert("news_loc".to_string(), "invalid-url".to_string());
    let _ = metadata.insert("news_language".to_string(), "invalid-lang".to_string());
    let _ = metadata.insert("news_genres".to_string(), "InvalidGenre".to_string());
    let _ = metadata.insert(
        "news_keywords".to_string(),
        "key1, key2, key3, key4, key5, key6, key7, key8, key9, key10, key11".to_string(),
    );
    let config = NewsSiteMapConfig::new(metadata);
    let news_data = config.to_news_data();
    assert_eq!(news_data.news_title, "InvalidTitle");
    assert_eq!(news_data.news_loc, "");
    assert_eq!(news_data.news_language, "en");
    assert!(news_data.news_genres.is_empty());
    assert_eq!(news_data.news_keywords, "key1, key2, key3, key4, key5, key6, key7, key8, key9, key10");
}

#[test]
fn test_max_length_input() {
    let long_title = "a".repeat(1000);
    let mut metadata = HashMap::new();
    let _ = metadata.insert("news_title".to_string(), long_title.clone());
    let config = NewsSiteMapConfig::new(metadata);
    let news_data = config.to_news_data();
    assert_eq!(news_data.news_title, long_title);
}

#[test]
fn test_sanitize_text_control_characters() {
    let input = "Text with control\ncharacters\rand\tspaces.";
    assert_eq!(sanitize_text(input), "Text with controlcharactersandspaces.");
}

#[test]
fn publication_date_is_reformatted() {
    let r = format_publication_date("Tue, 20 Feb 2024 15:15:15 GMT");
    assert!(r == "2024-02-20T15:15:15Z" || r == "2024-02-20T15:15:15+00:00");
}

#[test]
fn keywords_skip_empty_pieces() {
    assert_eq!(validate_keywords(" a ,, b ,"), "a, b");
}

use staticdatagen::generators::manifest::{
    defaults, sanitize_color, sanitize_text, IconConfig, ManifestConfig, ManifestError,
};
use std::collections::HashMap;

#[test]
fn test_invalid_manifest() {
    let result = ManifestConfig::builder().name("").build();
    assert!(result.is_err());
    assert!(matches!(result.unwrap_err(), ManifestError::InvalidName(_)));
}

#[test]
fn test_icon_builder() {
    let icon = IconConfig::new("/icon.svg", "512x512")
        .icon_type("image/svg+xml")
        .purpose("any maskable");
    assert_eq!(icon.src, "/icon.svg");
    assert_eq!(icon.sizes, "512x512");
    assert_eq!(icon.icon_type.unwrap(), "image/svg+xml");
    assert_eq!(icon.purpose.unwrap(), "any maskable");
}

#[test]
fn test_manifest_builder_all_fields() {
    let config = ManifestConfig::builder()
        .name("Test App")
        .short_name("App")
        .description("Test Description")
        .start_url("/start")
        .display("standalone")
        .background_color("#ffffff")
        .theme_color("#000000")
        .orientation("portrait")
        .scope("/scope")
        .build()
        .unwrap();
    assert_eq!(config.name, "Test App");
    assert_eq!(config.short_name.unwrap(), "App");
    assert_eq!(config.description.unwrap(), "Test Description");
    assert_eq!(config.start_url, "/start");
    assert_eq!(config.display, "standalone");
    assert_eq!(config.background_color, "#ffffff");
    assert_eq!(config.theme_color.unwrap(), "#000000");
    assert_eq!(config.orientation, "portrait");
    assert_eq!(config.scope, "/scope");
}

#[test]
fn test_manifest_builder_defaults() {
    let config = ManifestConfig::builder().name("Test App").build().unwrap();
    assert_eq!(config.start_url, defaults::START_URL);
    assert_eq!(config.display, defaults::DISPLAY);
    assert_eq!(config.background_color, defaults::BACKGROUND);
    assert_eq!(config.orientation, defaults::ORIENTATION);
    assert_eq!(config.scope, defaults::SCOPE);
}

#[test]
fn test_sanitize_text_length() {
    assert_eq!(sanitize_text("Hello", 3), "Hel");
    assert_eq!(sanitize_text("Hello\nWorld", 10), "HelloWorld");
    assert_eq!(sanitize_text("", 5), "");
}

#[test]
fn test_sanitize_color_validation() {
    assert_eq!(sanitize_color("#fff".to_string()), "#fff");
    assert_eq!(sanitize_color("#ffffff".to_string()), "#ffffff");
    assert_eq!(sanitize_color("rgb(255,255,255)".to_string()), "rgb(255,255,255)");
    assert_eq!(sanitize_color("invalid".to_string()), defaults::BACKGROUND);
    assert_eq!(sanitize_color("#ffff".to_string()), defaults::BACKGROUND);
    assert_eq!(sanitize_color("#fffffff".to_string()), defaults::BACKGROUND);
    assert_eq!(sanitize_color("#xyz".to_string()), defaults::BACKGROUND);
}

#[test]
fn test_icon_config_methods() {
    let icon = IconConfig::new("/icon.svg", "512x512");
    assert_eq!(icon.src, "/icon.svg");
    assert_eq!(icon.sizes, "512x512");
    assert_eq!(icon.icon_type.as_ref().unwrap(), defaults::ICON_TYPE);
    assert_eq!(icon.purpose.as_ref().unwrap(), defaults::ICON_PURPOSE);
    let modified_icon = icon.clone().icon_type("image/png").purpose(
        &icon
            .purpose
            .clone()
            .unwrap_or_else(|| "any maskable".to_string()),
    );
    assert_eq!(modified_icon.icon_type.unwrap(), "image/png");
    assert_eq!(modified_icon.purpose.unwrap(), "any maskable");
}

#[test]
fn test_manifest_from_metadata_empty() {
    let empty_metadata = HashMap::new();
    let result = ManifestConfig::from_metadata(&empty_metadata);
    assert!(result.is_err());
    assert!(matches!(result.unwrap_err(), ManifestError::InvalidName(_)));
}

#[test]
fn test_manifest_from_metadata_complete() {
    let mut metadata = HashMap::new();
    _ = metadata.insert("name".to_string(), "Test App".to_string());
    _ = metadata.insert("short_name".to_string(), "App".to_string());
    _ = metadata.insert("description".to_string(), "Test Description".to_string());
    _ = metadata.insert("theme-color".to_string(), "#000000".to_string());
    _ = metadata.insert("background-color".to_string(), "#ffffff".to_string());
    _ = metadata.insert("icon".to_string(), "/icon.svg".to_string());
    let config = ManifestConfig::from_metadata(&metadata).unwrap();
    assert_eq!(config.name, "Test App");
    assert_eq!(config.short_name.unwrap(), "App");
    assert_eq!(config.description.unwrap(), "Test Description");
    assert_eq!(config.theme_color.unwrap(), "#000000");
    assert_eq!(config.background_color, "#ffffff");
    assert!(!config.icons.is_empty());
    assert_eq!(config.icons[0].src, "/icon.svg");
}

#[test]
fn test_long_text_sanitization() {
    let long_name = "a".repeat(100);
    let long_description = "b".repeat(200);
    let config = ManifestConfig::builder()
        .name(&long_name)
        .description(&long_description)
        .build()
        .unwrap();
    assert_eq!(config.name.len(), 45);
    assert_eq!(config.description.unwrap().len(), 120);
}

#[test]
fn test_control_characters_sanitization() {
    let config = ManifestConfig::builder().name("Test\0App\n\r\t").build().unwrap();
    assert_eq!(config.name, "TestApp");
}

#[test]
fn manifest_bad_colours_fall_back() {
    let config = ManifestConfig::builder()
        .name("X")
        .background_color("blue")
        .theme_color("rgb(1,2,3)")
        .build()
        .unwrap();
    assert_eq!(config.background_color, "#ffffff");
    assert_eq!(config.theme_color.unwrap(), "rgb(1,2,3)");
    assert_eq!(sanitize_color("#ABCdef".to_string()), "#ABCdef");
    assert_eq!(sanitize_color("rgb(".to_string()), "#ffffff");
}

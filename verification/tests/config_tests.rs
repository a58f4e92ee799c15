use ghzinga::config::{
    config_from_raw, config_path_from_env, load, AppConfig, ConfigSource, RawUiConfig,
};
use ghzinga::settings::{
    ContentWidthMode, ScrollbarMode, SpacingMode, SymbolMode, ThemeName, MIN_FIXED_CONTENT_WIDTH,
};
use std::path::PathBuf;

fn raw_ui() -> RawUiConfig {
    RawUiConfig {
        theme: None,
        symbols: None,
        spacing: None,
        width_mode: None,
        fixed_width: None,
        scrollbar: None,
    }
}

#[test]
fn config_path_prefers_override_then_xdg_then_home() {
    assert_eq!(
        PathBuf::from(config_path_from_env(
            Some("/tmp/gzg.toml".to_string()),
            Some("/tmp/xdg".to_string()),
            Some("/home/alice".to_string())
        )),
        PathBuf::from("/tmp/gzg.toml")
    );
    assert_eq!(
        PathBuf::from(config_path_from_env(
            None,
            Some("/tmp/xdg".to_string()),
            Some("/home/alice".to_string())
        )),
        PathBuf::from("/tmp/xdg/ghzinga/config.toml")
    );
    assert_eq!(
        PathBuf::from(config_path_from_env(None, None, Some("/home/alice".to_string()))),
        PathBuf::from("/home/alice/.config/ghzinga/config.toml")
    );
}

#[test]
fn config_path_falls_back_to_the_working_directory() {
    assert_eq!(config_path_from_env(None, None, None), "./ghzinga/config.toml");
    assert_eq!(
        config_path_from_env(None, Some("/tmp/xdg/".to_string()), None),
        "/tmp/xdg/ghzinga/config.toml"
    );
}

#[test]
fn missing_config_uses_defaults() {
    let loaded = load("/nowhere/config.toml".to_string(), ConfigSource::Missing);
    assert_eq!(loaded.config, AppConfig::default());
    assert!(loaded.diagnostics.is_empty());
}

#[test]
fn unreadable_and_malformed_configs_fall_back_with_one_diagnostic() {
    let loaded = load(
        "/x/config.toml".to_string(),
        ConfigSource::Unreadable("permission denied".to_string()),
    );
    assert_eq!(loaded.config, AppConfig::default());
    assert_eq!(
        loaded.diagnostics,
        vec!["failed to read config /x/config.toml: permission denied".to_string()]
    );
    let loaded = load("/x/config.toml".to_string(), ConfigSource::Malformed("bad".to_string()));
    assert_eq!(loaded.diagnostics, vec!["failed to parse config.toml: bad".to_string()]);
}

#[test]
fn parses_ui_config_values() {
    let mut diagnostics = Vec::new();
    let config = config_from_raw(
        Some(RawUiConfig {
            theme: Some("solarized".into()),
            symbols: Some("emoji".into()),
            spacing: Some("compact".into()),
            width_mode: Some("full".into()),
            fixed_width: Some(132),
            scrollbar: Some("always".into()),
        }),
        &mut diagnostics,
    );
    assert_eq!(config.ui.theme, ThemeName::Solarized);
    assert_eq!(config.ui.symbols, SymbolMode::Emoji);
    assert_eq!(config.ui.spacing, SpacingMode::Compact);
    assert_eq!(config.ui.width_mode, ContentWidthMode::Full);
    assert_eq!(config.ui.fixed_width, 132);
    assert_eq!(config.ui.scrollbar, ScrollbarMode::Always);
    assert!(diagnostics.is_empty());
}

#[test]
fn invalid_known_values_fall_back_with_diagnostics() {
    let mut diagnostics = Vec::new();
    let config = config_from_raw(
        Some(RawUiConfig {
            theme: Some("loud".into()),
            symbols: Some("icons".into()),
            spacing: Some("wide".into()),
            width_mode: Some("middle".into()),
            fixed_width: None,
            scrollbar: Some("sometimes".into()),
        }),
        &mut diagnostics,
    );
    assert_eq!(config, AppConfig::default());
    assert_eq!(diagnostics.len(), 5);
    assert!(diagnostics[0].contains("invalid ui.theme"));
    assert!(diagnostics[1].contains("invalid ui.symbols"));
    assert!(diagnostics[2].contains("invalid ui.spacing"));
    assert!(diagnostics[3].contains("invalid ui.width_mode"));
    assert!(diagnostics[4].contains("invalid ui.scrollbar"));
    assert_eq!(diagnostics[1], "invalid ui.symbols `icons`: expected one of emoji, ascii");
}

#[test]
fn fixed_width_is_clamped_from_config() {
    let mut diagnostics = Vec::new();
    let mut raw = raw_ui();
    raw.fixed_width = Some(12);
    let config = config_from_raw(Some(raw), &mut diagnostics);
    assert_eq!(config.ui.fixed_width, MIN_FIXED_CONTENT_WIDTH);
    assert!(diagnostics.is_empty());
    assert_eq!(AppConfig::default().with_fixed_width(500).ui.fixed_width, 180);
}

#[test]
fn save_writes_small_toml_file() {
    let config = AppConfig::default()
        .with_theme(ThemeName::Solarized)
        .with_symbols(SymbolMode::Emoji)
        .with_spacing(SpacingMode::Compact)
        .with_width_mode(ContentWidthMode::Full)
        .with_fixed_width(132)
        .with_scrollbar(ScrollbarMode::Always);
    assert_eq!(
        config.to_toml(),
        "[ui]\ntheme = \"solarized\"\nsymbols = \"emoji\"\nspacing = \"compact\"\nwidth_mode = \"full\"\nfixed_width = 132\nscrollbar = \"always\"\n"
    );
}

#[test]
fn defaults_follow_the_documented_config() {
    assert_eq!(
        AppConfig::default().to_toml(),
        "[ui]\ntheme = \"default\"\nsymbols = \"emoji\"\nspacing = \"comfortable\"\nwidth_mode = \"fixed\"\nfixed_width = 118\nscrollbar = \"on-scroll\"\n"
    );
}

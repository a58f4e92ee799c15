use ghzinga::app::state::Tab;
use ghzinga::cli::{Cli, DEFAULT_REFRESH_SECONDS};
use ghzinga::domain::ResourceIdError;
use ghzinga::github::api::ApiDepth;
use ghzinga::session::RestoreMode;
use ghzinga::settings::{ContentWidthMode, ScrollbarMode, SpacingMode, SymbolMode, ThemeName};
use std::path::PathBuf;

/// The options a launch with the given resource arguments and no flags has.
fn cli_with(resource: &[&str]) -> Cli {
    Cli {
        resource: resource.iter().map(|s| s.to_string()).collect(),
        new: false,
        no_restore: false,
        session: None,
        offline_fixture: None,
        offline_resource_fixture: Vec::new(),
        no_mouse: false,
        refresh_seconds: DEFAULT_REFRESH_SECONDS,
        api_depth: None,
        once: false,
        tab: None,
        theme: None,
        symbols: None,
        spacing: None,
        width_mode: None,
        fixed_width: None,
        scrollbar: None,
    }
}

#[test]
fn parses_single_resource_arg() {
    let cli = cli_with(&["openclaw/openclaw#81834"]);
    assert_eq!(
        cli.parse_resource_id().unwrap().canonical_name(),
        "openclaw/openclaw#81834"
    );
}

#[test]
fn parses_restore_flags() {
    let mut cli = cli_with(&["openclaw/openclaw#81834"]);
    cli.new = true;
    cli.session = Some("work".to_string());
    assert_eq!(cli.restore_mode(), RestoreMode::New);
    assert_eq!(cli.session.as_deref(), Some("work"));
    assert!(cli.has_resource_arg());
}

#[test]
fn allows_empty_resource_for_restore() {
    let cli = cli_with(&[]);
    assert_eq!(cli.parse_optional_resource_id().unwrap(), None);
}

#[test]
fn default_refresh_interval_is_conservative() {
    let cli = cli_with(&["openclaw/openclaw#81834"]);
    assert_eq!(cli.refresh_seconds, DEFAULT_REFRESH_SECONDS);
    assert_eq!(DEFAULT_REFRESH_SECONDS, 300);
}

#[test]
fn parses_owner_repo_and_number_args() {
    let cli = cli_with(&["openclaw/openclaw", "81834"]);
    assert_eq!(
        cli.parse_resource_id().unwrap().canonical_name(),
        "openclaw/openclaw#81834"
    );
}

#[test]
fn parses_offline_fixture_flag() {
    let mut cli = cli_with(&["openclaw/openclaw#81834"]);
    cli.offline_fixture = Some("fixtures/pr-81834.json".to_string());
    assert_eq!(
        PathBuf::from(cli.offline_fixture.unwrap()),
        PathBuf::from("fixtures/pr-81834.json")
    );
}

#[test]
fn parses_additional_offline_resource_fixtures() {
    let mut cli = cli_with(&["openclaw/openclaw#81834"]);
    cli.offline_fixture = Some("fixtures/pr-81834.json".to_string());
    cli.offline_resource_fixture = vec!["fixtures/issue-66943.json".to_string()];
    assert_eq!(
        cli.offline_resource_fixture
            .iter()
            .map(PathBuf::from)
            .collect::<Vec<_>>(),
        [PathBuf::from("fixtures/issue-66943.json")]
    );
}

#[test]
fn parses_initial_tab() {
    let mut cli = cli_with(&["openclaw/openclaw#81834"]);
    cli.tab = Some("checks".parse().unwrap());
    assert_eq!(cli.tab, Some(Tab::Checks));
}

#[test]
fn parses_api_depth() {
    let mut cli = cli_with(&["openclaw/openclaw#81834"]);
    cli.api_depth = Some("full".parse().unwrap());
    assert_eq!(cli.api_depth, Some(ApiDepth::Full));
}

#[test]
fn parses_theme() {
    let mut cli = cli_with(&["openclaw/openclaw#81834"]);
    cli.theme = Some("solarized-dark".parse().unwrap());
    assert_eq!(cli.theme, Some(ThemeName::Solarized));
}

#[test]
fn parses_symbol_mode() {
    let mut cli = cli_with(&["openclaw/openclaw#81834"]);
    cli.symbols = Some("emoji".parse().unwrap());
    assert_eq!(cli.symbols, Some(SymbolMode::Emoji));
}

#[test]
fn parses_spacing_mode() {
    let mut cli = cli_with(&["openclaw/openclaw#81834"]);
    cli.spacing = Some("compact".parse().unwrap());
    assert_eq!(cli.spacing, Some(SpacingMode::Compact));
}

#[test]
fn parses_width_preferences() {
    let mut cli = cli_with(&["openclaw/openclaw#81834"]);
    cli.width_mode = Some("full".parse().unwrap());
    cli.fixed_width = Some("132".parse().unwrap());
    cli.scrollbar = Some("always".parse().unwrap());
    assert_eq!(cli.width_mode, Some(ContentWidthMode::Full));
    assert_eq!(cli.fixed_width, Some(132));
    assert_eq!(cli.scrollbar, Some(ScrollbarMode::Always));
}

#[test]
fn no_restore_wins_over_new() {
    let mut cli = cli_with(&[]);
    assert_eq!(cli.restore_mode(), RestoreMode::Auto);
    cli.new = true;
    cli.no_restore = true;
    assert_eq!(cli.restore_mode(), RestoreMode::NoRestore);
    assert!(!cli.has_resource_arg());
}

#[test]
fn three_resource_args_are_invalid() {
    let cli = cli_with(&["a/b", "1", "2"]);
    assert_eq!(cli.parse_resource_id(), Err(ResourceIdError::Invalid));
    assert_eq!(cli.parse_optional_resource_id(), Err(ResourceIdError::Invalid));
}

#[test]
fn unknown_setting_names_are_refused() {
    assert_eq!(
        "loud".parse::<ThemeName>().unwrap_err(),
        "expected one of default, catppuccin, catppuccin-latte, terminal, tokyo-night, tokyo-night-day, dracula, nord, gruvbox, gruvbox-light, one-dark, one-light, solarized, solarized-light, kanagawa, kanagawa-lotus, rose-pine, rose-pine-dawn, vesper"
    );
    assert!("sometimes".parse::<ScrollbarMode>().is_err());
    assert_eq!("On-Scroll".parse::<ScrollbarMode>(), Ok(ScrollbarMode::OnScroll));
    assert_eq!(ThemeName::all().len(), 19);
    assert_eq!(ThemeName::RosePineDawn.name(), "rose-pine-dawn");
}

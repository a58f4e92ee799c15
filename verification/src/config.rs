//! The user configuration: its defaults, how the values read from
//! `config.toml` are applied, how it is written back, and where it lives.
use vstd::prelude::*;

use crate::domain::resource::{opt_str, strs};
use crate::paths::{join_path, path_join};
use crate::settings::{
    clamp_width, normalize_fixed_width, scrollbar_mode_from_name, scrollbar_mode_name,
    spacing_mode_from_name, spacing_mode_name, symbol_mode_from_name, symbol_mode_name,
    theme_from_name, theme_name, width_mode_from_name, width_mode_name, ContentWidthMode,
    ScrollbarMode, SpacingMode, SymbolMode, ThemeName, DEFAULT_FIXED_CONTENT_WIDTH, MAX_FIXED_CONTENT_WIDTH,
    MIN_FIXED_CONTENT_WIDTH,
};
use crate::text::{decimal, push_str, push_u64};

verus! {

/// The whole configuration.
#[derive(Debug, Clone, Copy, PartialEq, Eq, Structural)]
pub struct AppConfig {
    pub ui: UiConfig,
}

/// The display settings.
#[derive(Debug, Clone, Copy, PartialEq, Eq, Structural)]
pub struct UiConfig {
    pub theme: ThemeName,
    pub symbols: SymbolMode,
    pub spacing: SpacingMode,
    pub width_mode: ContentWidthMode,
    pub fixed_width: u16,
    pub scrollbar: ScrollbarMode,
}

/// A configuration as loaded, with the file it came from and what was wrong
/// with it.
#[derive(Debug, Clone, PartialEq, Eq)]
pub struct LoadedConfig {
    pub config: AppConfig,
    pub path: String,
    pub diagnostics: Vec<String>,
}

/// The `[ui]` table of `config.toml` as written, before its values are checked.
#[derive(Debug, Clone, PartialEq, Eq)]
pub struct RawUiConfig {
    pub theme: Option<String>,
    pub symbols: Option<String>,
    pub spacing: Option<String>,
    pub width_mode: Option<String>,
    pub fixed_width: Option<u16>,
    pub scrollbar: Option<String>,
}

/// What reading and decoding `config.toml` gave.
#[derive(Debug, Clone, PartialEq, Eq)]
pub enum ConfigSource {
    /// There is no file.
    Missing,
    /// The file could not be read, for the reason given.
    Unreadable(String),
    /// The file is not a valid configuration, for the reason given.
    Malformed(String),
    /// The file was decoded; its `[ui]` table, when it has one.
    Decoded(Option<RawUiConfig>),
}

/// The default display settings.
pub open spec fn default_ui() -> UiConfig {
    UiConfig {
        theme: ThemeName::Default,
        symbols: SymbolMode::Emoji,
        spacing: SpacingMode::Comfortable,
        width_mode: ContentWidthMode::Fixed,
        fixed_width: DEFAULT_FIXED_CONTENT_WIDTH,
        scrollbar: ScrollbarMode::OnScroll,
    }
}

pub open spec fn default_config() -> AppConfig {
    AppConfig { ui: default_ui() }
}

impl Default for UiConfig {
    fn default() -> (c: Self)
        ensures
            c == default_ui(),
    {
        UiConfig {
            theme: ThemeName::Default,
            symbols: SymbolMode::Emoji,
            spacing: SpacingMode::Comfortable,
            width_mode: ContentWidthMode::Fixed,
            fixed_width: DEFAULT_FIXED_CONTENT_WIDTH,
            scrollbar: ScrollbarMode::OnScroll,
        }
    }
}

impl Default for AppConfig {
    fn default() -> (c: Self)
        ensures
            c == default_config(),
    {
        AppConfig { ui: UiConfig::default() }
    }
}

/// The text `to_toml` writes.
pub open spec fn toml_spec(c: AppConfig) -> Seq<char> {
    "[ui]\ntheme = \""@ + theme_name(c.ui.theme) + "\"\nsymbols = \""@ + symbol_mode_name(c.ui.symbols)
        + "\"\nspacing = \""@ + spacing_mode_name(c.ui.spacing) + "\"\nwidth_mode = \""@
        + width_mode_name(c.ui.width_mode) + "\"\nfixed_width = "@ + decimal(c.ui.fixed_width as nat)
        + "\nscrollbar = \""@ + scrollbar_mode_name(c.ui.scrollbar) + "\"\n"@
}

impl AppConfig {
    pub fn with_theme(self, theme: ThemeName) -> (c: Self)
        ensures
            c == (AppConfig { ui: UiConfig { theme, ..self.ui } }),
    {
        let mut c = self;
        c.ui.theme = theme;
        c
    }

    pub fn with_symbols(self, symbols: SymbolMode) -> (c: Self)
        ensures
            c == (AppConfig { ui: UiConfig { symbols, ..self.ui } }),
    {
        let mut c = self;
        c.ui.symbols = symbols;
        c
    }

    pub fn with_spacing(self, spacing: SpacingMode) -> (c: Self)
        ensures
            c == (AppConfig { ui: UiConfig { spacing, ..self.ui } }),
    {
        let mut c = self;
        c.ui.spacing = spacing;
        c
    }

    pub fn with_width_mode(self, width_mode: ContentWidthMode) -> (c: Self)
        ensures
            c == (AppConfig { ui: UiConfig { width_mode, ..self.ui } }),
    {
        let mut c = self;
        c.ui.width_mode = width_mode;
        c
    }

    /// Sets the fixed width, held between the narrowest and widest allowed.
    pub fn with_fixed_width(self, fixed_width: u16) -> (c: Self)
        ensures
            c == (AppConfig { ui: UiConfig { fixed_width: clamp_width(fixed_width), ..self.ui } }),
    {
        let mut c = self;
        c.ui.fixed_width = normalize_fixed_width(fixed_width);
        c
    }

    pub fn with_scrollbar(self, scrollbar: ScrollbarMode) -> (c: Self)
        ensures
            c == (AppConfig { ui: UiConfig { scrollbar, ..self.ui } }),
    {
        let mut c = self;
        c.ui.scrollbar = scrollbar;
        c
    }

    /// The configuration as the `config.toml` text it is saved as.
    pub fn to_toml(self) -> (s: String)
        ensures
            s@ == toml_spec(self),
    {
        let mut s = String::new();
        push_str(&mut s, "[ui]\ntheme = \"");
        push_str(&mut s, self.ui.theme.name());
        push_str(&mut s, "\"\nsymbols = \"");
        push_str(&mut s, self.ui.symbols.name());
        push_str(&mut s, "\"\nspacing = \"");
        push_str(&mut s, self.ui.spacing.name());
        push_str(&mut s, "\"\nwidth_mode = \"");
        push_str(&mut s, self.ui.width_mode.name());
        push_str(&mut s, "\"\nfixed_width = ");
        push_u64(&mut s, self.ui.fixed_width as u64);
        push_str(&mut s, "\nscrollbar = \"");
        push_str(&mut s, self.ui.scrollbar.name());
        push_str(&mut s, "\"\n");
        s
    }
}

/// A setting as written, or `fallback` where it is absent or not a known value.
pub open spec fn setting_or<T>(read: Option<Option<T>>, fallback: T) -> T {
    match read {
        Some(Some(v)) => v,
        _ => fallback,
    }
}

/// The complaint about a setting that is not a known value, if it is not.
pub open spec fn setting_diagnostic<T>(key: Seq<char>, raw: Option<String>, read: Option<Option<T>>, error: Seq<char>) -> Seq<Seq<char>> {
    match raw {
        Some(s) => if read == Some(None::<T>) {
            seq!["invalid ui."@ + key + " `"@ + s@ + "`: "@ + error]
        } else {
            Seq::empty()
        },
        None => Seq::empty(),
    }
}

pub open spec fn read_theme(raw: Option<String>) -> Option<Option<ThemeName>> {
    match raw {
        Some(s) => Some(theme_from_name(s@)),
        None => None,
    }
}

pub open spec fn theme_diagnostic(raw: Option<String>) -> Seq<Seq<char>> {
    setting_diagnostic("theme"@, raw, read_theme(raw), "expected one of default, catppuccin, catppuccin-latte, terminal, tokyo-night, tokyo-night-day, dracula, nord, gruvbox, gruvbox-light, one-dark, one-light, solarized, solarized-light, kanagawa, kanagawa-lotus, rose-pine, rose-pine-dawn, vesper"@)
}

/// The `theme` setting as written, or `fallback`, recording a complaint
/// when it is not a known value.
fn apply_theme(raw: &Option<String>, fallback: ThemeName, diagnostics: &mut Vec<String>) -> (v: ThemeName)
    ensures
        v == setting_or(read_theme(*raw), fallback),
        strs(final(diagnostics)@) == strs(old(diagnostics)@) + theme_diagnostic(*raw),
{
    match raw {
        Some(s) => match ThemeName::from_name(s.as_str()) {
            Ok(t) => {
                proof {
                    assert(strs(diagnostics@) + theme_diagnostic(*raw) =~= strs(diagnostics@));
                }
                t
            },
            Err(e) => {
                push_invalid(diagnostics, "theme", s.as_str(), e.as_str());
                fallback
            },
        },
        None => {
            proof {
                assert(strs(diagnostics@) + theme_diagnostic(*raw) =~= strs(diagnostics@));
            }
            fallback
        },
    }
}

pub open spec fn read_symbols(raw: Option<String>) -> Option<Option<SymbolMode>> {
    match raw {
        Some(s) => Some(symbol_mode_from_name(s@)),
        None => None,
    }
}

pub open spec fn symbols_diagnostic(raw: Option<String>) -> Seq<Seq<char>> {
    setting_diagnostic("symbols"@, raw, read_symbols(raw), "expected one of emoji, ascii"@)
}

/// The `symbols` setting as written, or `fallback`, recording a complaint
/// when it is not a known value.
fn apply_symbols(raw: &Option<String>, fallback: SymbolMode, diagnostics: &mut Vec<String>) -> (v: SymbolMode)
    ensures
        v == setting_or(read_symbols(*raw), fallback),
        strs(final(diagnostics)@) == strs(old(diagnostics)@) + symbols_diagnostic(*raw),
{
    match raw {
        Some(s) => match SymbolMode::from_name(s.as_str()) {
            Ok(t) => {
                proof {
                    assert(strs(diagnostics@) + symbols_diagnostic(*raw) =~= strs(diagnostics@));
                }
                t
            },
            Err(e) => {
                push_invalid(diagnostics, "symbols", s.as_str(), e.as_str());
                fallback
            },
        },
        None => {
            proof {
                assert(strs(diagnostics@) + symbols_diagnostic(*raw) =~= strs(diagnostics@));
            }
            fallback
        },
    }
}

pub open spec fn read_spacing(raw: Option<String>) -> Option<Option<SpacingMode>> {
    match raw {
        Some(s) => Some(spacing_mode_from_name(s@)),
        None => None,
    }
}

pub open spec fn spacing_diagnostic(raw: Option<String>) -> Seq<Seq<char>> {
    setting_diagnostic("spacing"@, raw, read_spacing(raw), "expected one of comfortable, compact"@)
}

/// The `spacing` setting as written, or `fallback`, recording a complaint
/// when it is not a known value.
fn apply_spacing(raw: &Option<String>, fallback: SpacingMode, diagnostics: &mut Vec<String>) -> (v: SpacingMode)
    ensures
        v == setting_or(read_spacing(*raw), fallback),
        strs(final(diagnostics)@) == strs(old(diagnostics)@) + spacing_diagnostic(*raw),
{
    match raw {
        Some(s) => match SpacingMode::from_name(s.as_str()) {
            Ok(t) => {
                proof {
                    assert(strs(diagnostics@) + spacing_diagnostic(*raw) =~= strs(diagnostics@));
                }
                t
            },
            Err(e) => {
                push_invalid(diagnostics, "spacing", s.as_str(), e.as_str());
                fallback
            },
        },
        None => {
            proof {
                assert(strs(diagnostics@) + spacing_diagnostic(*raw) =~= strs(diagnostics@));
            }
            fallback
        },
    }
}

pub open spec fn read_width_mode(raw: Option<String>) -> Option<Option<ContentWidthMode>> {
    match raw {
        Some(s) => Some(width_mode_from_name(s@)),
        None => None,
    }
}

pub open spec fn width_mode_diagnostic(raw: Option<String>) -> Seq<Seq<char>> {
    setting_diagnostic("width_mode"@, raw, read_width_mode(raw), "expected one of fixed, full"@)
}

/// The `width_mode` setting as written, or `fallback`, recording a complaint
/// when it is not a known value.
fn apply_width_mode(raw: &Option<String>, fallback: ContentWidthMode, diagnostics: &mut Vec<String>) -> (v: ContentWidthMode)
    ensures
        v == setting_or(read_width_mode(*raw), fallback),
        strs(final(diagnostics)@) == strs(old(diagnostics)@) + width_mode_diagnostic(*raw),
{
    match raw {
        Some(s) => match ContentWidthMode::from_name(s.as_str()) {
            Ok(t) => {
                proof {
                    assert(strs(diagnostics@) + width_mode_diagnostic(*raw) =~= strs(diagnostics@));
                }
                t
            },
            Err(e) => {
                push_invalid(diagnostics, "width_mode", s.as_str(), e.as_str());
                fallback
            },
        },
        None => {
            proof {
                assert(strs(diagnostics@) + width_mode_diagnostic(*raw) =~= strs(diagnostics@));
            }
            fallback
        },
    }
}

pub open spec fn read_scrollbar(raw: Option<String>) -> Option<Option<ScrollbarMode>> {
    match raw {
        Some(s) => Some(scrollbar_mode_from_name(s@)),
        None => None,
    }
}

pub open spec fn scrollbar_diagnostic(raw: Option<String>) -> Seq<Seq<char>> {
    setting_diagnostic("scrollbar"@, raw, read_scrollbar(raw), "expected one of always, on-scroll, hidden"@)
}

/// The `scrollbar` setting as written, or `fallback`, recording a complaint
/// when it is not a known value.
fn apply_scrollbar(raw: &Option<String>, fallback: ScrollbarMode, diagnostics: &mut Vec<String>) -> (v: ScrollbarMode)
    ensures
        v == setting_or(read_scrollbar(*raw), fallback),
        strs(final(diagnostics)@) == strs(old(diagnostics)@) + scrollbar_diagnostic(*raw),
{
    match raw {
        Some(s) => match ScrollbarMode::from_name(s.as_str()) {
            Ok(t) => {
                proof {
                    assert(strs(diagnostics@) + scrollbar_diagnostic(*raw) =~= strs(diagnostics@));
                }
                t
            },
            Err(e) => {
                push_invalid(diagnostics, "scrollbar", s.as_str(), e.as_str());
                fallback
            },
        },
        None => {
            proof {
                assert(strs(diagnostics@) + scrollbar_diagnostic(*raw) =~= strs(diagnostics@));
            }
            fallback
        },
    }
}

/// The configuration a decoded `[ui]` table gives: every known value taken,
/// the fixed width held to its range, every other setting at its default.
pub open spec fn config_from_raw_spec(ui: Option<RawUiConfig>) -> AppConfig {
    match ui {
        None => default_config(),
        Some(u) => AppConfig {
            ui: UiConfig {
                theme: setting_or(read_theme(u.theme), ThemeName::Default),
                symbols: setting_or(read_symbols(u.symbols), SymbolMode::Emoji),
                spacing: setting_or(read_spacing(u.spacing), SpacingMode::Comfortable),
                width_mode: setting_or(read_width_mode(u.width_mode), ContentWidthMode::Fixed),
                fixed_width: match u.fixed_width {
                    Some(w) => clamp_width(w),
                    None => DEFAULT_FIXED_CONTENT_WIDTH,
                },
                scrollbar: setting_or(read_scrollbar(u.scrollbar), ScrollbarMode::OnScroll),
            },
        },
    }
}

/// One complaint for each setting that is not a known value, in table order.
pub open spec fn raw_diagnostics(ui: Option<RawUiConfig>) -> Seq<Seq<char>> {
    match ui {
        None => Seq::empty(),
        Some(u) => theme_diagnostic(u.theme) + symbols_diagnostic(u.symbols) + spacing_diagnostic(u.spacing)
            + width_mode_diagnostic(u.width_mode) + scrollbar_diagnostic(u.scrollbar),
    }
}

/// Appends `invalid ui.<key> `<value>`: <error>` to `diagnostics`.
fn push_invalid(diagnostics: &mut Vec<String>, key: &str, value: &str, error: &str)
    ensures
        strs(final(diagnostics)@) == strs(old(diagnostics)@).push("invalid ui."@ + key@ + " `"@ + value@ + "`: "@ + error@),
{
    let mut d = String::new();
    push_str(&mut d, "invalid ui.");
    push_str(&mut d, key);
    push_str(&mut d, " `");
    push_str(&mut d, value);
    push_str(&mut d, "`: ");
    push_str(&mut d, error);
    diagnostics.push(d);
    proof {
        assert(strs(diagnostics@) =~= strs(old(diagnostics)@).push(d@));
    }
}

/// Applies a decoded `[ui]` table, recording each setting that is not a
/// known value in `diagnostics`.
pub fn config_from_raw(ui: Option<RawUiConfig>, diagnostics: &mut Vec<String>) -> (c: AppConfig)
    ensures
        c == config_from_raw_spec(ui),
        strs(final(diagnostics)@) == strs(old(diagnostics)@) + raw_diagnostics(ui),
{
    match ui {
        None => {
            proof {
                assert(strs(diagnostics@) + raw_diagnostics(ui) =~= strs(diagnostics@));
            }
            AppConfig::default()
        },
        Some(u) => {
            let ghost start = strs(diagnostics@);
            let theme = apply_theme(&u.theme, ThemeName::Default, diagnostics);
            let symbols = apply_symbols(&u.symbols, SymbolMode::Emoji, diagnostics);
            let spacing = apply_spacing(&u.spacing, SpacingMode::Comfortable, diagnostics);
            let width_mode = apply_width_mode(&u.width_mode, ContentWidthMode::Fixed, diagnostics);
            let fixed_width = match u.fixed_width {
                Some(w) => normalize_fixed_width(w),
                None => DEFAULT_FIXED_CONTENT_WIDTH,
            };
            let scrollbar = apply_scrollbar(&u.scrollbar, ScrollbarMode::OnScroll, diagnostics);
            proof {
                assert(strs(diagnostics@) =~= start + raw_diagnostics(ui));
            }
            AppConfig { ui: UiConfig { theme, symbols, spacing, width_mode, fixed_width, scrollbar } }
        },
    }
}

/// The configuration that loading the file at `path` gives, from what
/// reading and decoding it produced: the defaults when there is no file,
/// the defaults and a complaint when it cannot be read or decoded, else the
/// decoded values (see `config_from_raw`).
pub open spec fn load_spec(path: Seq<char>, source: ConfigSource) -> (AppConfig, Seq<Seq<char>>) {
    match source {
        ConfigSource::Missing => (default_config(), Seq::empty()),
        ConfigSource::Unreadable(e) => (default_config(), seq!["failed to read config "@ + path + ": "@ + e@]),
        ConfigSource::Malformed(e) => (default_config(), seq!["failed to parse config.toml: "@ + e@]),
        ConfigSource::Decoded(ui) => (config_from_raw_spec(ui), raw_diagnostics(ui)),
    }
}

/// Loads the configuration of `path` from what reading it gave (see `load_spec`).
pub fn load(path: String, source: ConfigSource) -> (l: LoadedConfig)
    ensures
        l.path@ == path@,
        l.config == load_spec(path@, source).0,
        strs(l.diagnostics@) == load_spec(path@, source).1,
{
    let mut diagnostics: Vec<String> = Vec::new();
    let config = match source {
        ConfigSource::Missing => AppConfig::default(),
        ConfigSource::Unreadable(e) => {
            let mut d = String::new();
            push_str(&mut d, "failed to read config ");
            push_str(&mut d, path.as_str());
            push_str(&mut d, ": ");
            push_str(&mut d, e.as_str());
            diagnostics.push(d);
            AppConfig::default()
        },
        ConfigSource::Malformed(e) => {
            let mut d = String::new();
            push_str(&mut d, "failed to parse config.toml: ");
            push_str(&mut d, e.as_str());
            diagnostics.push(d);
            AppConfig::default()
        },
        ConfigSource::Decoded(ui) => {
            let c = config_from_raw(ui, &mut diagnostics);
            proof {
                assert(strs(Seq::<String>::empty()) =~= Seq::<Seq<char>>::empty());
                assert(Seq::<Seq<char>>::empty() + raw_diagnostics(ui) =~= raw_diagnostics(ui));
            }
            c
        },
    };
    proof {
        assert(strs(diagnostics@) =~= load_spec(path@, source).1);
    }
    LoadedConfig { config, path, diagnostics }
}

/// Where the configuration lives: the override path when given; else
/// `ghzinga/config.toml` under the XDG configuration home; else
/// `.config/ghzinga/config.toml` under the home directory; else
/// `./ghzinga/config.toml`.
pub open spec fn config_path_spec(override_path: Option<Seq<char>>, xdg_config_home: Option<Seq<char>>, home: Option<Seq<char>>) -> Seq<char> {
    match override_path {
        Some(p) => p,
        None => match xdg_config_home {
            Some(x) => path_join(path_join(x, "ghzinga"@), "config.toml"@),
            None => match home {
                Some(h) => path_join(path_join(path_join(h, ".config"@), "ghzinga"@), "config.toml"@),
                None => path_join(path_join("."@, "ghzinga"@), "config.toml"@),
            },
        },
    }
}

/// Where the configuration lives, given the environment (see `config_path_spec`).
pub fn config_path_from_env(override_path: Option<String>, xdg_config_home: Option<String>, home: Option<String>) -> (p: String)
    ensures
        p@ == config_path_spec(opt_str(override_path), opt_str(xdg_config_home), opt_str(home)),
{
    if let Some(path) = override_path {
        return path;
    }
    if let Some(x) = xdg_config_home {
        let d = join_path(x.as_str(), "ghzinga");
        return join_path(d.as_str(), "config.toml");
    }
    if let Some(h) = home {
        let c = join_path(h.as_str(), ".config");
        let d = join_path(c.as_str(), "ghzinga");
        return join_path(d.as_str(), "config.toml");
    }
    let d = join_path(".", "ghzinga");
    join_path(d.as_str(), "config.toml")
}


/// A configuration written out and read back is the configuration again,
/// with no complaint: every setting is read from the name it is written
/// with, and a fixed width within its bounds stays as it is.
pub proof fn law_saved_settings_read_back(c: AppConfig, raw: RawUiConfig)
    requires
        MIN_FIXED_CONTENT_WIDTH <= c.ui.fixed_width <= MAX_FIXED_CONTENT_WIDTH,
        raw.theme is Some && raw.theme->0@ == theme_name(c.ui.theme),
        raw.symbols is Some && raw.symbols->0@ == symbol_mode_name(c.ui.symbols),
        raw.spacing is Some && raw.spacing->0@ == spacing_mode_name(c.ui.spacing),
        raw.width_mode is Some && raw.width_mode->0@ == width_mode_name(c.ui.width_mode),
        raw.fixed_width == Some(c.ui.fixed_width),
        raw.scrollbar is Some && raw.scrollbar->0@ == scrollbar_mode_name(c.ui.scrollbar),
    ensures
        config_from_raw_spec(Some(raw)) == c,
        raw_diagnostics(Some(raw)).len() == 0,
{
    crate::settings::law_theme_name_round_trip(c.ui.theme);
    crate::settings::law_symbols_name_round_trip(c.ui.symbols);
    crate::settings::law_spacing_name_round_trip(c.ui.spacing);
    crate::settings::law_width_mode_name_round_trip(c.ui.width_mode);
    crate::settings::law_scrollbar_name_round_trip(c.ui.scrollbar);
    assert(raw_diagnostics(Some(raw)) =~= Seq::<Seq<char>>::empty());
}

} // verus!

//! The display settings of the interface and the names they are written
//! with on the command line, in the configuration file and in control
//! commands.
use vstd::prelude::*;

use crate::text::{folded, is_ws, lower_seq, trim};

verus! {

/// The narrowest fixed content width, in columns.
pub const MIN_FIXED_CONTENT_WIDTH: u16 = 72;

/// The widest fixed content width, in columns.
pub const MAX_FIXED_CONTENT_WIDTH: u16 = 180;

/// The fixed content width used when none is configured.
pub const DEFAULT_FIXED_CONTENT_WIDTH: u16 = 118;

/// A fixed content width held between the narrowest and the widest.
pub open spec fn clamp_width(width: u16) -> u16 {
    if width < MIN_FIXED_CONTENT_WIDTH {
        MIN_FIXED_CONTENT_WIDTH
    } else if width > MAX_FIXED_CONTENT_WIDTH {
        MAX_FIXED_CONTENT_WIDTH
    } else {
        width
    }
}

/// Holds a fixed content width between the narrowest and the widest.
pub fn normalize_fixed_width(width: u16) -> (w: u16)
    ensures
        w == clamp_width(width),
{
    if width < MIN_FIXED_CONTENT_WIDTH {
        MIN_FIXED_CONTENT_WIDTH
    } else if width > MAX_FIXED_CONTENT_WIDTH {
        MAX_FIXED_CONTENT_WIDTH
    } else {
        width
    }
}

/// The color theme of the interface.
#[derive(Debug, Clone, Copy, PartialEq, Eq, Hash, Structural)]
pub enum ThemeName {
    Default,
    Catppuccin,
    CatppuccinLatte,
    Terminal,
    TokyoNight,
    TokyoNightDay,
    Dracula,
    Nord,
    Gruvbox,
    GruvboxLight,
    OneDark,
    OneLight,
    Solarized,
    SolarizedLight,
    Kanagawa,
    KanagawaLotus,
    RosePine,
    RosePineDawn,
    Vesper,
}

/// The name `ThemeName` values are written with.
pub open spec fn theme_name(v: ThemeName) -> Seq<char> {
    match v {
        ThemeName::Default => "default"@,
        ThemeName::Catppuccin => "catppuccin"@,
        ThemeName::CatppuccinLatte => "catppuccin-latte"@,
        ThemeName::Terminal => "terminal"@,
        ThemeName::TokyoNight => "tokyo-night"@,
        ThemeName::TokyoNightDay => "tokyo-night-day"@,
        ThemeName::Dracula => "dracula"@,
        ThemeName::Nord => "nord"@,
        ThemeName::Gruvbox => "gruvbox"@,
        ThemeName::GruvboxLight => "gruvbox-light"@,
        ThemeName::OneDark => "one-dark"@,
        ThemeName::OneLight => "one-light"@,
        ThemeName::Solarized => "solarized"@,
        ThemeName::SolarizedLight => "solarized-light"@,
        ThemeName::Kanagawa => "kanagawa"@,
        ThemeName::KanagawaLotus => "kanagawa-lotus"@,
        ThemeName::RosePine => "rose-pine"@,
        ThemeName::RosePineDawn => "rose-pine-dawn"@,
        ThemeName::Vesper => "vesper"@,
    }
}

/// The value a written name selects, ignoring case and surrounding whitespace; `solarized-dark` is read as `solarized`.
pub open spec fn theme_from_name(input: Seq<char>) -> Option<ThemeName> {
    let t = lower_seq(trim(input));
    if t == "default"@ {
        Some(ThemeName::Default)
    } else if t == "catppuccin"@ {
        Some(ThemeName::Catppuccin)
    } else if t == "catppuccin-latte"@ {
        Some(ThemeName::CatppuccinLatte)
    } else if t == "terminal"@ {
        Some(ThemeName::Terminal)
    } else if t == "tokyo-night"@ {
        Some(ThemeName::TokyoNight)
    } else if t == "tokyo-night-day"@ {
        Some(ThemeName::TokyoNightDay)
    } else if t == "dracula"@ {
        Some(ThemeName::Dracula)
    } else if t == "nord"@ {
        Some(ThemeName::Nord)
    } else if t == "gruvbox"@ {
        Some(ThemeName::Gruvbox)
    } else if t == "gruvbox-light"@ {
        Some(ThemeName::GruvboxLight)
    } else if t == "one-dark"@ {
        Some(ThemeName::OneDark)
    } else if t == "one-light"@ {
        Some(ThemeName::OneLight)
    } else if t == "solarized"@ {
        Some(ThemeName::Solarized)
    } else if t == "solarized-light"@ {
        Some(ThemeName::SolarizedLight)
    } else if t == "kanagawa"@ {
        Some(ThemeName::Kanagawa)
    } else if t == "kanagawa-lotus"@ {
        Some(ThemeName::KanagawaLotus)
    } else if t == "rose-pine"@ {
        Some(ThemeName::RosePine)
    } else if t == "rose-pine-dawn"@ {
        Some(ThemeName::RosePineDawn)
    } else if t == "vesper"@ {
        Some(ThemeName::Vesper)
    } else if t == "solarized-dark"@ {
        Some(ThemeName::Solarized)
    } else {
        None
    }
}

impl ThemeName {
    /// Every value, in the order the settings view cycles through them.
    pub fn all() -> (v: Vec<ThemeName>)
        ensures
            v@ == seq![ThemeName::Default, ThemeName::Catppuccin, ThemeName::CatppuccinLatte, ThemeName::Terminal, ThemeName::TokyoNight, ThemeName::TokyoNightDay, ThemeName::Dracula, ThemeName::Nord, ThemeName::Gruvbox, ThemeName::GruvboxLight, ThemeName::OneDark, ThemeName::OneLight, ThemeName::Solarized, ThemeName::SolarizedLight, ThemeName::Kanagawa, ThemeName::KanagawaLotus, ThemeName::RosePine, ThemeName::RosePineDawn, ThemeName::Vesper],
    {
        let mut v: Vec<ThemeName> = Vec::new();
        v.push(ThemeName::Default);
        v.push(ThemeName::Catppuccin);
        v.push(ThemeName::CatppuccinLatte);
        v.push(ThemeName::Terminal);
        v.push(ThemeName::TokyoNight);
        v.push(ThemeName::TokyoNightDay);
        v.push(ThemeName::Dracula);
        v.push(ThemeName::Nord);
        v.push(ThemeName::Gruvbox);
        v.push(ThemeName::GruvboxLight);
        v.push(ThemeName::OneDark);
        v.push(ThemeName::OneLight);
        v.push(ThemeName::Solarized);
        v.push(ThemeName::SolarizedLight);
        v.push(ThemeName::Kanagawa);
        v.push(ThemeName::KanagawaLotus);
        v.push(ThemeName::RosePine);
        v.push(ThemeName::RosePineDawn);
        v.push(ThemeName::Vesper);
        proof {
            assert(v@ =~= seq![ThemeName::Default, ThemeName::Catppuccin, ThemeName::CatppuccinLatte, ThemeName::Terminal, ThemeName::TokyoNight, ThemeName::TokyoNightDay, ThemeName::Dracula, ThemeName::Nord, ThemeName::Gruvbox, ThemeName::GruvboxLight, ThemeName::OneDark, ThemeName::OneLight, ThemeName::Solarized, ThemeName::SolarizedLight, ThemeName::Kanagawa, ThemeName::KanagawaLotus, ThemeName::RosePine, ThemeName::RosePineDawn, ThemeName::Vesper]);
        }
        v
    }

    /// The name this value is written with.
    pub fn name(self) -> (s: &'static str)
        ensures
            s@ == theme_name(self),
    {
        match self {
            ThemeName::Default => "default",
            ThemeName::Catppuccin => "catppuccin",
            ThemeName::CatppuccinLatte => "catppuccin-latte",
            ThemeName::Terminal => "terminal",
            ThemeName::TokyoNight => "tokyo-night",
            ThemeName::TokyoNightDay => "tokyo-night-day",
            ThemeName::Dracula => "dracula",
            ThemeName::Nord => "nord",
            ThemeName::Gruvbox => "gruvbox",
            ThemeName::GruvboxLight => "gruvbox-light",
            ThemeName::OneDark => "one-dark",
            ThemeName::OneLight => "one-light",
            ThemeName::Solarized => "solarized",
            ThemeName::SolarizedLight => "solarized-light",
            ThemeName::Kanagawa => "kanagawa",
            ThemeName::KanagawaLotus => "kanagawa-lotus",
            ThemeName::RosePine => "rose-pine",
            ThemeName::RosePineDawn => "rose-pine-dawn",
            ThemeName::Vesper => "vesper",
        }
    }

    /// Reads a written name (see `theme_from_name`).
    pub fn from_name(input: &str) -> (r: Result<ThemeName, String>)
        ensures
            match theme_from_name(input@) {
                Some(v) => r == Ok::<ThemeName, String>(v),
                None => r is Err && r->Err_0@ == "expected one of default, catppuccin, catppuccin-latte, terminal, tokyo-night, tokyo-night-day, dracula, nord, gruvbox, gruvbox-light, one-dark, one-light, solarized, solarized-light, kanagawa, kanagawa-lotus, rose-pine, rose-pine-dawn, vesper"@,
            },
    {
        let f = folded(input);
        let t = f.as_str();
        if crate::text::str_eq(t, "default") {
            Ok(ThemeName::Default)
        } else if crate::text::str_eq(t, "catppuccin") {
            Ok(ThemeName::Catppuccin)
        } else if crate::text::str_eq(t, "catppuccin-latte") {
            Ok(ThemeName::CatppuccinLatte)
        } else if crate::text::str_eq(t, "terminal") {
            Ok(ThemeName::Terminal)
        } else if crate::text::str_eq(t, "tokyo-night") {
            Ok(ThemeName::TokyoNight)
        } else if crate::text::str_eq(t, "tokyo-night-day") {
            Ok(ThemeName::TokyoNightDay)
        } else if crate::text::str_eq(t, "dracula") {
            Ok(ThemeName::Dracula)
        } else if crate::text::str_eq(t, "nord") {
            Ok(ThemeName::Nord)
        } else if crate::text::str_eq(t, "gruvbox") {
            Ok(ThemeName::Gruvbox)
        } else if crate::text::str_eq(t, "gruvbox-light") {
            Ok(ThemeName::GruvboxLight)
        } else if crate::text::str_eq(t, "one-dark") {
            Ok(ThemeName::OneDark)
        } else if crate::text::str_eq(t, "one-light") {
            Ok(ThemeName::OneLight)
        } else if crate::text::str_eq(t, "solarized") {
            Ok(ThemeName::Solarized)
        } else if crate::text::str_eq(t, "solarized-light") {
            Ok(ThemeName::SolarizedLight)
        } else if crate::text::str_eq(t, "kanagawa") {
            Ok(ThemeName::Kanagawa)
        } else if crate::text::str_eq(t, "kanagawa-lotus") {
            Ok(ThemeName::KanagawaLotus)
        } else if crate::text::str_eq(t, "rose-pine") {
            Ok(ThemeName::RosePine)
        } else if crate::text::str_eq(t, "rose-pine-dawn") {
            Ok(ThemeName::RosePineDawn)
        } else if crate::text::str_eq(t, "vesper") {
            Ok(ThemeName::Vesper)
        } else if crate::text::str_eq(t, "solarized-dark") {
            Ok(ThemeName::Solarized)
        } else {
            Err(crate::text::owned("expected one of default, catppuccin, catppuccin-latte, terminal, tokyo-night, tokyo-night-day, dracula, nord, gruvbox, gruvbox-light, one-dark, one-light, solarized, solarized-light, kanagawa, kanagawa-lotus, rose-pine, rose-pine-dawn, vesper"))
        }
    }
}

impl std::str::FromStr for ThemeName {
    type Err = String;

    fn from_str(input: &str) -> Result<Self, Self::Err> {
        ThemeName::from_name(input)
    }
}

/// How status and kinds are drawn: emoji or plain ASCII.
#[derive(Debug, Clone, Copy, PartialEq, Eq, Hash, Structural)]
pub enum SymbolMode {
    Emoji,
    Ascii,
}

/// The name `SymbolMode` values are written with.
pub open spec fn symbol_mode_name(v: SymbolMode) -> Seq<char> {
    match v {
        SymbolMode::Emoji => "emoji"@,
        SymbolMode::Ascii => "ascii"@,
    }
}

/// The value a written name selects, ignoring case and surrounding whitespace.
pub open spec fn symbol_mode_from_name(input: Seq<char>) -> Option<SymbolMode> {
    let t = lower_seq(trim(input));
    if t == "emoji"@ {
        Some(SymbolMode::Emoji)
    } else if t == "ascii"@ {
        Some(SymbolMode::Ascii)
    } else {
        None
    }
}

impl SymbolMode {
    /// Every value, in the order the settings view cycles through them.
    pub fn all() -> (v: Vec<SymbolMode>)
        ensures
            v@ == seq![SymbolMode::Emoji, SymbolMode::Ascii],
    {
        let mut v: Vec<SymbolMode> = Vec::new();
        v.push(SymbolMode::Emoji);
        v.push(SymbolMode::Ascii);
        proof {
            assert(v@ =~= seq![SymbolMode::Emoji, SymbolMode::Ascii]);
        }
        v
    }

    /// The name this value is written with.
    pub fn name(self) -> (s: &'static str)
        ensures
            s@ == symbol_mode_name(self),
    {
        match self {
            SymbolMode::Emoji => "emoji",
            SymbolMode::Ascii => "ascii",
        }
    }

    /// Reads a written name (see `symbol_mode_from_name`).
    pub fn from_name(input: &str) -> (r: Result<SymbolMode, String>)
        ensures
            match symbol_mode_from_name(input@) {
                Some(v) => r == Ok::<SymbolMode, String>(v),
                None => r is Err && r->Err_0@ == "expected one of emoji, ascii"@,
            },
    {
        let f = folded(input);
        let t = f.as_str();
        if crate::text::str_eq(t, "emoji") {
            Ok(SymbolMode::Emoji)
        } else if crate::text::str_eq(t, "ascii") {
            Ok(SymbolMode::Ascii)
        } else {
            Err(crate::text::owned("expected one of emoji, ascii"))
        }
    }
}

impl std::str::FromStr for SymbolMode {
    type Err = String;

    fn from_str(input: &str) -> Result<Self, Self::Err> {
        SymbolMode::from_name(input)
    }
}

/// The vertical spacing of the detail view.
#[derive(Debug, Clone, Copy, PartialEq, Eq, Hash, Structural)]
pub enum SpacingMode {
    Comfortable,
    Compact,
}

/// The name `SpacingMode` values are written with.
pub open spec fn spacing_mode_name(v: SpacingMode) -> Seq<char> {
    match v {
        SpacingMode::Comfortable => "comfortable"@,
        SpacingMode::Compact => "compact"@,
    }
}

/// The value a written name selects, ignoring case and surrounding whitespace.
pub open spec fn spacing_mode_from_name(input: Seq<char>) -> Option<SpacingMode> {
    let t = lower_seq(trim(input));
    if t == "comfortable"@ {
        Some(SpacingMode::Comfortable)
    } else if t == "compact"@ {
        Some(SpacingMode::Compact)
    } else {
        None
    }
}

impl SpacingMode {
    /// Every value, in the order the settings view cycles through them.
    pub fn all() -> (v: Vec<SpacingMode>)
        ensures
            v@ == seq![SpacingMode::Comfortable, SpacingMode::Compact],
    {
        let mut v: Vec<SpacingMode> = Vec::new();
        v.push(SpacingMode::Comfortable);
        v.push(SpacingMode::Compact);
        proof {
            assert(v@ =~= seq![SpacingMode::Comfortable, SpacingMode::Compact]);
        }
        v
    }

    /// The name this value is written with.
    pub fn name(self) -> (s: &'static str)
        ensures
            s@ == spacing_mode_name(self),
    {
        match self {
            SpacingMode::Comfortable => "comfortable",
            SpacingMode::Compact => "compact",
        }
    }

    /// Reads a written name (see `spacing_mode_from_name`).
    pub fn from_name(input: &str) -> (r: Result<SpacingMode, String>)
        ensures
            match spacing_mode_from_name(input@) {
                Some(v) => r == Ok::<SpacingMode, String>(v),
                None => r is Err && r->Err_0@ == "expected one of comfortable, compact"@,
            },
    {
        let f = folded(input);
        let t = f.as_str();
        if crate::text::str_eq(t, "comfortable") {
            Ok(SpacingMode::Comfortable)
        } else if crate::text::str_eq(t, "compact") {
            Ok(SpacingMode::Compact)
        } else {
            Err(crate::text::owned("expected one of comfortable, compact"))
        }
    }
}

impl std::str::FromStr for SpacingMode {
    type Err = String;

    fn from_str(input: &str) -> Result<Self, Self::Err> {
        SpacingMode::from_name(input)
    }
}

/// Whether content keeps a fixed width or fills the terminal.
#[derive(Debug, Clone, Copy, PartialEq, Eq, Hash, Structural)]
pub enum ContentWidthMode {
    Fixed,
    Full,
}

/// The name `ContentWidthMode` values are written with.
pub open spec fn width_mode_name(v: ContentWidthMode) -> Seq<char> {
    match v {
        ContentWidthMode::Fixed => "fixed"@,
        ContentWidthMode::Full => "full"@,
    }
}

/// The value a written name selects, ignoring case and surrounding whitespace.
pub open spec fn width_mode_from_name(input: Seq<char>) -> Option<ContentWidthMode> {
    let t = lower_seq(trim(input));
    if t == "fixed"@ {
        Some(ContentWidthMode::Fixed)
    } else if t == "full"@ {
        Some(ContentWidthMode::Full)
    } else {
        None
    }
}

impl ContentWidthMode {
    /// Every value, in the order the settings view cycles through them.
    pub fn all() -> (v: Vec<ContentWidthMode>)
        ensures
            v@ == seq![ContentWidthMode::Fixed, ContentWidthMode::Full],
    {
        let mut v: Vec<ContentWidthMode> = Vec::new();
        v.push(ContentWidthMode::Fixed);
        v.push(ContentWidthMode::Full);
        proof {
            assert(v@ =~= seq![ContentWidthMode::Fixed, ContentWidthMode::Full]);
        }
        v
    }

    /// The name this value is written with.
    pub fn name(self) -> (s: &'static str)
        ensures
            s@ == width_mode_name(self),
    {
        match self {
            ContentWidthMode::Fixed => "fixed",
            ContentWidthMode::Full => "full",
        }
    }

    /// Reads a written name (see `width_mode_from_name`).
    pub fn from_name(input: &str) -> (r: Result<ContentWidthMode, String>)
        ensures
            match width_mode_from_name(input@) {
                Some(v) => r == Ok::<ContentWidthMode, String>(v),
                None => r is Err && r->Err_0@ == "expected one of fixed, full"@,
            },
    {
        let f = folded(input);
        let t = f.as_str();
        if crate::text::str_eq(t, "fixed") {
            Ok(ContentWidthMode::Fixed)
        } else if crate::text::str_eq(t, "full") {
            Ok(ContentWidthMode::Full)
        } else {
            Err(crate::text::owned("expected one of fixed, full"))
        }
    }
}

impl std::str::FromStr for ContentWidthMode {
    type Err = String;

    fn from_str(input: &str) -> Result<Self, Self::Err> {
        ContentWidthMode::from_name(input)
    }
}

/// When the scrollbar shows.
#[derive(Debug, Clone, Copy, PartialEq, Eq, Hash, Structural)]
pub enum ScrollbarMode {
    Always,
    OnScroll,
    Hidden,
}

/// The name `ScrollbarMode` values are written with.
pub open spec fn scrollbar_mode_name(v: ScrollbarMode) -> Seq<char> {
    match v {
        ScrollbarMode::Always => "always"@,
        ScrollbarMode::OnScroll => "on-scroll"@,
        ScrollbarMode::Hidden => "hidden"@,
    }
}

/// The value a written name selects, ignoring case and surrounding whitespace.
pub open spec fn scrollbar_mode_from_name(input: Seq<char>) -> Option<ScrollbarMode> {
    let t = lower_seq(trim(input));
    if t == "always"@ {
        Some(ScrollbarMode::Always)
    } else if t == "on-scroll"@ {
        Some(ScrollbarMode::OnScroll)
    } else if t == "hidden"@ {
        Some(ScrollbarMode::Hidden)
    } else {
        None
    }
}

impl ScrollbarMode {
    /// Every value, in the order the settings view cycles through them.
    pub fn all() -> (v: Vec<ScrollbarMode>)
        ensures
            v@ == seq![ScrollbarMode::Always, ScrollbarMode::OnScroll, ScrollbarMode::Hidden],
    {
        let mut v: Vec<ScrollbarMode> = Vec::new();
        v.push(ScrollbarMode::Always);
        v.push(ScrollbarMode::OnScroll);
        v.push(ScrollbarMode::Hidden);
        proof {
            assert(v@ =~= seq![ScrollbarMode::Always, ScrollbarMode::OnScroll, ScrollbarMode::Hidden]);
        }
        v
    }

    /// The name this value is written with.
    pub fn name(self) -> (s: &'static str)
        ensures
            s@ == scrollbar_mode_name(self),
    {
        match self {
            ScrollbarMode::Always => "always",
            ScrollbarMode::OnScroll => "on-scroll",
            ScrollbarMode::Hidden => "hidden",
        }
    }

    /// Reads a written name (see `scrollbar_mode_from_name`).
    pub fn from_name(input: &str) -> (r: Result<ScrollbarMode, String>)
        ensures
            match scrollbar_mode_from_name(input@) {
                Some(v) => r == Ok::<ScrollbarMode, String>(v),
                None => r is Err && r->Err_0@ == "expected one of always, on-scroll, hidden"@,
            },
    {
        let f = folded(input);
        let t = f.as_str();
        if crate::text::str_eq(t, "always") {
            Ok(ScrollbarMode::Always)
        } else if crate::text::str_eq(t, "on-scroll") {
            Ok(ScrollbarMode::OnScroll)
        } else if crate::text::str_eq(t, "hidden") {
            Ok(ScrollbarMode::Hidden)
        } else {
            Err(crate::text::owned("expected one of always, on-scroll, hidden"))
        }
    }
}

impl std::str::FromStr for ScrollbarMode {
    type Err = String;

    fn from_str(input: &str) -> Result<Self, Self::Err> {
        ScrollbarMode::from_name(input)
    }
}


/// A name with no whitespace at its ends and no capital letters reads as
/// itself once trimmed and lower-cased.
pub proof fn lemma_plain_name(s: Seq<char>)
    requires
        s.len() > 0,
        !is_ws(s[0]),
        !is_ws(s.last()),
        forall|i: int| 0 <= i < s.len() ==> !('A' <= #[trigger] s[i] && s[i] <= 'Z'),
    ensures
        lower_seq(trim(s)) == s,
{
    assert(trim(s) == s);
    assert(lower_seq(s) =~= s);
}

/// Every theme value is read back from the name it is written with.
pub proof fn law_theme_name_round_trip(v: ThemeName)
    ensures
        theme_from_name(theme_name(v)) == Some(v),
{
    reveal_strlit("catppuccin");
    reveal_strlit("catppuccin-latte");
    reveal_strlit("default");
    reveal_strlit("dracula");
    reveal_strlit("gruvbox");
    reveal_strlit("gruvbox-light");
    reveal_strlit("kanagawa");
    reveal_strlit("kanagawa-lotus");
    reveal_strlit("nord");
    reveal_strlit("one-dark");
    reveal_strlit("one-light");
    reveal_strlit("rose-pine");
    reveal_strlit("rose-pine-dawn");
    reveal_strlit("solarized");
    reveal_strlit("solarized-dark");
    reveal_strlit("solarized-light");
    reveal_strlit("terminal");
    reveal_strlit("tokyo-night");
    reveal_strlit("tokyo-night-day");
    reveal_strlit("vesper");
    lemma_plain_name(theme_name(v));
}

/// Every symbols value is read back from the name it is written with.
pub proof fn law_symbols_name_round_trip(v: SymbolMode)
    ensures
        symbol_mode_from_name(symbol_mode_name(v)) == Some(v),
{
    reveal_strlit("ascii");
    reveal_strlit("emoji");
    lemma_plain_name(symbol_mode_name(v));
}

/// Every spacing value is read back from the name it is written with.
pub proof fn law_spacing_name_round_trip(v: SpacingMode)
    ensures
        spacing_mode_from_name(spacing_mode_name(v)) == Some(v),
{
    reveal_strlit("comfortable");
    reveal_strlit("compact");
    lemma_plain_name(spacing_mode_name(v));
}

/// Every width_mode value is read back from the name it is written with.
pub proof fn law_width_mode_name_round_trip(v: ContentWidthMode)
    ensures
        width_mode_from_name(width_mode_name(v)) == Some(v),
{
    reveal_strlit("fixed");
    reveal_strlit("full");
    lemma_plain_name(width_mode_name(v));
}

/// Every scrollbar value is read back from the name it is written with.
pub proof fn law_scrollbar_name_round_trip(v: ScrollbarMode)
    ensures
        scrollbar_mode_from_name(scrollbar_mode_name(v)) == Some(v),
{
    reveal_strlit("always");
    reveal_strlit("hidden");
    reveal_strlit("on-scroll");
    lemma_plain_name(scrollbar_mode_name(v));
}

/// A fixed width is always held between the narrowest and the widest, a
/// width already within them is kept, and holding it twice changes nothing.
pub proof fn law_fixed_width_clamped(width: u16)
    ensures
        MIN_FIXED_CONTENT_WIDTH <= clamp_width(width) <= MAX_FIXED_CONTENT_WIDTH,
        MIN_FIXED_CONTENT_WIDTH <= width <= MAX_FIXED_CONTENT_WIDTH ==> clamp_width(width) == width,
        clamp_width(clamp_width(width)) == clamp_width(width),
{
}

} // verus!

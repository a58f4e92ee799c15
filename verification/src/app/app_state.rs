//! The whole state of the interface: the open resource tabs and the view
//! of the active one, the overlays and prompts, loading, scrolling and the
//! display settings.
use vstd::prelude::*;

use crate::app::blocks::{expandable_blocks_for_tab, holds_block, tab_blocks};
use crate::app::state::{
    fresh_tab, parse_resource_reference, reference_spec, tabs_for, AddPromptView, AddResourceMode,
    AddResourcePrompt, BlockId, BlockIdView, LinkPromptView, LoadingState, LoadingView,
    ResourceLinkPrompt, ResourceTabState, ScrollbarDragState, Tab, TabStateView,
};
use crate::domain::action::view_kind;
use crate::domain::copy::{copy_opt_string, copy_vec, DeepCopy};
use crate::domain::resource::{opt_str, strs, views, Resource, ResourceView};
use crate::domain::resource_id::{canonical_name_spec, IdView, ResourceId, ResourceIdError, ResourceKind};
use crate::input::hit::{HitArea, HitAreaView};
use crate::settings::{
    clamp_width, normalize_fixed_width, ContentWidthMode, ScrollbarMode, SpacingMode, SymbolMode,
    ThemeName, DEFAULT_FIXED_CONTENT_WIDTH, MAX_FIXED_CONTENT_WIDTH, MIN_FIXED_CONTENT_WIDTH,
};

verus! {

/// For how many frames a scrollbar shown by scrolling stays visible.
pub const SCROLLBAR_VISIBLE_FRAMES: u8 = 12;

/// The interface state. The fields from `resource` to `status_message`
/// describe the active resource tab; the other tabs keep theirs in
/// `resource_tabs`.
#[derive(Debug, Clone)]
pub struct AppState {
    pub resource: Resource,
    pub resource_tabs: Vec<ResourceTabState>,
    pub active_resource_tab: usize,
    pub resource_tab_scroll: usize,
    /// The id the next opened tab gets.
    pub next_resource_tab_id: u64,
    /// The id the next loading request gets.
    pub next_loading_request_id: u64,
    /// The id of the last fetch begun from the active tab.
    pub latest_fetch_request_id: u64,
    /// The request id of the file-diff load under way, if one is.
    pub file_patch_request_id: Option<u64>,
    /// Refreshes owed to tabs after a finished action, each as the tab's id
    /// and the resource it showed, waiting for the blocking load to end.
    pub pending_action_refreshes: Vec<(u64, ResourceId)>,
    pub add_resource_prompt: Option<AddResourcePrompt>,
    pub resource_link_prompt: Option<ResourceLinkPrompt>,
    /// The activity entry the next frame should scroll to.
    pub pending_activity_focus: Option<String>,
    pub active_tab: Tab,
    pub scroll: u16,
    pub scroll_limit: u16,
    pub scrollbar_visible_frames: u8,
    pub scrollbar: ScrollbarMode,
    pub scrollbar_drag: Option<ScrollbarDragState>,
    /// The expanded blocks of the active tab.
    pub expanded_blocks: Vec<BlockId>,
    pub hit_areas: Vec<HitArea>,
    pub history: Vec<ResourceId>,
    pub should_quit: bool,
    pub refresh_requested: bool,
    pub last_refreshed_at: Option<String>,
    pub last_refresh_had_changes: Option<bool>,
    pub last_refresh_changed_sections: Vec<String>,
    pub last_error: Option<String>,
    pub status_message: Option<String>,
    pub loading: Option<LoadingState>,
    pub show_help: bool,
    pub show_settings: bool,
    pub quit_confirmation: bool,
    pub reverse_chronological: bool,
    pub theme: ThemeName,
    pub symbols: SymbolMode,
    pub spacing: SpacingMode,
    pub width_mode: ContentWidthMode,
    pub fixed_width: u16,
    pub config_path: String,
}

/// The interface state as values.
pub struct AppStateView {
    pub resource: ResourceView,
    pub resource_tabs: Seq<TabStateView>,
    pub active_resource_tab: usize,
    pub resource_tab_scroll: usize,
    pub next_resource_tab_id: u64,
    pub next_loading_request_id: u64,
    pub latest_fetch_request_id: u64,
    pub file_patch_request_id: Option<u64>,
    pub pending_action_refreshes: Seq<(u64, IdView)>,
    pub add_resource_prompt: Option<AddPromptView>,
    pub resource_link_prompt: Option<LinkPromptView>,
    pub pending_activity_focus: Option<Seq<char>>,
    pub active_tab: Tab,
    pub scroll: u16,
    pub scroll_limit: u16,
    pub scrollbar_visible_frames: u8,
    pub scrollbar: ScrollbarMode,
    pub scrollbar_drag: Option<ScrollbarDragState>,
    pub expanded_blocks: Seq<BlockIdView>,
    pub hit_areas: Seq<HitAreaView>,
    pub history: Seq<IdView>,
    pub should_quit: bool,
    pub refresh_requested: bool,
    pub last_refreshed_at: Option<Seq<char>>,
    pub last_refresh_had_changes: Option<bool>,
    pub last_refresh_changed_sections: Seq<Seq<char>>,
    pub last_error: Option<Seq<char>>,
    pub status_message: Option<Seq<char>>,
    pub loading: Option<LoadingView>,
    pub show_help: bool,
    pub show_settings: bool,
    pub quit_confirmation: bool,
    pub reverse_chronological: bool,
    pub theme: ThemeName,
    pub symbols: SymbolMode,
    pub spacing: SpacingMode,
    pub width_mode: ContentWidthMode,
    pub fixed_width: u16,
    pub config_path: Seq<char>,
}

/// Tab ids with the views of their resource ids.
pub open spec fn entry_views(v: Seq<(u64, ResourceId)>) -> Seq<(u64, IdView)> {
    v.map_values(|e: (u64, ResourceId)| (e.0, e.1@))
}

pub open spec fn opt_v<T: View>(o: Option<T>) -> Option<T::V> {
    match o {
        Some(x) => Some(x@),
        None => None,
    }
}

impl View for AppState {
    type V = AppStateView;

    open spec fn view(&self) -> AppStateView {
        AppStateView {
            resource: self.resource@,
            resource_tabs: views(self.resource_tabs@),
            active_resource_tab: self.active_resource_tab,
            resource_tab_scroll: self.resource_tab_scroll,
            next_resource_tab_id: self.next_resource_tab_id,
            next_loading_request_id: self.next_loading_request_id,
            latest_fetch_request_id: self.latest_fetch_request_id,
            file_patch_request_id: self.file_patch_request_id,
            pending_action_refreshes: entry_views(self.pending_action_refreshes@),
            add_resource_prompt: opt_v(self.add_resource_prompt),
            resource_link_prompt: opt_v(self.resource_link_prompt),
            pending_activity_focus: opt_str(self.pending_activity_focus),
            active_tab: self.active_tab,
            scroll: self.scroll,
            scroll_limit: self.scroll_limit,
            scrollbar_visible_frames: self.scrollbar_visible_frames,
            scrollbar: self.scrollbar,
            scrollbar_drag: self.scrollbar_drag,
            expanded_blocks: views(self.expanded_blocks@),
            hit_areas: views(self.hit_areas@),
            history: views(self.history@),
            should_quit: self.should_quit,
            refresh_requested: self.refresh_requested,
            last_refreshed_at: opt_str(self.last_refreshed_at),
            last_refresh_had_changes: self.last_refresh_had_changes,
            last_refresh_changed_sections: strs(self.last_refresh_changed_sections@),
            last_error: opt_str(self.last_error),
            status_message: opt_str(self.status_message),
            loading: opt_v(self.loading),
            show_help: self.show_help,
            show_settings: self.show_settings,
            quit_confirmation: self.quit_confirmation,
            reverse_chronological: self.reverse_chronological,
            theme: self.theme,
            symbols: self.symbols,
            spacing: self.spacing,
            width_mode: self.width_mode,
            fixed_width: self.fixed_width,
            config_path: self.config_path@,
        }
    }
}

/// A well-formed state has at least one resource tab and an active one.
pub open spec fn wf(s: AppStateView) -> bool {
    s.active_resource_tab < s.resource_tabs.len()
}

/// The tabs the shown resource offers.
pub open spec fn shown_tabs(s: AppStateView) -> Seq<Tab> {
    tabs_for(view_kind(s.resource))
}

/// The active tab's view, as its entry in `resource_tabs` keeps it.
pub open spec fn captured(s: AppStateView, id: u64) -> TabStateView {
    TabStateView {
        id,
        resource: s.resource,
        latest_fetch_request_id: s.latest_fetch_request_id,
        active_tab: s.active_tab,
        scroll: s.scroll,
        scroll_limit: s.scroll_limit,
        reverse_chronological: s.reverse_chronological,
        expanded_blocks: s.expanded_blocks,
        history: s.history,
        last_refreshed_at: s.last_refreshed_at,
        last_refresh_had_changes: s.last_refresh_had_changes,
        last_refresh_changed_sections: s.last_refresh_changed_sections,
        last_error: s.last_error,
        status_message: s.status_message,
    }
}

/// The state with the active tab's view saved into its entry.
pub open spec fn snapshot(s: AppStateView) -> AppStateView {
    if s.active_resource_tab < s.resource_tabs.len() {
        let i = s.active_resource_tab as int;
        AppStateView { resource_tabs: s.resource_tabs.update(i, captured(s, s.resource_tabs[i].id)), ..s }
    } else {
        s
    }
}

/// The state with tab `index` made active: its saved view shown (on the
/// overview when its saved tab does not fit its resource), the click
/// areas, drag and pending focus dropped.
pub open spec fn restore(s: AppStateView, index: int) -> AppStateView {
    if 0 <= index < s.resource_tabs.len() {
        let t = s.resource_tabs[index];
        AppStateView {
            active_resource_tab: index as usize,
            resource_tab_scroll: index as usize,
            resource: t.resource,
            latest_fetch_request_id: t.latest_fetch_request_id,
            active_tab: if tabs_for(view_kind(t.resource)).contains(t.active_tab) {
                t.active_tab
            } else {
                Tab::Overview
            },
            scroll: t.scroll,
            scroll_limit: t.scroll_limit,
            reverse_chronological: t.reverse_chronological,
            expanded_blocks: t.expanded_blocks,
            history: t.history,
            last_refreshed_at: t.last_refreshed_at,
            last_refresh_had_changes: t.last_refresh_had_changes,
            last_refresh_changed_sections: t.last_refresh_changed_sections,
            last_error: t.last_error,
            status_message: t.status_message,
            hit_areas: Seq::empty(),
            scrollbar_drag: None,
            pending_activity_focus: None,
            ..s
        }
    } else {
        s
    }
}

/// The state a new interface starts in: one tab on `resource`, its
/// overview at the top, no overlay, the default settings.
pub open spec fn initial_state(resource: ResourceView, config_path: Seq<char>) -> AppStateView {
    AppStateView {
        resource,
        resource_tabs: seq![fresh_tab(1, resource)],
        active_resource_tab: 0,
        resource_tab_scroll: 0,
        next_resource_tab_id: 2,
        next_loading_request_id: 1,
        latest_fetch_request_id: 0,
        file_patch_request_id: None,
        pending_action_refreshes: Seq::empty(),
        add_resource_prompt: None,
        resource_link_prompt: None,
        pending_activity_focus: None,
        active_tab: Tab::Overview,
        scroll: 0,
        scroll_limit: u16::MAX,
        scrollbar_visible_frames: 0,
        scrollbar: ScrollbarMode::OnScroll,
        scrollbar_drag: None,
        expanded_blocks: Seq::empty(),
        hit_areas: Seq::empty(),
        history: Seq::empty(),
        should_quit: false,
        refresh_requested: false,
        last_refreshed_at: None,
        last_refresh_had_changes: None,
        last_refresh_changed_sections: Seq::empty(),
        last_error: None,
        status_message: None,
        loading: None,
        show_help: false,
        show_settings: false,
        quit_confirmation: false,
        reverse_chronological: false,
        theme: ThemeName::Default,
        symbols: SymbolMode::Ascii,
        spacing: SpacingMode::Comfortable,
        width_mode: ContentWidthMode::Fixed,
        fixed_width: DEFAULT_FIXED_CONTENT_WIDTH,
        config_path,
    }
}

/// The first index of `s` whose item satisfies `p`.
pub open spec fn first_index<A>(s: Seq<A>, p: spec_fn(A) -> bool) -> Option<int>
    decreases s.len(),
{
    if s.len() == 0 {
        None
    } else if p(s[0]) {
        Some(0)
    } else {
        match first_index(s.drop_first(), p) {
            Some(i) => Some(i + 1),
            None => None,
        }
    }
}

/// What `first_index` returns: the least index whose item satisfies `p`.
pub proof fn lemma_first_index<A>(s: Seq<A>, p: spec_fn(A) -> bool)
    ensures
        match first_index(s, p) {
            Some(i) => 0 <= i < s.len() && p(s[i]) && forall|j: int| 0 <= j < i ==> !p(#[trigger] s[j]),
            None => forall|j: int| 0 <= j < s.len() ==> !p(#[trigger] s[j]),
        },
    decreases s.len(),
{
    if s.len() > 0 {
        lemma_first_index(s.drop_first(), p);
        if !p(s[0]) {
            match first_index(s.drop_first(), p) {
                Some(i) => {
                    assert forall|j: int| 0 <= j < i + 1 implies !p(#[trigger] s[j]) by {
                        if j > 0 {
                            assert(s[j] == s.drop_first()[j - 1]);
                        }
                    }
                },
                None => {
                    assert forall|j: int| 0 <= j < s.len() implies !p(#[trigger] s[j]) by {
                        if j > 0 {
                            assert(s[j] == s.drop_first()[j - 1]);
                        }
                    }
                },
            }
        }
    }
}

/// `first_index` is the least index whose item satisfies `p`.
pub proof fn lemma_first_index_is<A>(s: Seq<A>, p: spec_fn(A) -> bool, i: int)
    requires
        0 <= i < s.len(),
        p(s[i]),
        forall|j: int| 0 <= j < i ==> !p(#[trigger] s[j]),
    ensures
        first_index(s, p) == Some(i),
{
    lemma_first_index(s, p);
    match first_index(s, p) {
        Some(k) => {
            if k < i {
                assert(!p(s[k]));
            } else if k > i {
                assert(!p(s[i]));
            }
        },
        None => {
            assert(!p(s[i]));
        },
    }
}

/// `first_index` finds nothing when no item satisfies `p`.
pub proof fn lemma_first_index_none<A>(s: Seq<A>, p: spec_fn(A) -> bool)
    requires
        forall|j: int| 0 <= j < s.len() ==> !p(#[trigger] s[j]),
    ensures
        first_index(s, p) is None,
{
    lemma_first_index(s, p);
    if let Some(k) = first_index(s, p) {
        assert(!p(s[k]));
    }
}

/// Whether `tabs` offers `tab`.
fn offers(tabs: &Vec<Tab>, tab: Tab) -> (r: bool)
    ensures
        r == tabs@.contains(tab),
{
    let mut i: usize = 0;
    while i < tabs.len()
        invariant
            i <= tabs@.len(),
            forall|j: int| 0 <= j < i ==> tabs@[j] != tab,
        decreases tabs.len() - i,
    {
        if tabs[i] == tab {
            return true;
        }
        i = i + 1;
    }
    false
}

impl AppState {
    /// A new interface on `resource` (see `initial_state`); `config_path`
    /// is where its settings are saved.
    pub fn new(resource: Resource, config_path: String) -> (s: Self)
        ensures
            s@ == initial_state(resource@, config_path@),
            wf(s@),
    {
        let mut resource_tabs: Vec<ResourceTabState> = Vec::new();
        resource_tabs.push(ResourceTabState::new(1, resource.deep_copy()));
        let s = AppState {
            active_tab: Tab::Overview,
            resource,
            resource_tabs,
            active_resource_tab: 0,
            resource_tab_scroll: 0,
            next_resource_tab_id: 2,
            next_loading_request_id: 1,
            latest_fetch_request_id: 0,
            file_patch_request_id: None,
            pending_action_refreshes: Vec::new(),
            add_resource_prompt: None,
            resource_link_prompt: None,
            pending_activity_focus: None,
            scroll: 0,
            scroll_limit: u16::MAX,
            scrollbar_visible_frames: 0,
            scrollbar: ScrollbarMode::OnScroll,
            scrollbar_drag: None,
            expanded_blocks: Vec::new(),
            hit_areas: Vec::new(),
            history: Vec::new(),
            should_quit: false,
            refresh_requested: false,
            last_refreshed_at: None,
            last_refresh_had_changes: None,
            last_refresh_changed_sections: Vec::new(),
            last_error: None,
            status_message: None,
            loading: None,
            show_help: false,
            show_settings: false,
            quit_confirmation: false,
            reverse_chronological: false,
            theme: ThemeName::Default,
            symbols: SymbolMode::Ascii,
            spacing: SpacingMode::Comfortable,
            width_mode: ContentWidthMode::Fixed,
            fixed_width: DEFAULT_FIXED_CONTENT_WIDTH,
            config_path,
        };
        proof {
            assert(s@.resource_tabs =~= seq![fresh_tab(1, resource@)]);
            assert(s@.expanded_blocks =~= Seq::<BlockIdView>::empty());
            assert(s@.hit_areas =~= Seq::<HitAreaView>::empty());
            assert(s@.history =~= Seq::<IdView>::empty());
            assert(s@.last_refresh_changed_sections =~= Seq::<Seq<char>>::empty());
            assert(s@.pending_action_refreshes =~= Seq::<(u64, IdView)>::empty());
        }
        s
    }

    /// Saves the active tab's view into its entry (see `snapshot`).
    pub(crate) fn snapshot_active_resource_tab(&mut self)
        ensures
            final(self)@ == snapshot(old(self)@),
    {
        if self.active_resource_tab < self.resource_tabs.len() {
            let i = self.active_resource_tab;
            let tab = ResourceTabState {
                id: self.resource_tabs[i].id,
                resource: self.resource.deep_copy(),
                latest_fetch_request_id: self.latest_fetch_request_id,
                active_tab: self.active_tab,
                scroll: self.scroll,
                scroll_limit: self.scroll_limit,
                reverse_chronological: self.reverse_chronological,
                expanded_blocks: copy_vec(&self.expanded_blocks),
                history: copy_vec(&self.history),
                last_refreshed_at: copy_opt_string(&self.last_refreshed_at),
                last_refresh_had_changes: self.last_refresh_had_changes,
                last_refresh_changed_sections: copy_vec(&self.last_refresh_changed_sections),
                last_error: copy_opt_string(&self.last_error),
                status_message: copy_opt_string(&self.status_message),
            };
            let ghost before = old(self)@;
            self.resource_tabs.set(i, tab);
            proof {
                assert(self@.resource_tabs =~= before.resource_tabs.update(
                    i as int,
                    captured(before, before.resource_tabs[i as int].id),
                ));
            }
        }
    }

    /// Makes tab `index` active (see `restore`).
    pub(crate) fn restore_resource_tab(&mut self, index: usize)
        ensures
            final(self)@ == restore(old(self)@, index as int),
    {
        if index >= self.resource_tabs.len() {
            return;
        }
        let tab = self.resource_tabs[index].deep_copy();
        let ghost t = old(self)@.resource_tabs[index as int];
        assert(tab@ == t);
        self.active_resource_tab = index;
        self.resource_tab_scroll = index;
        let offered = Tab::all_for(tab.resource.kind());
        self.active_tab = if offers(&offered, tab.active_tab) {
            tab.active_tab
        } else {
            Tab::Overview
        };
        self.resource = tab.resource;
        self.latest_fetch_request_id = tab.latest_fetch_request_id;
        self.scroll = tab.scroll;
        self.scroll_limit = tab.scroll_limit;
        self.reverse_chronological = tab.reverse_chronological;
        self.expanded_blocks = tab.expanded_blocks;
        self.history = tab.history;
        self.last_refreshed_at = tab.last_refreshed_at;
        self.last_refresh_had_changes = tab.last_refresh_had_changes;
        self.last_refresh_changed_sections = tab.last_refresh_changed_sections;
        self.last_error = tab.last_error;
        self.status_message = tab.status_message;
        self.hit_areas = Vec::new();
        self.scrollbar_drag = None;
        self.pending_activity_focus = None;
        proof {
            assert(self@.hit_areas =~= Seq::<HitAreaView>::empty());
            assert(self@ == restore(old(self)@, index as int));
        }
    }
}


/// The state with its scrolling reset: at the top, limit unknown until the
/// next frame is drawn.
pub open spec fn scroll_reset(s: AppStateView) -> AppStateView {
    AppStateView { scroll: 0, scroll_limit: u16::MAX, ..s }
}

/// The state with a scrollbar shown by scrolling made visible again, when
/// there is something to scroll and scrollbars show on scrolling.
pub open spec fn revealed(s: AppStateView) -> AppStateView {
    if s.scroll_limit > 0 && s.scrollbar == ScrollbarMode::OnScroll {
        AppStateView { scrollbar_visible_frames: SCROLLBAR_VISIBLE_FRAMES, ..s }
    } else {
        s
    }
}

/// Whether a theme is `t`.
pub open spec fn is_theme(t: ThemeName) -> spec_fn(ThemeName) -> bool {
    |x: ThemeName| x == t
}

/// The themes in the settings order.
pub open spec fn theme_order() -> Seq<ThemeName> {
    seq![ThemeName::Default, ThemeName::Catppuccin, ThemeName::CatppuccinLatte, ThemeName::Terminal, ThemeName::TokyoNight, ThemeName::TokyoNightDay, ThemeName::Dracula, ThemeName::Nord, ThemeName::Gruvbox, ThemeName::GruvboxLight, ThemeName::OneDark, ThemeName::OneLight, ThemeName::Solarized, ThemeName::SolarizedLight, ThemeName::Kanagawa, ThemeName::KanagawaLotus, ThemeName::RosePine, ThemeName::RosePineDawn, ThemeName::Vesper]
}

/// The theme after `t` in the settings order, the first after the last.
pub open spec fn next_theme(t: ThemeName) -> ThemeName {
    let all = theme_order();
    let i = match first_index(all, is_theme(t)) {
        Some(i) => i,
        None => 0,
    };
    all[(i + 1) % all.len() as int]
}

pub open spec fn next_scrollbar(m: ScrollbarMode) -> ScrollbarMode {
    match m {
        ScrollbarMode::OnScroll => ScrollbarMode::Always,
        ScrollbarMode::Always => ScrollbarMode::Hidden,
        ScrollbarMode::Hidden => ScrollbarMode::OnScroll,
    }
}

/// The loading spinner's frames.
pub open spec fn spinner_frame(frame: u8) -> Seq<char> {
    let k = frame % 4;
    if k == 0 {
        "|"@
    } else if k == 1 {
        "/"@
    } else if k == 2 {
        "-"@
    } else {
        "\\"@
    }
}

impl AppState {
    /// The tabs the shown resource offers.
    pub fn tabs(&self) -> (t: Vec<Tab>)
        ensures
            t@ == shown_tabs(self@),
    {
        Tab::all_for(self.resource.kind())
    }

    /// Whether the resource tab bar is shown: when more than one tab is open.
    pub fn resource_tab_bar_visible(&self) -> (r: bool)
        ensures
            r == (self@.resource_tabs.len() > 1),
    {
        self.resource_tabs.len() > 1
    }

    /// Shows the help, or hides it; showing it hides the settings.
    /// Scrolling is reset either way.
    pub fn toggle_help(&mut self)
        ensures
            final(self)@ == scroll_reset(AppStateView {
                show_help: !old(self)@.show_help,
                show_settings: if !old(self)@.show_help { false } else { old(self)@.show_settings },
                ..old(self)@
            }),
    {
        self.show_help = !self.show_help;
        if self.show_help {
            self.show_settings = false;
        }
        self.scroll = 0;
        self.scroll_limit = u16::MAX;
    }

    /// Shows the settings, or hides them; showing them hides the help.
    /// Scrolling is reset either way.
    pub fn toggle_settings(&mut self)
        ensures
            final(self)@ == scroll_reset(AppStateView {
                show_settings: !old(self)@.show_settings,
                show_help: if !old(self)@.show_settings { false } else { old(self)@.show_help },
                ..old(self)@
            }),
    {
        self.show_settings = !self.show_settings;
        if self.show_settings {
            self.show_help = false;
        }
        self.scroll = 0;
        self.scroll_limit = u16::MAX;
    }

    /// Hides the settings and resets scrolling.
    pub fn close_settings(&mut self)
        ensures
            final(self)@ == scroll_reset(AppStateView { show_settings: false, ..old(self)@ }),
    {
        self.show_settings = false;
        self.scroll = 0;
        self.scroll_limit = u16::MAX;
    }

    /// Reverses the order of the activity feed and resets scrolling.
    pub fn toggle_feed_order(&mut self)
        ensures
            final(self)@ == scroll_reset(AppStateView {
                reverse_chronological: !old(self)@.reverse_chronological,
                ..old(self)@
            }),
    {
        self.reverse_chronological = !self.reverse_chronological;
        self.scroll = 0;
        self.scroll_limit = u16::MAX;
    }

    /// Sets the theme; says whether it changed.
    pub fn set_theme(&mut self, theme: ThemeName) -> (changed: bool)
        ensures
            changed == (old(self)@.theme != theme),
            final(self)@ == (AppStateView { theme, ..old(self)@ }),
    {
        if self.theme == theme {
            return false;
        }
        self.theme = theme;
        true
    }

    /// Sets the symbol mode; says whether it changed.
    pub fn set_symbols(&mut self, symbols: SymbolMode) -> (changed: bool)
        ensures
            changed == (old(self)@.symbols != symbols),
            final(self)@ == (AppStateView { symbols, ..old(self)@ }),
    {
        if self.symbols == symbols {
            return false;
        }
        self.symbols = symbols;
        true
    }

    /// Sets the spacing; a change resets scrolling. Says whether it changed.
    pub fn set_spacing(&mut self, spacing: SpacingMode) -> (changed: bool)
        ensures
            changed == (old(self)@.spacing != spacing),
            final(self)@ == if changed { scroll_reset(AppStateView { spacing, ..old(self)@ }) } else { old(self)@ },
    {
        if self.spacing == spacing {
            return false;
        }
        self.spacing = spacing;
        self.scroll = 0;
        self.scroll_limit = u16::MAX;
        true
    }

    /// Sets the width mode; a change resets scrolling. Says whether it changed.
    pub fn set_width_mode(&mut self, width_mode: ContentWidthMode) -> (changed: bool)
        ensures
            changed == (old(self)@.width_mode != width_mode),
            final(self)@ == if changed { scroll_reset(AppStateView { width_mode, ..old(self)@ }) } else { old(self)@ },
    {
        if self.width_mode == width_mode {
            return false;
        }
        self.width_mode = width_mode;
        self.scroll = 0;
        self.scroll_limit = u16::MAX;
        true
    }

    /// Sets the fixed content width, clamped to its bounds; a change resets
    /// scrolling. Says whether it changed.
    pub fn set_fixed_width(&mut self, fixed_width: u16) -> (changed: bool)
        ensures
            changed == (old(self)@.fixed_width != clamp_width(fixed_width)),
            final(self)@ == if changed {
                scroll_reset(AppStateView { fixed_width: clamp_width(fixed_width), ..old(self)@ })
            } else {
                old(self)@
            },
    {
        let fixed_width = normalize_fixed_width(fixed_width);
        if self.fixed_width == fixed_width {
            return false;
        }
        self.fixed_width = fixed_width;
        self.scroll = 0;
        self.scroll_limit = u16::MAX;
        true
    }

    /// Widens the fixed content width by `step` columns, up to its
    /// largest; says whether it changed (see `set_fixed_width`).
    pub fn increase_fixed_width(&mut self, step: u16) -> (changed: bool)
        ensures
            ({
                let w = if old(self)@.fixed_width + step > MAX_FIXED_CONTENT_WIDTH {
                    MAX_FIXED_CONTENT_WIDTH
                } else {
                    (old(self)@.fixed_width + step) as u16
                };
                &&& changed == (old(self)@.fixed_width != clamp_width(w))
                &&& final(self)@ == if changed {
                    scroll_reset(AppStateView { fixed_width: clamp_width(w), ..old(self)@ })
                } else {
                    old(self)@
                }
            }),
    {
        let wider = self.fixed_width.saturating_add(step);
        let w = if wider > MAX_FIXED_CONTENT_WIDTH { MAX_FIXED_CONTENT_WIDTH } else { wider };
        self.set_fixed_width(w)
    }

    /// Narrows the fixed content width by `step` columns, down to its
    /// smallest; says whether it changed (see `set_fixed_width`).
    pub fn decrease_fixed_width(&mut self, step: u16) -> (changed: bool)
        ensures
            ({
                let w = if old(self)@.fixed_width - step < MIN_FIXED_CONTENT_WIDTH {
                    MIN_FIXED_CONTENT_WIDTH
                } else {
                    (old(self)@.fixed_width - step) as u16
                };
                &&& changed == (old(self)@.fixed_width != clamp_width(w))
                &&& final(self)@ == if changed {
                    scroll_reset(AppStateView { fixed_width: clamp_width(w), ..old(self)@ })
                } else {
                    old(self)@
                }
            }),
    {
        let narrower = self.fixed_width.saturating_sub(step);
        let w = if narrower < MIN_FIXED_CONTENT_WIDTH { MIN_FIXED_CONTENT_WIDTH } else { narrower };
        self.set_fixed_width(w)
    }

    fn reveal_scrollbar(&mut self)
        ensures
            final(self)@ == revealed(old(self)@),
    {
        if self.scroll_limit > 0 && self.scrollbar == ScrollbarMode::OnScroll {
            self.scrollbar_visible_frames = SCROLLBAR_VISIBLE_FRAMES;
        }
    }

    /// Sets when the scrollbar shows; a change ends a drag, and switching to
    /// showing on scroll shows it now. Says whether it changed.
    pub fn set_scrollbar(&mut self, scrollbar: ScrollbarMode) -> (changed: bool)
        ensures
            changed == (old(self)@.scrollbar != scrollbar),
            final(self)@ == if changed {
                if scrollbar == ScrollbarMode::OnScroll {
                    revealed(AppStateView { scrollbar, scrollbar_drag: None, ..old(self)@ })
                } else {
                    (AppStateView { scrollbar, scrollbar_drag: None, ..old(self)@ })
                }
            } else {
                old(self)@
            },
    {
        if self.scrollbar == scrollbar {
            return false;
        }
        self.scrollbar = scrollbar;
        self.scrollbar_drag = None;
        if scrollbar == ScrollbarMode::OnScroll {
            self.reveal_scrollbar();
        }
        true
    }

    /// Moves to the next theme (see `next_theme`).
    pub fn cycle_theme(&mut self) -> (changed: bool)
        ensures
            changed == (old(self)@.theme != next_theme(old(self)@.theme)),
            final(self)@ == (AppStateView { theme: next_theme(old(self)@.theme), ..old(self)@ }),
    {
        let themes = ThemeName::all();
        let ghost all = themes@;
        let mut index: usize = 0;
        let mut i: usize = 0;
        let mut found = false;
        while i < themes.len()
            invariant
                themes@ == all,
                all.len() == 19,
                i <= all.len(),
                !found ==> forall|j: int| 0 <= j < i ==> all[j] != self.theme,
                found ==> index < all.len() && all[index as int] == self.theme
                    && forall|j: int| 0 <= j < index ==> all[j] != self.theme,
            decreases themes.len() - i,
        {
            if !found && themes[i] == self.theme {
                index = i;
                found = true;
            }
            i = i + 1;
        }
        proof {
            let p = is_theme(self.theme);
            assert(all =~= theme_order());
            if found {
                lemma_first_index_is(all, p, index as int);
            } else {
                lemma_first_index_none(all, p);
            }
        }
        let next = themes[(index + 1) % themes.len()];
        self.set_theme(next)
    }

    /// Switches between ascii and emoji symbols.
    pub fn cycle_symbols(&mut self) -> (changed: bool)
        ensures
            changed,
            final(self)@ == (AppStateView {
                symbols: match old(self)@.symbols {
                    SymbolMode::Ascii => SymbolMode::Emoji,
                    SymbolMode::Emoji => SymbolMode::Ascii,
                },
                ..old(self)@
            }),
    {
        let next = match self.symbols {
            SymbolMode::Ascii => SymbolMode::Emoji,
            SymbolMode::Emoji => SymbolMode::Ascii,
        };
        self.set_symbols(next)
    }

    /// Switches between comfortable and compact spacing; resets scrolling.
    pub fn cycle_spacing(&mut self) -> (changed: bool)
        ensures
            changed,
            final(self)@ == scroll_reset(AppStateView {
                spacing: match old(self)@.spacing {
                    SpacingMode::Comfortable => SpacingMode::Compact,
                    SpacingMode::Compact => SpacingMode::Comfortable,
                },
                ..old(self)@
            }),
    {
        let next = match self.spacing {
            SpacingMode::Comfortable => SpacingMode::Compact,
            SpacingMode::Compact => SpacingMode::Comfortable,
        };
        self.set_spacing(next)
    }

    /// Switches between a fixed and the full width; resets scrolling.
    pub fn cycle_width_mode(&mut self) -> (changed: bool)
        ensures
            changed,
            final(self)@ == scroll_reset(AppStateView {
                width_mode: match old(self)@.width_mode {
                    ContentWidthMode::Fixed => ContentWidthMode::Full,
                    ContentWidthMode::Full => ContentWidthMode::Fixed,
                },
                ..old(self)@
            }),
    {
        let next = match self.width_mode {
            ContentWidthMode::Fixed => ContentWidthMode::Full,
            ContentWidthMode::Full => ContentWidthMode::Fixed,
        };
        self.set_width_mode(next)
    }

    /// Moves to the next scrollbar mode: on scroll, always, hidden.
    pub fn cycle_scrollbar(&mut self) -> (changed: bool)
        ensures
            changed,
            final(self)@ == ({
                let m = next_scrollbar(old(self)@.scrollbar);
                if m == ScrollbarMode::OnScroll {
                    revealed(AppStateView { scrollbar: m, scrollbar_drag: None, ..old(self)@ })
                } else {
                    (AppStateView { scrollbar: m, scrollbar_drag: None, ..old(self)@ })
                }
            }),
    {
        let next = match self.scrollbar {
            ScrollbarMode::OnScroll => ScrollbarMode::Always,
            ScrollbarMode::Always => ScrollbarMode::Hidden,
            ScrollbarMode::Hidden => ScrollbarMode::OnScroll,
        };
        self.set_scrollbar(next)
    }

    /// Records how far the drawn content can scroll; a scroll past it is
    /// pulled back.
    pub fn set_scroll_limit(&mut self, limit: u16)
        ensures
            final(self)@ == (AppStateView {
                scroll_limit: limit,
                scroll: if old(self)@.scroll > limit { limit } else { old(self)@.scroll },
                ..old(self)@
            }),
    {
        self.scroll_limit = limit;
        if self.scroll > self.scroll_limit {
            self.scroll = self.scroll_limit;
        }
    }

    /// Scrolls down by `lines`, no further than the limit.
    pub fn scroll_down(&mut self, lines: u16)
        ensures
            final(self)@ == revealed(AppStateView {
                scroll: if old(self)@.scroll + lines >= old(self)@.scroll_limit {
                    old(self)@.scroll_limit
                } else {
                    (old(self)@.scroll + lines) as u16
                },
                ..old(self)@
            }),
    {
        self.scroll = {
            let s = self.scroll.saturating_add(lines);
            if s < self.scroll_limit { s } else { self.scroll_limit }
        };
        self.reveal_scrollbar();
    }

    /// Scrolls up by `lines`, no further than the top.
    pub fn scroll_up(&mut self, lines: u16)
        ensures
            final(self)@ == revealed(AppStateView {
                scroll: if old(self)@.scroll >= lines { (old(self)@.scroll - lines) as u16 } else { 0 },
                ..old(self)@
            }),
    {
        self.scroll = self.scroll.saturating_sub(lines);
        self.reveal_scrollbar();
    }

    /// Scrolls to the top.
    pub fn scroll_to_top(&mut self)
        ensures
            final(self)@ == revealed(AppStateView { scroll: 0, ..old(self)@ }),
    {
        self.scroll = 0;
        self.reveal_scrollbar();
    }

    /// Scrolls to the limit.
    pub fn scroll_to_bottom(&mut self)
        ensures
            final(self)@ == revealed(AppStateView { scroll: old(self)@.scroll_limit, ..old(self)@ }),
    {
        self.scroll = self.scroll_limit;
        self.reveal_scrollbar();
    }

    /// Whether the scrollbar shows: there is something to scroll, and it is
    /// always shown or still shown after scrolling.
    pub fn scrollbar_visible(&self) -> (r: bool)
        ensures
            r == (self@.scroll_limit > 0 && match self@.scrollbar {
                ScrollbarMode::Always => true,
                ScrollbarMode::OnScroll => self@.scrollbar_visible_frames > 0,
                ScrollbarMode::Hidden => false,
            }),
    {
        self.scroll_limit > 0 && match self.scrollbar {
            ScrollbarMode::Always => true,
            ScrollbarMode::OnScroll => self.scrollbar_visible_frames > 0,
            ScrollbarMode::Hidden => false,
        }
    }

    /// Counts down the frames a scrollbar shown by scrolling stays.
    pub fn advance_scrollbar_visibility(&mut self)
        ensures
            final(self)@ == (AppStateView {
                scrollbar_visible_frames: if old(self)@.scrollbar_visible_frames > 0 {
                    (old(self)@.scrollbar_visible_frames - 1) as u8
                } else {
                    0
                },
                ..old(self)@
            }),
    {
        self.scrollbar_visible_frames = self.scrollbar_visible_frames.saturating_sub(1);
    }

    /// Shows a scrollbar that shows on scroll, as scrolling would.
    pub fn reveal_scrollbar_for_focus(&mut self)
        ensures
            final(self)@ == revealed(old(self)@),
    {
        self.reveal_scrollbar();
    }

    fn scroll_to_scrollbar_row(&mut self, top: u16, height: u16, row: u16)
        ensures
            final(self)@ == if old(self)@.scroll_limit == 0 || height == 0 {
                (AppStateView { scroll: 0, ..old(self)@ })
            } else {
                revealed(AppStateView { scroll: scrollbar_row_scroll(old(self)@.scroll_limit, top, height, row), ..old(self)@ })
            },
    {
        if self.scroll_limit == 0 || height == 0 {
            self.scroll = 0;
            return;
        }
        let last = height - 1;
        let rel = row.saturating_sub(top);
        let relative = if rel < last { rel } else { last };
        self.scroll = if last == 0 {
            0
        } else {
            let limit: u32 = self.scroll_limit as u32;
            let r32: u32 = relative as u32;
            let l32: u32 = last as u32;
            assert(r32 * limit <= l32 * limit) by (nonlinear_arith)
                requires r32 <= l32;
            assert(l32 * limit <= 0xffff * 0xffff) by (nonlinear_arith)
                requires l32 <= 0xffff, limit <= 0xffff;
            let prod: u32 = r32 * limit;
            let q: u32 = prod / l32;
            assert(q <= limit) by (nonlinear_arith)
                requires q == prod / l32, prod == r32 * limit, r32 <= l32, l32 > 0;
            q as u16
        };
        self.reveal_scrollbar();
    }

    /// Starts dragging the scrollbar whose track begins at `top` and is
    /// `height` rows high, and scrolls to the grabbed row.
    pub fn begin_scrollbar_drag(&mut self, top: u16, height: u16, row: u16)
        ensures
            ({
                let s = (AppStateView { scrollbar_drag: Some(ScrollbarDragState { top, height }), ..old(self)@ });
                final(self)@ == if s.scroll_limit == 0 || height == 0 {
                    (AppStateView { scroll: 0, ..s })
                } else {
                    revealed(AppStateView { scroll: scrollbar_row_scroll(s.scroll_limit, top, height, row), ..s })
                }
            }),
    {
        self.scrollbar_drag = Some(ScrollbarDragState { top, height });
        self.scroll_to_scrollbar_row(top, height, row);
    }

    /// Follows a scrollbar drag to `row`; nothing without a drag.
    pub fn drag_scrollbar(&mut self, row: u16)
        ensures
            match old(self)@.scrollbar_drag {
                Some(d) => final(self)@ == if old(self)@.scroll_limit == 0 || d.height == 0 {
                    (AppStateView { scroll: 0, ..old(self)@ })
                } else {
                    revealed(AppStateView { scroll: scrollbar_row_scroll(old(self)@.scroll_limit, d.top, d.height, row), ..old(self)@ })
                },
                None => final(self)@ == old(self)@,
            },
    {
        if let Some(drag) = self.scrollbar_drag {
            self.scroll_to_scrollbar_row(drag.top, drag.height, row);
        }
    }

    /// Ends a scrollbar drag.
    pub fn end_scrollbar_drag(&mut self)
        ensures
            final(self)@ == (AppStateView { scrollbar_drag: None, ..old(self)@ }),
    {
        self.scrollbar_drag = None;
    }
}

/// The scroll a row of the scrollbar track stands for: the row's place on
/// the track, scaled from the track's last row to the scroll limit.
pub open spec fn scrollbar_row_scroll(limit: u16, top: u16, height: u16, row: u16) -> u16 {
    let last = height - 1;
    let rel = if row >= top { row - top } else { 0 };
    let relative = if rel < last { rel } else { last };
    if last == 0 {
        0
    } else {
        (relative * limit / last) as u16
    }
}


} // verus!

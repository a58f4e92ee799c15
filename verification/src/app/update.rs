//! What the interface does with a key press inside a prompt, with a link to
//! another resource, and with a request for the URL in view; each decision
//! changes the state and tells the program what to do next.
use vstd::prelude::*;

use crate::app::app_state::{
    first_index, lemma_first_index_is, lemma_first_index_none, next_scrollbar, next_theme, revealed, restore,
    scroll_reset, scrollbar_row_scroll, snapshot,
    shown_tabs, AppState, AppStateView, SCROLLBAR_VISIBLE_FRAMES,
};
use crate::app::content::{
    focused_on, linked_entry, offered_blocks, tab_after, tab_before, tab_set, toggled, with_all, without_all,
};
use crate::app::state::{reference_spec, AddPromptView, AddResourceMode, BlockId, BlockIdView, LinkPromptView, Tab};
use crate::app::tabs::{closed_tab, cycled_tab_index, tabs_cycled, with_add_prompt};
use crate::domain::copy::DeepCopy;
use crate::domain::action::ResourceAction;
use crate::domain::resource::{has_warning_containing, opt_str, resource_kind, resource_web_url, FULL_DEPTH_WARNING_HINT};
use crate::domain::resource_id::{
    canonical_name_spec, default_url_kind, error_message, web_url_spec, IdView, ResourceId,
};
use crate::input::hit::{hit_test, is_content_action_spec, rect_contains, HitAreaView, HitTarget, HitTargetView};
use crate::settings::{
    symbol_mode_from_name, theme_from_name, ContentWidthMode, ScrollbarMode, SpacingMode, SymbolMode, ThemeName,
};
use crate::text::{digit_value, is_digit, trim};

verus! {

/// What the program should do once an input has been applied to the state.
#[derive(Debug, Clone, PartialEq, Eq)]
pub enum AppIntent {
    Nothing,
    Refresh,
    LoadFullDepth,
    OpenResource(ResourceId),
    ReplaceResource(ResourceId),
    Navigate(ResourceId),
    OpenUrl(String),
    CopyUrl(String),
    SubmitAction(ResourceAction),
    Back,
    SaveSettings,
    Quit,
}

/// The mathematical content of an `AppIntent`.
pub enum IntentView {
    Nothing,
    Refresh,
    LoadFullDepth,
    OpenResource(IdView),
    ReplaceResource(IdView),
    Navigate(IdView),
    OpenUrl(Seq<char>),
    CopyUrl(Seq<char>),
    SubmitAction(ResourceAction),
    Back,
    SaveSettings,
    Quit,
}

impl View for AppIntent {
    type V = IntentView;

    open spec fn view(&self) -> IntentView {
        match self {
            AppIntent::Nothing => IntentView::Nothing,
            AppIntent::Refresh => IntentView::Refresh,
            AppIntent::LoadFullDepth => IntentView::LoadFullDepth,
            AppIntent::OpenResource(id) => IntentView::OpenResource(id@),
            AppIntent::ReplaceResource(id) => IntentView::ReplaceResource(id@),
            AppIntent::Navigate(id) => IntentView::Navigate(id@),
            AppIntent::OpenUrl(u) => IntentView::OpenUrl(u@),
            AppIntent::CopyUrl(u) => IntentView::CopyUrl(u@),
            AppIntent::SubmitAction(a) => IntentView::SubmitAction(*a),
            AppIntent::Back => IntentView::Back,
            AppIntent::SaveSettings => IntentView::SaveSettings,
            AppIntent::Quit => IntentView::Quit,
        }
    }
}

/// The key of a key press, as far as these decisions tell keys apart.
#[derive(Debug, Clone, Copy, PartialEq, Eq, Structural)]
pub enum KeyCode {
    Char(char),
    Enter,
    Esc,
    Backspace,
    Delete,
    Tab,
    BackTab,
    Left,
    Right,
    Up,
    Down,
    PageUp,
    PageDown,
    Home,
    End,
    /// Any other key.
    Other,
}

/// A key press: the key and whether Control, Alt or Shift was held.
#[derive(Debug, Clone, Copy, PartialEq, Eq, Structural)]
pub struct KeyPress {
    pub code: KeyCode,
    pub control: bool,
    pub alt: bool,
    pub shift: bool,
}

/// A press without Control and without Alt.
pub open spec fn plain(key: KeyPress) -> bool {
    !key.control && !key.alt
}

/// Control-C.
pub open spec fn is_ctrl_c(key: KeyPress) -> bool {
    key.code == KeyCode::Char('c') && key.control
}

/// Whether `key` is free of Control and Alt, so that it counts as a shortcut.
pub fn is_plain_shortcut(key: KeyPress) -> (b: bool)
    ensures
        b == plain(key),
{
    !key.control && !key.alt
}

/// The tab that digit key `ch` picks among `tabs`: `1` the first, `2` the
/// second, and so on; nothing for `0`, a non-digit or a missing tab.
pub open spec fn numbered_tab_spec(ch: char, tabs: Seq<Tab>) -> Option<Tab> {
    if is_digit(ch) && ch != '0' && digit_value(ch) - 1 < tabs.len() {
        Some(tabs[digit_value(ch) - 1])
    } else {
        None
    }
}

/// The tab that digit key `ch` picks (see `numbered_tab_spec`).
pub fn numbered_tab(ch: char, tabs: &[Tab]) -> (r: Option<Tab>)
    ensures
        r == numbered_tab_spec(ch, tabs@),
{
    if !('1' <= ch && ch <= '9') {
        return None;
    }
    let index = (ch as u32 - '1' as u32) as usize;
    if index < tabs.len() {
        Some(tabs[index])
    } else {
        None
    }
}

/// How the quit question takes `key`: `Some(true)` quits (Control-C, or a
/// plain Enter or `q`), `Some(false)` dismisses the question (a plain Esc or
/// `n`), `None` leaves it open.
pub open spec fn quit_answer(key: KeyPress) -> Option<bool> {
    if is_ctrl_c(key) {
        Some(true)
    } else if (key.code == KeyCode::Enter || key.code == KeyCode::Char('q')) && plain(key) {
        Some(true)
    } else if (key.code == KeyCode::Esc || key.code == KeyCode::Char('n')) && plain(key) {
        Some(false)
    } else {
        None
    }
}

/// What `key` does while the quit question is shown (see `quit_answer`).
pub open spec fn quit_key_spec(s: AppStateView, key: KeyPress) -> (AppStateView, IntentView) {
    match quit_answer(key) {
        Some(true) => (AppStateView { should_quit: true, ..s }, IntentView::Quit),
        Some(false) => (AppStateView { quit_confirmation: false, ..s }, IntentView::Nothing),
        None => (s, IntentView::Nothing),
    }
}

/// Applies `key` while the quit question is shown (see `quit_key_spec`).
pub fn apply_quit_confirmation_key(state: &mut AppState, key: KeyPress) -> (r: AppIntent)
    ensures
        (final(state)@, r@) == quit_key_spec(old(state)@, key),
{
    let plain_key = is_plain_shortcut(key);
    let code = key.code;
    if code == KeyCode::Char('c') && key.control {
        state.should_quit = true;
        AppIntent::Quit
    } else if (code == KeyCode::Enter || code == KeyCode::Char('q')) && plain_key {
        state.should_quit = true;
        AppIntent::Quit
    } else if (code == KeyCode::Esc || code == KeyCode::Char('n')) && plain_key {
        state.close_quit_confirmation();
        AppIntent::Nothing
    } else {
        AppIntent::Nothing
    }
}

/// The state with the reference prompt's input changed to `input` and its
/// error dropped; unchanged when no prompt is open.
pub open spec fn with_prompt_input(s: AppStateView, input: spec_fn(Seq<char>) -> Seq<char>) -> AppStateView {
    match s.add_resource_prompt {
        Some(p) => AppStateView {
            add_resource_prompt: Some(AddPromptView { input: input(p.input), error: None, ..p }),
            ..s
        },
        None => s,
    }
}

/// `t` without its last character, if it has one.
pub open spec fn without_last(t: Seq<char>) -> Seq<char> {
    if t.len() > 0 {
        t.drop_last()
    } else {
        t
    }
}

/// Removes the last character of `s`, if there is one.
fn drop_last_char(s: &mut String)
    ensures
        final(s)@ == without_last(old(s)@),
{
    let v = crate::text::chars_of(s.as_str());
    if v.len() > 0 {
        *s = crate::text::string_of(v.as_slice(), 0, v.len() - 1);
        proof {
            assert(v@.subrange(0, v@.len() - 1) =~= v@.drop_last());
        }
    }
}

/// Deletes the last character of the reference prompt's input.
fn erase_prompt_char(state: &mut AppState)
    ensures
        final(state)@ == with_prompt_input(old(state)@, |t: Seq<char>| without_last(t)),
{
    match state.add_resource_input_mut() {
        Some(input) => drop_last_char(input),
        None => {},
    }
    state.clear_add_resource_error();
    proof {
        assert(state@ == with_prompt_input(old(state)@, |t: Seq<char>| without_last(t)));
    }
}

/// Types `ch` into the reference prompt.
fn type_prompt_char(state: &mut AppState, ch: char)
    ensures
        final(state)@ == with_prompt_input(old(state)@, |t: Seq<char>| t.push(ch)),
{
    match state.add_resource_input_mut() {
        Some(input) => input.push(ch),
        None => {},
    }
    state.clear_add_resource_error();
    proof {
        assert(state@ == with_prompt_input(old(state)@, |t: Seq<char>| t.push(ch)));
    }
}

/// What confirming the reference prompt gives: the intent to open the
/// reference in a new tab or in place of the current resource, as the
/// prompt's mode says, or, when the input does not read, no intent and the
/// reading's error shown in the prompt.
pub open spec fn confirmed_prompt(s: AppStateView) -> (AppStateView, IntentView) {
    let read = match s.add_resource_prompt {
        Some(p) => reference_spec(trim(p.input), p.fallback_repo),
        None => reference_spec(Seq::empty(), s.resource.id),
    };
    let mode = match s.add_resource_prompt {
        Some(p) => p.mode,
        None => AddResourceMode::NewTab,
    };
    match read {
        Ok(id) => (s, match mode {
            AddResourceMode::NewTab => IntentView::OpenResource(id),
            AddResourceMode::ReplaceCurrent => IntentView::ReplaceResource(id),
        }),
        Err(e) => (match s.add_resource_prompt {
            Some(p) => AppStateView {
                add_resource_prompt: Some(AddPromptView { error: Some(error_message(e)), ..p }),
                ..s
            },
            None => s,
        }, IntentView::Nothing),
    }
}

/// Confirms the reference prompt (see `confirmed_prompt`).
pub fn confirm_add_resource_prompt(state: &mut AppState) -> (r: AppIntent)
    ensures
        (final(state)@, r@) == confirmed_prompt(old(state)@),
{
    let parsed = state.parse_add_resource_input();
    match parsed {
        Ok(id) => {
            let mode = match &state.add_resource_prompt {
                Some(prompt) => prompt.mode,
                None => AddResourceMode::NewTab,
            };
            match mode {
                AddResourceMode::NewTab => AppIntent::OpenResource(id),
                AddResourceMode::ReplaceCurrent => AppIntent::ReplaceResource(id),
            }
        },
        Err(error) => {
            state.set_add_resource_error(error.message());
            AppIntent::Nothing
        },
    }
}

/// What `key` does while the reference prompt is open (see
/// `apply_add_resource_prompt_key`).
pub open spec fn add_prompt_key_spec(s: AppStateView, key: KeyPress) -> (AppStateView, IntentView) {
    if is_ctrl_c(key) {
        (match s.add_resource_prompt {
            None => s,
            Some(p) => if p.input.len() == 0 {
                AppStateView { add_resource_prompt: None, ..s }
            } else {
                AppStateView { add_resource_prompt: Some(AddPromptView { input: Seq::empty(), error: None, ..p }), ..s }
            },
        }, IntentView::Nothing)
    } else if (key.code == KeyCode::Esc || key.code == KeyCode::Char('q')) && plain(key) {
        (AppStateView { add_resource_prompt: None, ..s }, IntentView::Nothing)
    } else if key.code == KeyCode::Enter {
        confirmed_prompt(s)
    } else if key.code == KeyCode::Backspace {
        (with_prompt_input(s, |t: Seq<char>| without_last(t)), IntentView::Nothing)
    } else if key.code is Char && plain(key) {
        (with_prompt_input(s, |t: Seq<char>| t.push(key.code->Char_0)), IntentView::Nothing)
    } else {
        (s, IntentView::Nothing)
    }
}

/// Applies `key` while the reference prompt is open: Control-C empties the
/// input (or closes an empty prompt), a plain Esc or `q` closes the prompt,
/// Enter confirms it, Backspace deletes the last character, any other plain
/// character is typed; editing drops the prompt's error.
pub fn apply_add_resource_prompt_key(state: &mut AppState, key: KeyPress) -> (r: AppIntent)
    ensures
        (final(state)@, r@) == add_prompt_key_spec(old(state)@, key),
{
    let plain_key = is_plain_shortcut(key);
    let code = key.code;
    if code == KeyCode::Char('c') && key.control {
        state.clear_add_resource_input_or_close();
        AppIntent::Nothing
    } else if (code == KeyCode::Esc || code == KeyCode::Char('q')) && plain_key {
        state.close_add_resource_prompt();
        AppIntent::Nothing
    } else if code == KeyCode::Enter {
        confirm_add_resource_prompt(state)
    } else if code == KeyCode::Backspace {
        erase_prompt_char(state);
        AppIntent::Nothing
    } else {
        match code {
            KeyCode::Char(ch) => {
                if plain_key {
                    type_prompt_char(state, ch);
                }
                AppIntent::Nothing
            },
            _ => AppIntent::Nothing,
        }
    }
}

/// What following the link prompt gives: its resource, opened here (as a
/// navigation) or in a new tab, with the prompt closed; nothing when no
/// link prompt is open.
pub open spec fn link_followed(s: AppStateView, new_tab: bool) -> (AppStateView, IntentView) {
    match s.resource_link_prompt {
        None => (s, IntentView::Nothing),
        Some(p) => (
            AppStateView { resource_link_prompt: None, ..s },
            if new_tab { IntentView::OpenResource(p.id) } else { IntentView::Navigate(p.id) },
        ),
    }
}

/// Follows the link prompt in the current tab (see `link_followed`).
pub fn confirm_resource_link_here(state: &mut AppState) -> (r: AppIntent)
    ensures
        (final(state)@, r@) == link_followed(old(state)@, false),
{
    match state.resource_link_prompt_target() {
        None => AppIntent::Nothing,
        Some(id) => {
            state.close_resource_link_prompt();
            AppIntent::Navigate(id)
        },
    }
}

/// Follows the link prompt in a new tab (see `link_followed`).
pub fn confirm_resource_link_new_tab(state: &mut AppState) -> (r: AppIntent)
    ensures
        (final(state)@, r@) == link_followed(old(state)@, true),
{
    match state.resource_link_prompt_target() {
        None => AppIntent::Nothing,
        Some(id) => {
            state.close_resource_link_prompt();
            AppIntent::OpenResource(id)
        },
    }
}

/// What `key` does while the link prompt is open (see
/// `apply_resource_link_prompt_key`).
pub open spec fn link_prompt_key_spec(s: AppStateView, key: KeyPress) -> (AppStateView, IntentView) {
    if is_ctrl_c(key) || ((key.code == KeyCode::Esc || key.code == KeyCode::Char('q')) && plain(key)) {
        (AppStateView { resource_link_prompt: None, ..s }, IntentView::Nothing)
    } else if key.code == KeyCode::Enter || (key.code == KeyCode::Char('h') && plain(key)) {
        link_followed(s, false)
    } else if (key.code == KeyCode::Char('n') || key.code == KeyCode::Char('t')) && plain(key) {
        link_followed(s, true)
    } else {
        (s, IntentView::Nothing)
    }
}

/// Applies `key` while the link prompt is open: Control-C, or a plain Esc
/// or `q`, closes it; Enter or a plain `h` follows the link here; a plain
/// `n` or `t` follows it in a new tab.
pub fn apply_resource_link_prompt_key(state: &mut AppState, key: KeyPress) -> (r: AppIntent)
    ensures
        (final(state)@, r@) == link_prompt_key_spec(old(state)@, key),
{
    let plain_key = is_plain_shortcut(key);
    let code = key.code;
    if (code == KeyCode::Char('c') && key.control) || ((code == KeyCode::Esc || code == KeyCode::Char('q')) && plain_key) {
        state.close_resource_link_prompt();
        AppIntent::Nothing
    } else if code == KeyCode::Enter || (code == KeyCode::Char('h') && plain_key) {
        confirm_resource_link_here(state)
    } else if (code == KeyCode::Char('n') || code == KeyCode::Char('t')) && plain_key {
        confirm_resource_link_new_tab(state)
    } else {
        AppIntent::Nothing
    }
}

/// The state with its topmost overlay closed: the reference prompt, else
/// the link prompt, else help, else settings; `None` when none is open.
pub open spec fn overlay_closed(s: AppStateView) -> Option<AppStateView> {
    if s.add_resource_prompt is Some {
        Some(AppStateView { add_resource_prompt: None, ..s })
    } else if s.resource_link_prompt is Some {
        Some(AppStateView { resource_link_prompt: None, ..s })
    } else if s.show_help {
        Some(scroll_reset(AppStateView { show_help: false, ..s }))
    } else if s.show_settings {
        Some(scroll_reset(AppStateView { show_settings: false, ..s }))
    } else {
        None
    }
}

/// Closes the topmost overlay (see `overlay_closed`); says whether one was open.
pub fn close_active_overlay(state: &mut AppState) -> (closed: bool)
    ensures
        match overlay_closed(old(state)@) {
            Some(t) => closed && final(state)@ == t,
            None => !closed && final(state)@ == old(state)@,
        },
{
    if state.add_resource_prompt.is_some() {
        state.close_add_resource_prompt();
        return true;
    }
    if state.resource_link_prompt.is_some() {
        state.close_resource_link_prompt();
        return true;
    }
    if state.show_help {
        state.toggle_help();
        return true;
    }
    if state.show_settings {
        state.close_settings();
        return true;
    }
    false
}

/// What activating a link to resource `id` (through `url`, if given) does:
/// a link into the shown resource focuses its activity entry when the URL
/// points at one, and otherwise says that resource is already in view; a
/// link to another resource opens the prompt that asks where to open it.
pub open spec fn link_activated(s: AppStateView, id: IdView, url: Option<Seq<char>>) -> AppStateView {
    if canonical_name_spec(id) == canonical_name_spec(s.resource.id) {
        match url {
            Some(u) if linked_entry(s, u) is Some => focused_on(s, linked_entry(s, u)->0),
            _ => AppStateView { status_message: Some("already viewing "@ + canonical_name_spec(id)), ..s },
        }
    } else {
        AppStateView {
            hit_areas: Seq::empty(),
            scrollbar_drag: None,
            add_resource_prompt: None,
            quit_confirmation: false,
            resource_link_prompt: Some(LinkPromptView { id, url }),
            show_help: false,
            show_settings: false,
            ..s
        }
    }
}

/// Activates a link to resource `id` (see `link_activated`).
pub fn apply_resource_link(state: &mut AppState, id: ResourceId, url: Option<String>) -> (r: AppIntent)
    ensures
        r@ == IntentView::Nothing,
        final(state)@ == link_activated(old(state)@, id@, opt_str(url)),
{
    let name = id.canonical_name();
    let current = state.resource.id.canonical_name();
    if crate::text::str_eq(name.as_str(), current.as_str()) {
        let focused = match &url {
            Some(u) => state.focus_activity_url(u.as_str()),
            None => false,
        };
        if focused {
            return AppIntent::Nothing;
        }
        let mut message = crate::text::owned("already viewing ");
        crate::text::push_str(&mut message, name.as_str());
        state.status_message = Some(message);
        proof {
            reveal_strlit("already viewing ");
        }
        return AppIntent::Nothing;
    }
    state.open_resource_link_prompt(id, url);
    AppIntent::Nothing
}

/// The web URL of the shown resource.
pub fn current_resource_url(state: &AppState) -> (u: String)
    ensures
        u@ == resource_web_url(state.resource@, resource_kind(state.resource)),
{
    state.resource.web_url()
}

/// The URL a click area leads to: its URL, or the web URL of the resource
/// it opens.
pub open spec fn area_url(t: HitTargetView) -> Option<Seq<char>> {
    match t {
        HitTargetView::OpenUrl(u) => Some(u),
        HitTargetView::Navigate(id) => Some(web_url_spec(id, default_url_kind(id))),
        _ => None,
    }
}

/// Whether a click area leads to a URL.
pub open spec fn leads_to_url() -> spec_fn(HitAreaView) -> bool {
    |a: HitAreaView| area_url(a.target) is Some
}

/// The URL of the first click area that leads to one, else the web URL of
/// the shown resource.
pub open spec fn visible_url_spec(s: AppStateView, current: Seq<char>) -> Seq<char> {
    match first_index(s.hit_areas, leads_to_url()) {
        Some(i) => area_url(s.hit_areas[i].target)->0,
        None => current,
    }
}

/// The URL in view (see `visible_url_spec`).
pub fn visible_or_current_url(state: &AppState) -> (u: String)
    ensures
        u@ == visible_url_spec(state@, resource_web_url(state.resource@, resource_kind(state.resource))),
{
    let ghost p = leads_to_url();
    let mut i: usize = 0;
    while i < state.hit_areas.len()
        invariant
            i <= state@.hit_areas.len(),
            p == leads_to_url(),
            forall|j: int| 0 <= j < i ==> !p(#[trigger] state@.hit_areas[j]),
        decreases state.hit_areas.len() - i,
    {
        let area = &state.hit_areas[i];
        proof {
            assert(state@.hit_areas[i as int] == area@);
        }
        match &area.target {
            HitTarget::OpenUrl(url) => {
                proof {
                    lemma_first_index_is(state@.hit_areas, p, i as int);
                }
                return url.clone();
            },
            HitTarget::Navigate(id) => {
                proof {
                    lemma_first_index_is(state@.hit_areas, p, i as int);
                }
                return id.web_url();
            },
            _ => {},
        }
        i = i + 1;
    }
    proof {
        lemma_first_index_none(state@.hit_areas, p);
    }
    current_resource_url(state)
}

/// What activating click target `t` does to the state, given `url`, the URL
/// in view (see `visible_url_spec`): content tabs and blocks change in place,
/// links and URLs become intents, refresh is requested, the quit question,
/// help and settings open or close, and a theme or symbol choice that reads
/// and changes the setting asks for the settings to be saved.
pub open spec fn target_applied_spec(s: AppStateView, t: HitTargetView, url: Seq<char>) -> (AppStateView, IntentView) {
    match t {
        HitTargetView::Tab(tab) => (tab_set(s, tab), IntentView::Nothing),
        HitTargetView::ToggleBlock(b) => (
            AppStateView { expanded_blocks: toggled(s.expanded_blocks, b), ..s },
            IntentView::Nothing,
        ),
        HitTargetView::Navigate(id) => (s, IntentView::Navigate(id)),
        HitTargetView::OpenUrl(u) => (s, IntentView::OpenUrl(u)),
        HitTargetView::Refresh => (AppStateView { refresh_requested: true, ..s }, IntentView::Refresh),
        HitTargetView::OpenCurrent => (s, IntentView::OpenUrl(url)),
        HitTargetView::Quit => (
            AppStateView {
                hit_areas: Seq::empty(),
                scrollbar_drag: None,
                add_resource_prompt: None,
                resource_link_prompt: None,
                show_help: false,
                show_settings: false,
                quit_confirmation: true,
                ..s
            },
            IntentView::Nothing,
        ),
        HitTargetView::Help => (
            scroll_reset(AppStateView {
                show_help: !s.show_help,
                show_settings: if !s.show_help { false } else { s.show_settings },
                ..s
            }),
            IntentView::Nothing,
        ),
        HitTargetView::Settings => (
            scroll_reset(AppStateView {
                show_settings: !s.show_settings,
                show_help: if !s.show_settings { false } else { s.show_help },
                ..s
            }),
            IntentView::Nothing,
        ),
        HitTargetView::CloseSettings => (scroll_reset(AppStateView { show_settings: false, ..s }), IntentView::Nothing),
        HitTargetView::SetTheme(name) => match theme_from_name(name) {
            Some(theme) => (
                AppStateView { theme, ..s },
                if s.theme != theme { IntentView::SaveSettings } else { IntentView::Nothing },
            ),
            None => (s, IntentView::Nothing),
        },
        HitTargetView::SetSymbols(name) => match symbol_mode_from_name(name) {
            Some(symbols) => (
                AppStateView { symbols, ..s },
                if s.symbols != symbols { IntentView::SaveSettings } else { IntentView::Nothing },
            ),
            None => (s, IntentView::Nothing),
        },
    }
}

/// Activates click target `target` (see `target_applied_spec`).
pub fn apply_target(state: &mut AppState, target: HitTarget) -> (r: AppIntent)
    ensures
        (final(state)@, r@) == target_applied_spec(
            old(state)@,
            target@,
            visible_url_spec(old(state)@, resource_web_url(old(state).resource@, resource_kind(old(state).resource))),
        ),
{
    match target {
        HitTarget::Tab(tab) => {
            state.set_tab(tab);
            AppIntent::Nothing
        },
        HitTarget::ToggleBlock(id) => {
            state.toggle_block(id);
            AppIntent::Nothing
        },
        HitTarget::Navigate(id) => AppIntent::Navigate(id),
        HitTarget::OpenUrl(url) => AppIntent::OpenUrl(url),
        HitTarget::Refresh => {
            state.refresh_requested = true;
            AppIntent::Refresh
        },
        HitTarget::OpenCurrent => AppIntent::OpenUrl(visible_or_current_url(state)),
        HitTarget::Quit => {
            state.request_quit_confirmation();
            AppIntent::Nothing
        },
        HitTarget::Help => {
            state.toggle_help();
            AppIntent::Nothing
        },
        HitTarget::Settings => {
            state.toggle_settings();
            AppIntent::Nothing
        },
        HitTarget::CloseSettings => {
            state.close_settings();
            AppIntent::Nothing
        },
        HitTarget::SetTheme(name) => match ThemeName::from_name(name.as_str()) {
            Ok(theme) => {
                if state.set_theme(theme) {
                    AppIntent::SaveSettings
                } else {
                    AppIntent::Nothing
                }
            },
            Err(_) => AppIntent::Nothing,
        },
        HitTarget::SetSymbols(name) => match SymbolMode::from_name(name.as_str()) {
            Ok(symbols) => {
                if state.set_symbols(symbols) {
                    AppIntent::SaveSettings
                } else {
                    AppIntent::Nothing
                }
            },
            Err(_) => AppIntent::Nothing,
        },
    }
}

/// What a key press asks for, as decided from the state and the key.
#[derive(Debug, Clone, Copy, PartialEq, Eq)]
pub enum KeyCommand {
    /// Answer the quit question.
    QuitPrompt,
    /// Edit the reference prompt.
    AddPrompt,
    /// Answer the link prompt.
    LinkPrompt,
    /// Close the topmost overlay, or ask whether to quit.
    CloseOrAskQuit,
    QuitNow,
    Refresh,
    /// Open the action menu, which this state does not hold.
    ActionMenu,
    NewTabPrompt,
    LoadFullDepth,
    ReplacePrompt,
    CopyUrl,
    ToggleHelp,
    ToggleSettings,
    ToggleFeedOrder,
    ToggleExpansion,
    CloseTab,
    CloseSettings,
    CycleTheme,
    CycleSymbols,
    CycleSpacing,
    CycleWidthMode,
    CycleScrollbar,
    /// Widen the fixed content width; no step size is set here, so it
    /// changes nothing (see `AppState::increase_fixed_width`).
    WiderContent,
    /// Narrow the fixed content width; no step size is set here, so it
    /// changes nothing (see `AppState::decrease_fixed_width`).
    NarrowerContent,
    NumberedTab(char),
    NextResourceTab,
    PreviousResourceTab,
    NextTab,
    PreviousTab,
    Back,
    ActivateFirst,
    ScrollDown(u16),
    ScrollUp(u16),
    ScrollTop,
    ScrollBottom,
    ToggleBody,
    Ignore,
}

/// Which command `key` is in state `s`: an open quit question, reference
/// prompt or link prompt takes every key; otherwise the shortcuts of the
/// main view apply, in this order, plain ones only without Control or Alt.
pub open spec fn key_command_spec(s: AppStateView, key: KeyPress) -> KeyCommand {
    let c = key.code;
    let p = plain(key);
    let overlay = s.show_help || s.show_settings;
    if s.quit_confirmation {
        KeyCommand::QuitPrompt
    } else if s.add_resource_prompt is Some {
        KeyCommand::AddPrompt
    } else if s.resource_link_prompt is Some {
        KeyCommand::LinkPrompt
    } else if c == KeyCode::Char('q') && p {
        KeyCommand::CloseOrAskQuit
    } else if c == KeyCode::Char('c') && key.control {
        KeyCommand::QuitNow
    } else if c == KeyCode::Char('r') && p {
        KeyCommand::Refresh
    } else if c == KeyCode::Char('A') && p {
        KeyCommand::ActionMenu
    } else if c == KeyCode::Char('n') && p {
        KeyCommand::NewTabPrompt
    } else if c == KeyCode::Char('f') && !overlay
        && has_warning_containing(s.resource.warnings, FULL_DEPTH_WARNING_HINT@) && p {
        KeyCommand::LoadFullDepth
    } else if c == KeyCode::Char('o') && p {
        KeyCommand::ReplacePrompt
    } else if c == KeyCode::Char('y') && !s.show_settings && p {
        KeyCommand::CopyUrl
    } else if c == KeyCode::Char('?') && p {
        KeyCommand::ToggleHelp
    } else if c == KeyCode::Char('s') && p {
        KeyCommand::ToggleSettings
    } else if c == KeyCode::Char('v') && p {
        KeyCommand::ToggleFeedOrder
    } else if c == KeyCode::Char('a') && !overlay && p {
        KeyCommand::ToggleExpansion
    } else if c == KeyCode::Char('x') && !overlay && p {
        KeyCommand::CloseTab
    } else if c == KeyCode::Esc && s.show_settings {
        KeyCommand::CloseSettings
    } else if c == KeyCode::Char('t') && s.show_settings && p {
        KeyCommand::CycleTheme
    } else if c == KeyCode::Char('y') && s.show_settings && p {
        KeyCommand::CycleSymbols
    } else if c == KeyCode::Char('p') && s.show_settings && p {
        KeyCommand::CycleSpacing
    } else if c == KeyCode::Char('w') && s.show_settings && p {
        KeyCommand::CycleWidthMode
    } else if c == KeyCode::Char('b') && s.show_settings && p {
        KeyCommand::CycleScrollbar
    } else if (c == KeyCode::Char('+') || c == KeyCode::Char('=')) && s.show_settings && p {
        KeyCommand::WiderContent
    } else if c == KeyCode::Char('-') && s.show_settings && p {
        KeyCommand::NarrowerContent
    } else if c is Char && '1' <= c->Char_0 <= '6' && !s.show_settings && p {
        KeyCommand::NumberedTab(c->Char_0)
    } else if c == KeyCode::Tab || c == KeyCode::Char('\t') {
        KeyCommand::NextResourceTab
    } else if c == KeyCode::BackTab {
        KeyCommand::PreviousResourceTab
    } else if c == KeyCode::Char('i') && key.control {
        KeyCommand::NextResourceTab
    } else if c == KeyCode::Right && key.shift {
        KeyCommand::NextResourceTab
    } else if c == KeyCode::Left && key.shift {
        KeyCommand::PreviousResourceTab
    } else if c == KeyCode::Right || (c == KeyCode::Char('l') && p) {
        KeyCommand::NextTab
    } else if c == KeyCode::Left || (c == KeyCode::Char('h') && p) {
        KeyCommand::PreviousTab
    } else if c == KeyCode::Backspace {
        KeyCommand::Back
    } else if c == KeyCode::Enter {
        KeyCommand::ActivateFirst
    } else if c == KeyCode::Down || (c == KeyCode::Char('j') && p) {
        KeyCommand::ScrollDown(1)
    } else if c == KeyCode::Up || (c == KeyCode::Char('k') && p) {
        KeyCommand::ScrollUp(1)
    } else if c == KeyCode::PageDown {
        KeyCommand::ScrollDown(10)
    } else if c == KeyCode::PageUp {
        KeyCommand::ScrollUp(10)
    } else if c == KeyCode::Home {
        KeyCommand::ScrollTop
    } else if c == KeyCode::End {
        KeyCommand::ScrollBottom
    } else if c == KeyCode::Char('e') && p {
        KeyCommand::ToggleBody
    } else {
        KeyCommand::Ignore
    }
}

/// The state after the quit question is asked (see `request_quit_confirmation`).
pub open spec fn quit_asked(s: AppStateView) -> AppStateView {
    AppStateView {
        hit_areas: Seq::empty(),
        scrollbar_drag: None,
        add_resource_prompt: None,
        resource_link_prompt: None,
        show_help: false,
        show_settings: false,
        quit_confirmation: true,
        ..s
    }
}

/// The state with the shown tab's offered blocks all expanded, or all
/// collapsed when they all are expanded (see `toggle_active_tab_expansion`).
pub open spec fn expansion_toggled(s: AppStateView) -> AppStateView {
    let bs = offered_blocks(s);
    if bs.len() == 0 {
        s
    } else if forall|j: int| 0 <= j < bs.len() ==> s.expanded_blocks.contains(#[trigger] bs[j]) {
        AppStateView { expanded_blocks: without_all(s.expanded_blocks, bs), ..s }
    } else {
        AppStateView { expanded_blocks: with_all(s.expanded_blocks, bs), ..s }
    }
}

/// The state scrolled down by `n` lines, at most to the limit.
pub open spec fn scrolled_down(s: AppStateView, n: u16) -> AppStateView {
    revealed(AppStateView {
        scroll: if s.scroll + n >= s.scroll_limit { s.scroll_limit } else { (s.scroll + n) as u16 },
        ..s
    })
}

/// The state scrolled up by `n` lines, at most to the top.
pub open spec fn scrolled_up(s: AppStateView, n: u16) -> AppStateView {
    revealed(AppStateView { scroll: if s.scroll >= n { (s.scroll - n) as u16 } else { 0 }, ..s })
}

/// Whether a click area acts on the content.
pub open spec fn acts_on_content() -> spec_fn(HitAreaView) -> bool {
    |a: HitAreaView| is_content_action_spec(a.target)
}

/// What command `cmd`, taken from `key`, does to `s`, `url` being the URL
/// in view (see `visible_url_spec`).
pub open spec fn key_effect(s: AppStateView, key: KeyPress, cmd: KeyCommand, url: Seq<char>) -> (AppStateView, IntentView) {
    match cmd {
        KeyCommand::QuitPrompt => quit_key_spec(s, key),
        KeyCommand::AddPrompt => add_prompt_key_spec(s, key),
        KeyCommand::LinkPrompt => link_prompt_key_spec(s, key),
        KeyCommand::CloseOrAskQuit => (
            match overlay_closed(s) {
                Some(t) => t,
                None => quit_asked(s),
            },
            IntentView::Nothing,
        ),
        KeyCommand::QuitNow => (AppStateView { should_quit: true, ..s }, IntentView::Quit),
        KeyCommand::Refresh => (AppStateView { refresh_requested: true, ..s }, IntentView::Refresh),
        KeyCommand::NewTabPrompt => (with_add_prompt(s, AddResourceMode::NewTab), IntentView::Nothing),
        KeyCommand::LoadFullDepth => (s, IntentView::LoadFullDepth),
        KeyCommand::ReplacePrompt => (with_add_prompt(s, AddResourceMode::ReplaceCurrent), IntentView::Nothing),
        KeyCommand::CopyUrl => (s, IntentView::CopyUrl(url)),
        KeyCommand::ToggleHelp => target_applied_spec(s, HitTargetView::Help, url),
        KeyCommand::ToggleSettings => target_applied_spec(s, HitTargetView::Settings, url),
        KeyCommand::ToggleFeedOrder => (
            scroll_reset(AppStateView { reverse_chronological: !s.reverse_chronological, ..s }),
            IntentView::Nothing,
        ),
        KeyCommand::ToggleExpansion => (expansion_toggled(s), IntentView::Nothing),
        KeyCommand::CloseTab => (
            if s.resource_tabs.len() > 1 && s.active_resource_tab < s.resource_tabs.len() {
                closed_tab(s, s.active_resource_tab as int)
            } else {
                s
            },
            IntentView::Nothing,
        ),
        KeyCommand::CloseSettings => target_applied_spec(s, HitTargetView::CloseSettings, url),
        KeyCommand::CycleTheme => (
            AppStateView { theme: next_theme(s.theme), ..s },
            if s.theme != next_theme(s.theme) { IntentView::SaveSettings } else { IntentView::Nothing },
        ),
        KeyCommand::CycleSymbols => (
            AppStateView {
                symbols: match s.symbols {
                    SymbolMode::Ascii => SymbolMode::Emoji,
                    SymbolMode::Emoji => SymbolMode::Ascii,
                },
                ..s
            },
            IntentView::SaveSettings,
        ),
        KeyCommand::CycleSpacing => (
            scroll_reset(AppStateView {
                spacing: match s.spacing {
                    SpacingMode::Comfortable => SpacingMode::Compact,
                    SpacingMode::Compact => SpacingMode::Comfortable,
                },
                ..s
            }),
            IntentView::SaveSettings,
        ),
        KeyCommand::CycleWidthMode => (
            scroll_reset(AppStateView {
                width_mode: match s.width_mode {
                    ContentWidthMode::Fixed => ContentWidthMode::Full,
                    ContentWidthMode::Full => ContentWidthMode::Fixed,
                },
                ..s
            }),
            IntentView::SaveSettings,
        ),
        KeyCommand::CycleScrollbar => (
            {
                let m = next_scrollbar(s.scrollbar);
                if m == ScrollbarMode::OnScroll {
                    revealed(AppStateView { scrollbar: m, scrollbar_drag: None, ..s })
                } else {
                    AppStateView { scrollbar: m, scrollbar_drag: None, ..s }
                }
            },
            IntentView::SaveSettings,
        ),
        KeyCommand::NumberedTab(ch) => (
            match numbered_tab_spec(ch, shown_tabs(s)) {
                Some(t) => tab_set(s, t),
                None => s,
            },
            IntentView::Nothing,
        ),
        KeyCommand::NextResourceTab => (tabs_cycled(s, true), IntentView::Nothing),
        KeyCommand::PreviousResourceTab => (tabs_cycled(s, false), IntentView::Nothing),
        KeyCommand::NextTab => (scroll_reset(AppStateView { active_tab: tab_after(s), ..s }), IntentView::Nothing),
        KeyCommand::PreviousTab => (scroll_reset(AppStateView { active_tab: tab_before(s), ..s }), IntentView::Nothing),
        KeyCommand::Back => (s, IntentView::Back),
        KeyCommand::ActivateFirst => match first_index(s.hit_areas, acts_on_content()) {
            Some(i) => target_applied_spec(s, s.hit_areas[i].target, url),
            None => (s, IntentView::Nothing),
        },
        KeyCommand::ScrollDown(n) => (scrolled_down(s, n), IntentView::Nothing),
        KeyCommand::ScrollUp(n) => (scrolled_up(s, n), IntentView::Nothing),
        KeyCommand::ScrollTop => (revealed(AppStateView { scroll: 0, ..s }), IntentView::Nothing),
        KeyCommand::ScrollBottom => (revealed(AppStateView { scroll: s.scroll_limit, ..s }), IntentView::Nothing),
        KeyCommand::ToggleBody => (
            AppStateView { expanded_blocks: toggled(s.expanded_blocks, BlockIdView::Body), ..s },
            IntentView::Nothing,
        ),
        _ => (s, IntentView::Nothing),
    }
}

/// What `key` does in state `s` (see `key_command_spec` and `key_effect`).
pub open spec fn key_applied_spec(s: AppStateView, key: KeyPress, url: Seq<char>) -> (AppStateView, IntentView) {
    key_effect(s, key, key_command_spec(s, key), url)
}

/// In the main view (no quit question, no prompt), the scrolling keys only
/// scroll, whatever modifiers are held, and ask for nothing: Up and Down by
/// one line, PageUp and PageDown by ten, Home to the top and End to the
/// bottom, never above the top nor below the scroll limit; scrolling shows
/// the scrollbar for a while when it shows on scroll.
pub proof fn law_scroll_keys_scroll(s: AppStateView, key: KeyPress, url: Seq<char>)
    requires
        !s.quit_confirmation,
        s.add_resource_prompt is None,
        s.resource_link_prompt is None,
        key.code is Up || key.code is Down || key.code is PageUp || key.code is PageDown || key.code is Home
            || key.code is End,
    ensures
        key_applied_spec(s, key, url).1 == IntentView::Nothing,
        key_applied_spec(s, key, url).0 == (AppStateView {
            scroll: key_applied_spec(s, key, url).0.scroll,
            scrollbar_visible_frames: key_applied_spec(s, key, url).0.scrollbar_visible_frames,
            ..s
        }),
        key_applied_spec(s, key, url).0.scrollbar_visible_frames == if s.scroll_limit > 0 && s.scrollbar
            == ScrollbarMode::OnScroll {
            SCROLLBAR_VISIBLE_FRAMES
        } else {
            s.scrollbar_visible_frames
        },
        key.code is Up ==> key_applied_spec(s, key, url).0.scroll == if s.scroll >= 1 { s.scroll - 1 } else { 0 },
        key.code is PageUp ==> key_applied_spec(s, key, url).0.scroll == if s.scroll >= 10 { s.scroll - 10 } else { 0 },
        key.code is Down ==> key_applied_spec(s, key, url).0.scroll == if s.scroll + 1 >= s.scroll_limit {
            s.scroll_limit as int
        } else {
            s.scroll + 1
        },
        key.code is PageDown ==> key_applied_spec(s, key, url).0.scroll == if s.scroll + 10 >= s.scroll_limit {
            s.scroll_limit as int
        } else {
            s.scroll + 10
        },
        key.code is Home ==> key_applied_spec(s, key, url).0.scroll == 0,
        key.code is End ==> key_applied_spec(s, key, url).0.scroll == s.scroll_limit,
{
}

/// In the main view, Tab and Shift+Right show the next resource tab and
/// BackTab and Shift+Left the previous one, wrapping around, with the
/// resource that tab holds; the tabs stay as they are in number, and
/// nothing is asked for.
pub proof fn law_tab_keys_switch_resource_tabs(s: AppStateView, key: KeyPress, url: Seq<char>)
    requires
        !s.quit_confirmation,
        s.add_resource_prompt is None,
        s.resource_link_prompt is None,
        s.active_resource_tab < s.resource_tabs.len(),
        2 <= s.resource_tabs.len() < usize::MAX,
        key.code is Tab || key.code is BackTab || (key.shift && (key.code is Right || key.code is Left)),
    ensures
        ({
            let t = key_applied_spec(s, key, url);
            let a = s.active_resource_tab as int;
            let n = s.resource_tabs.len() as int;
            let forward = key.code is Tab || key.code is Right;
            let i = if forward {
                if a + 1 == n { 0 } else { a + 1 }
            } else {
                if a == 0 { n - 1 } else { a - 1 }
            };
            &&& t.1 == IntentView::Nothing
            &&& t.0.resource_tabs.len() == n
            &&& t.0.active_resource_tab == i
            &&& t.0.resource == s.resource_tabs[i].resource
            &&& t.0.resource_tabs[i].id == s.resource_tabs[i].id
        }),
{
    let a = s.active_resource_tab as int;
    let n = s.resource_tabs.len() as int;
    let forward = key.code is Tab || key.code is Right;
    assert(a % n == a) by (nonlinear_arith)
        requires 0 <= a < n;
    assert(key_command_spec(s, key) == if forward {
        KeyCommand::NextResourceTab
    } else {
        KeyCommand::PreviousResourceTab
    });
    let i = cycled_tab_index(s, forward);
    assert(i != a);
    let s1 = snapshot(s);
    assert(s1.resource_tabs[i] == s.resource_tabs[i]);
    assert(tabs_cycled(s, forward) == restore(s1, i));
}

/// In the main view the letter shortcuts, typed without Control or Alt, do
/// what the help says: `r` asks for a refresh, `n` opens the prompt for a
/// resource in a new tab and `o` the one to replace the shown resource, `y`
/// (settings closed) copies the URL in view, `v` turns the feed's order
/// around from the top, and Backspace goes back; Control-C quits at once.
pub proof fn law_shortcuts_do_what_they_say(s: AppStateView, key: KeyPress, url: Seq<char>)
    requires
        !s.quit_confirmation,
        s.add_resource_prompt is None,
        s.resource_link_prompt is None,
    ensures
        plain(key) && key.code == KeyCode::Char('r') ==> key_applied_spec(s, key, url)
            == (AppStateView { refresh_requested: true, ..s }, IntentView::Refresh),
        plain(key) && key.code == KeyCode::Char('n') ==> key_applied_spec(s, key, url)
            == (with_add_prompt(s, AddResourceMode::NewTab), IntentView::Nothing),
        plain(key) && key.code == KeyCode::Char('o') ==> key_applied_spec(s, key, url)
            == (with_add_prompt(s, AddResourceMode::ReplaceCurrent), IntentView::Nothing),
        plain(key) && key.code == KeyCode::Char('y') && !s.show_settings ==> key_applied_spec(s, key, url)
            == (s, IntentView::CopyUrl(url)),
        plain(key) && key.code == KeyCode::Char('v') ==> key_applied_spec(s, key, url)
            == (scroll_reset(AppStateView { reverse_chronological: !s.reverse_chronological, ..s }), IntentView::Nothing),
        key.code == KeyCode::Backspace ==> key_applied_spec(s, key, url) == (s, IntentView::Back),
        key.control && key.code == KeyCode::Char('c') ==> key_applied_spec(s, key, url)
            == (AppStateView { should_quit: true, ..s }, IntentView::Quit),
{
}

/// PageUp undoes PageDown when ten lines fit below the scroll position:
/// the view is back where it was.
pub proof fn law_page_up_undoes_page_down(s: AppStateView, down: KeyPress, up: KeyPress, url: Seq<char>)
    requires
        !s.quit_confirmation,
        s.add_resource_prompt is None,
        s.resource_link_prompt is None,
        down.code is PageDown,
        up.code is PageUp,
        s.scroll + 10 <= s.scroll_limit,
    ensures
        key_applied_spec(key_applied_spec(s, down, url).0, up, url).0.scroll == s.scroll,
{
    law_scroll_keys_scroll(s, down, url);
    law_scroll_keys_scroll(key_applied_spec(s, down, url).0, up, url);
}

/// The command `key` is in `state` (see `key_command_spec`).
pub fn key_command(state: &AppState, key: KeyPress) -> (c: KeyCommand)
    ensures
        c == key_command_spec(state@, key),
{
    let code = key.code;
    let p = is_plain_shortcut(key);
    let overlay = state.show_help || state.show_settings;
    let settings = state.show_settings;
    if state.quit_confirmation {
        KeyCommand::QuitPrompt
    } else if state.add_resource_prompt.is_some() {
        KeyCommand::AddPrompt
    } else if state.resource_link_prompt.is_some() {
        KeyCommand::LinkPrompt
    } else if code == KeyCode::Char('q') && p {
        KeyCommand::CloseOrAskQuit
    } else if code == KeyCode::Char('c') && key.control {
        KeyCommand::QuitNow
    } else if code == KeyCode::Char('r') && p {
        KeyCommand::Refresh
    } else if code == KeyCode::Char('A') && p {
        KeyCommand::ActionMenu
    } else if code == KeyCode::Char('n') && p {
        KeyCommand::NewTabPrompt
    } else if code == KeyCode::Char('f') && !overlay && state.resource.has_partial_depth_warning() && p {
        KeyCommand::LoadFullDepth
    } else if code == KeyCode::Char('o') && p {
        KeyCommand::ReplacePrompt
    } else if code == KeyCode::Char('y') && !settings && p {
        KeyCommand::CopyUrl
    } else if code == KeyCode::Char('?') && p {
        KeyCommand::ToggleHelp
    } else if code == KeyCode::Char('s') && p {
        KeyCommand::ToggleSettings
    } else if code == KeyCode::Char('v') && p {
        KeyCommand::ToggleFeedOrder
    } else if code == KeyCode::Char('a') && !overlay && p {
        KeyCommand::ToggleExpansion
    } else if code == KeyCode::Char('x') && !overlay && p {
        KeyCommand::CloseTab
    } else if code == KeyCode::Esc && settings {
        KeyCommand::CloseSettings
    } else if code == KeyCode::Char('t') && settings && p {
        KeyCommand::CycleTheme
    } else if code == KeyCode::Char('y') && settings && p {
        KeyCommand::CycleSymbols
    } else if code == KeyCode::Char('p') && settings && p {
        KeyCommand::CycleSpacing
    } else if code == KeyCode::Char('w') && settings && p {
        KeyCommand::CycleWidthMode
    } else if code == KeyCode::Char('b') && settings && p {
        KeyCommand::CycleScrollbar
    } else if (code == KeyCode::Char('+') || code == KeyCode::Char('=')) && settings && p {
        KeyCommand::WiderContent
    } else if code == KeyCode::Char('-') && settings && p {
        KeyCommand::NarrowerContent
    } else {
        key_command_rest(code, key, p, settings)
    }
}

fn key_command_rest(code: KeyCode, key: KeyPress, p: bool, settings: bool) -> (c: KeyCommand)
    requires
        code == key.code,
        p == plain(key),
    ensures
        c == ({
            let c = key.code;
            if c is Char && '1' <= c->Char_0 <= '6' && !settings && p {
                KeyCommand::NumberedTab(c->Char_0)
            } else if c == KeyCode::Tab || c == KeyCode::Char('\t') {
                KeyCommand::NextResourceTab
            } else if c == KeyCode::BackTab {
                KeyCommand::PreviousResourceTab
            } else if c == KeyCode::Char('i') && key.control {
                KeyCommand::NextResourceTab
            } else if c == KeyCode::Right && key.shift {
                KeyCommand::NextResourceTab
            } else if c == KeyCode::Left && key.shift {
                KeyCommand::PreviousResourceTab
            } else if c == KeyCode::Right || (c == KeyCode::Char('l') && p) {
                KeyCommand::NextTab
            } else if c == KeyCode::Left || (c == KeyCode::Char('h') && p) {
                KeyCommand::PreviousTab
            } else if c == KeyCode::Backspace {
                KeyCommand::Back
            } else if c == KeyCode::Enter {
                KeyCommand::ActivateFirst
            } else if c == KeyCode::Down || (c == KeyCode::Char('j') && p) {
                KeyCommand::ScrollDown(1)
            } else if c == KeyCode::Up || (c == KeyCode::Char('k') && p) {
                KeyCommand::ScrollUp(1)
            } else if c == KeyCode::PageDown {
                KeyCommand::ScrollDown(10)
            } else if c == KeyCode::PageUp {
                KeyCommand::ScrollUp(10)
            } else if c == KeyCode::Home {
                KeyCommand::ScrollTop
            } else if c == KeyCode::End {
                KeyCommand::ScrollBottom
            } else if c == KeyCode::Char('e') && p {
                KeyCommand::ToggleBody
            } else {
                KeyCommand::Ignore
            }
        }),
{
    let digit = match code {
        KeyCode::Char(ch) => if '1' <= ch && ch <= '6' { Some(ch) } else { None },
        _ => None,
    };
    match digit {
        Some(ch) => if !settings && p {
            return KeyCommand::NumberedTab(ch);
        },
        None => {},
    }
    if code == KeyCode::Tab || code == KeyCode::Char('\t') {
        KeyCommand::NextResourceTab
    } else if code == KeyCode::BackTab {
        KeyCommand::PreviousResourceTab
    } else if code == KeyCode::Char('i') && key.control {
        KeyCommand::NextResourceTab
    } else if code == KeyCode::Right && key.shift {
        KeyCommand::NextResourceTab
    } else if code == KeyCode::Left && key.shift {
        KeyCommand::PreviousResourceTab
    } else if code == KeyCode::Right || (code == KeyCode::Char('l') && p) {
        KeyCommand::NextTab
    } else if code == KeyCode::Left || (code == KeyCode::Char('h') && p) {
        KeyCommand::PreviousTab
    } else if code == KeyCode::Backspace {
        KeyCommand::Back
    } else if code == KeyCode::Enter {
        KeyCommand::ActivateFirst
    } else if code == KeyCode::Down || (code == KeyCode::Char('j') && p) {
        KeyCommand::ScrollDown(1)
    } else if code == KeyCode::Up || (code == KeyCode::Char('k') && p) {
        KeyCommand::ScrollUp(1)
    } else if code == KeyCode::PageDown {
        KeyCommand::ScrollDown(10)
    } else if code == KeyCode::PageUp {
        KeyCommand::ScrollUp(10)
    } else if code == KeyCode::Home {
        KeyCommand::ScrollTop
    } else if code == KeyCode::End {
        KeyCommand::ScrollBottom
    } else if code == KeyCode::Char('e') && p {
        KeyCommand::ToggleBody
    } else {
        KeyCommand::Ignore
    }
}

#[verifier::rlimit(40)]
fn run_prompt_command(state: &mut AppState, key: KeyPress, cmd: KeyCommand) -> (r: AppIntent)
    requires
        cmd is QuitPrompt || cmd is AddPrompt || cmd is LinkPrompt || cmd is CloseOrAskQuit || cmd is QuitNow
            || cmd is Refresh || cmd is NewTabPrompt || cmd is ReplacePrompt || cmd is LoadFullDepth
            || cmd is CopyUrl || cmd is Back || cmd is ActionMenu || cmd is WiderContent
            || cmd is NarrowerContent || cmd is Ignore,
    ensures
        (final(state)@, r@) == key_effect(
            old(state)@,
            key,
            cmd,
            visible_url_spec(old(state)@, resource_web_url(old(state).resource@, resource_kind(old(state).resource))),
        ),
{
    match cmd {
        KeyCommand::QuitPrompt => apply_quit_confirmation_key(state, key),
        KeyCommand::AddPrompt => apply_add_resource_prompt_key(state, key),
        KeyCommand::LinkPrompt => apply_resource_link_prompt_key(state, key),
        KeyCommand::CloseOrAskQuit => {
            if !close_active_overlay(state) {
                state.request_quit_confirmation();
            }
            AppIntent::Nothing
        },
        KeyCommand::QuitNow => {
            state.should_quit = true;
            AppIntent::Quit
        },
        KeyCommand::Refresh => {
            state.refresh_requested = true;
            AppIntent::Refresh
        },
        KeyCommand::NewTabPrompt => {
            state.open_add_resource_prompt();
            AppIntent::Nothing
        },
        KeyCommand::ReplacePrompt => {
            state.open_replace_resource_prompt();
            AppIntent::Nothing
        },
        KeyCommand::LoadFullDepth => AppIntent::LoadFullDepth,
        KeyCommand::CopyUrl => AppIntent::CopyUrl(visible_or_current_url(state)),
        KeyCommand::Back => AppIntent::Back,
        _ => AppIntent::Nothing,
    }
}

fn key_toggle_help(state: &mut AppState) -> (r: AppIntent)
    ensures
        (final(state)@, r@) == key_effect(old(state)@, KeyPress { code: KeyCode::Other, control: false, alt: false, shift: false }, KeyCommand::ToggleHelp, visible_url_spec(old(state)@, resource_web_url(old(state).resource@, resource_kind(old(state).resource)))),
{
    state.toggle_help();
    AppIntent::Nothing
}

fn key_toggle_settings(state: &mut AppState) -> (r: AppIntent)
    ensures
        (final(state)@, r@) == key_effect(old(state)@, KeyPress { code: KeyCode::Other, control: false, alt: false, shift: false }, KeyCommand::ToggleSettings, visible_url_spec(old(state)@, resource_web_url(old(state).resource@, resource_kind(old(state).resource)))),
{
    state.toggle_settings();
    AppIntent::Nothing
}

fn key_toggle_feed_order(state: &mut AppState) -> (r: AppIntent)
    ensures
        (final(state)@, r@) == key_effect(old(state)@, KeyPress { code: KeyCode::Other, control: false, alt: false, shift: false }, KeyCommand::ToggleFeedOrder, visible_url_spec(old(state)@, resource_web_url(old(state).resource@, resource_kind(old(state).resource)))),
{
    state.toggle_feed_order();
    AppIntent::Nothing
}

fn key_toggle_expansion(state: &mut AppState) -> (r: AppIntent)
    ensures
        (final(state)@, r@) == key_effect(old(state)@, KeyPress { code: KeyCode::Other, control: false, alt: false, shift: false }, KeyCommand::ToggleExpansion, visible_url_spec(old(state)@, resource_web_url(old(state).resource@, resource_kind(old(state).resource)))),
{
    state.toggle_active_tab_expansion();
    AppIntent::Nothing
}

fn key_close_tab(state: &mut AppState) -> (r: AppIntent)
    ensures
        (final(state)@, r@) == key_effect(old(state)@, KeyPress { code: KeyCode::Other, control: false, alt: false, shift: false }, KeyCommand::CloseTab, visible_url_spec(old(state)@, resource_web_url(old(state).resource@, resource_kind(old(state).resource)))),
{
    let active = state.active_resource_tab;
    state.close_resource_tab(active);
    AppIntent::Nothing
}

fn key_close_settings(state: &mut AppState) -> (r: AppIntent)
    ensures
        (final(state)@, r@) == key_effect(old(state)@, KeyPress { code: KeyCode::Other, control: false, alt: false, shift: false }, KeyCommand::CloseSettings, visible_url_spec(old(state)@, resource_web_url(old(state).resource@, resource_kind(old(state).resource)))),
{
    state.close_settings();
    AppIntent::Nothing
}

fn key_cycle_theme(state: &mut AppState) -> (r: AppIntent)
    ensures
        (final(state)@, r@) == key_effect(old(state)@, KeyPress { code: KeyCode::Other, control: false, alt: false, shift: false }, KeyCommand::CycleTheme, visible_url_spec(old(state)@, resource_web_url(old(state).resource@, resource_kind(old(state).resource)))),
{
    if state.cycle_theme() { AppIntent::SaveSettings } else { AppIntent::Nothing }
}

fn key_cycle_symbols(state: &mut AppState) -> (r: AppIntent)
    ensures
        (final(state)@, r@) == key_effect(old(state)@, KeyPress { code: KeyCode::Other, control: false, alt: false, shift: false }, KeyCommand::CycleSymbols, visible_url_spec(old(state)@, resource_web_url(old(state).resource@, resource_kind(old(state).resource)))),
{
    if state.cycle_symbols() { AppIntent::SaveSettings } else { AppIntent::Nothing }
}

fn key_cycle_spacing(state: &mut AppState) -> (r: AppIntent)
    ensures
        (final(state)@, r@) == key_effect(old(state)@, KeyPress { code: KeyCode::Other, control: false, alt: false, shift: false }, KeyCommand::CycleSpacing, visible_url_spec(old(state)@, resource_web_url(old(state).resource@, resource_kind(old(state).resource)))),
{
    if state.cycle_spacing() { AppIntent::SaveSettings } else { AppIntent::Nothing }
}

fn key_cycle_width_mode(state: &mut AppState) -> (r: AppIntent)
    ensures
        (final(state)@, r@) == key_effect(old(state)@, KeyPress { code: KeyCode::Other, control: false, alt: false, shift: false }, KeyCommand::CycleWidthMode, visible_url_spec(old(state)@, resource_web_url(old(state).resource@, resource_kind(old(state).resource)))),
{
    if state.cycle_width_mode() { AppIntent::SaveSettings } else { AppIntent::Nothing }
}

fn key_cycle_scrollbar(state: &mut AppState) -> (r: AppIntent)
    ensures
        (final(state)@, r@) == key_effect(old(state)@, KeyPress { code: KeyCode::Other, control: false, alt: false, shift: false }, KeyCommand::CycleScrollbar, visible_url_spec(old(state)@, resource_web_url(old(state).resource@, resource_kind(old(state).resource)))),
{
    if state.cycle_scrollbar() { AppIntent::SaveSettings } else { AppIntent::Nothing }
}

fn run_view_command(state: &mut AppState, cmd: KeyCommand) -> (r: AppIntent)
    requires
        cmd is ToggleHelp || cmd is ToggleSettings || cmd is ToggleFeedOrder || cmd is ToggleExpansion
            || cmd is CloseTab || cmd is CloseSettings || cmd is CycleTheme || cmd is CycleSymbols
            || cmd is CycleSpacing || cmd is CycleWidthMode || cmd is CycleScrollbar,
    ensures
        (final(state)@, r@) == key_effect(old(state)@, KeyPress { code: KeyCode::Other, control: false, alt: false, shift: false }, cmd, visible_url_spec(old(state)@, resource_web_url(old(state).resource@, resource_kind(old(state).resource)))),
{
    match cmd {
        KeyCommand::ToggleHelp => key_toggle_help(state),
        KeyCommand::ToggleSettings => key_toggle_settings(state),
        KeyCommand::ToggleFeedOrder => key_toggle_feed_order(state),
        KeyCommand::ToggleExpansion => key_toggle_expansion(state),
        KeyCommand::CloseTab => key_close_tab(state),
        KeyCommand::CloseSettings => key_close_settings(state),
        KeyCommand::CycleTheme => key_cycle_theme(state),
        KeyCommand::CycleSymbols => key_cycle_symbols(state),
        KeyCommand::CycleSpacing => key_cycle_spacing(state),
        KeyCommand::CycleWidthMode => key_cycle_width_mode(state),
        _ => key_cycle_scrollbar(state),
    }
}

fn first_content_action(state: &AppState) -> (r: Option<HitTarget>)
    ensures
        match first_index(state@.hit_areas, acts_on_content()) {
            Some(i) => r is Some && r->0@ == state@.hit_areas[i].target,
            None => r is None,
        },
{
    let ghost p = acts_on_content();
    let mut i: usize = 0;
    while i < state.hit_areas.len()
        invariant
            i <= state@.hit_areas.len(),
            p == acts_on_content(),
            forall|j: int| 0 <= j < i ==> !p(#[trigger] state@.hit_areas[j]),
        decreases state.hit_areas.len() - i,
    {
        let area = &state.hit_areas[i];
        proof {
            assert(state@.hit_areas[i as int] == area@);
        }
        if area.target.is_content_action() {
            proof {
                lemma_first_index_is(state@.hit_areas, p, i as int);
            }
            return Some(area.target.deep_copy());
        }
        i = i + 1;
    }
    proof {
        lemma_first_index_none(state@.hit_areas, p);
    }
    None
}

fn numbered_tab_key(state: &mut AppState, ch: char) -> (r: AppIntent)
    ensures
        (final(state)@, r@) == key_effect(old(state)@, KeyPress { code: KeyCode::Other, control: false, alt: false, shift: false }, KeyCommand::NumberedTab(ch), visible_url_spec(old(state)@, resource_web_url(old(state).resource@, resource_kind(old(state).resource)))),
{
    let tabs = state.tabs();
    match numbered_tab(ch, tabs.as_slice()) {
        Some(tab) => state.set_tab(tab),
        None => {},
    }
    AppIntent::Nothing
}

fn next_resource_tab_key(state: &mut AppState) -> (r: AppIntent)
    ensures
        (final(state)@, r@) == key_effect(old(state)@, KeyPress { code: KeyCode::Other, control: false, alt: false, shift: false }, KeyCommand::NextResourceTab, visible_url_spec(old(state)@, resource_web_url(old(state).resource@, resource_kind(old(state).resource)))),
{
    state.next_resource_tab();
    AppIntent::Nothing
}

fn previous_resource_tab_key(state: &mut AppState) -> (r: AppIntent)
    ensures
        (final(state)@, r@) == key_effect(old(state)@, KeyPress { code: KeyCode::Other, control: false, alt: false, shift: false }, KeyCommand::PreviousResourceTab, visible_url_spec(old(state)@, resource_web_url(old(state).resource@, resource_kind(old(state).resource)))),
{
    state.previous_resource_tab();
    AppIntent::Nothing
}

fn next_tab_key(state: &mut AppState) -> (r: AppIntent)
    ensures
        (final(state)@, r@) == key_effect(old(state)@, KeyPress { code: KeyCode::Other, control: false, alt: false, shift: false }, KeyCommand::NextTab, visible_url_spec(old(state)@, resource_web_url(old(state).resource@, resource_kind(old(state).resource)))),
{
    state.next_tab();
    AppIntent::Nothing
}

fn previous_tab_key(state: &mut AppState) -> (r: AppIntent)
    ensures
        (final(state)@, r@) == key_effect(old(state)@, KeyPress { code: KeyCode::Other, control: false, alt: false, shift: false }, KeyCommand::PreviousTab, visible_url_spec(old(state)@, resource_web_url(old(state).resource@, resource_kind(old(state).resource)))),
{
    state.previous_tab();
    AppIntent::Nothing
}

fn activate_first_key(state: &mut AppState) -> (r: AppIntent)
    ensures
        (final(state)@, r@) == key_effect(old(state)@, KeyPress { code: KeyCode::Other, control: false, alt: false, shift: false }, KeyCommand::ActivateFirst, visible_url_spec(old(state)@, resource_web_url(old(state).resource@, resource_kind(old(state).resource)))),
{
    match first_content_action(state) {
        Some(target) => apply_target(state, target),
        None => AppIntent::Nothing,
    }
}

fn scroll_down_key(state: &mut AppState, n: u16) -> (r: AppIntent)
    ensures
        (final(state)@, r@) == key_effect(old(state)@, KeyPress { code: KeyCode::Other, control: false, alt: false, shift: false }, KeyCommand::ScrollDown(n), visible_url_spec(old(state)@, resource_web_url(old(state).resource@, resource_kind(old(state).resource)))),
{
    state.scroll_down(n);
    AppIntent::Nothing
}

fn scroll_up_key(state: &mut AppState, n: u16) -> (r: AppIntent)
    ensures
        (final(state)@, r@) == key_effect(old(state)@, KeyPress { code: KeyCode::Other, control: false, alt: false, shift: false }, KeyCommand::ScrollUp(n), visible_url_spec(old(state)@, resource_web_url(old(state).resource@, resource_kind(old(state).resource)))),
{
    state.scroll_up(n);
    AppIntent::Nothing
}

fn scroll_top_key(state: &mut AppState) -> (r: AppIntent)
    ensures
        (final(state)@, r@) == key_effect(old(state)@, KeyPress { code: KeyCode::Other, control: false, alt: false, shift: false }, KeyCommand::ScrollTop, visible_url_spec(old(state)@, resource_web_url(old(state).resource@, resource_kind(old(state).resource)))),
{
    state.scroll_to_top();
    AppIntent::Nothing
}

fn scroll_bottom_key(state: &mut AppState) -> (r: AppIntent)
    ensures
        (final(state)@, r@) == key_effect(old(state)@, KeyPress { code: KeyCode::Other, control: false, alt: false, shift: false }, KeyCommand::ScrollBottom, visible_url_spec(old(state)@, resource_web_url(old(state).resource@, resource_kind(old(state).resource)))),
{
    state.scroll_to_bottom();
    AppIntent::Nothing
}

fn toggle_body_key(state: &mut AppState) -> (r: AppIntent)
    ensures
        (final(state)@, r@) == key_effect(old(state)@, KeyPress { code: KeyCode::Other, control: false, alt: false, shift: false }, KeyCommand::ToggleBody, visible_url_spec(old(state)@, resource_web_url(old(state).resource@, resource_kind(old(state).resource)))),
{
    state.toggle_block(BlockId::Body);
    AppIntent::Nothing
}

fn run_move_command(state: &mut AppState, cmd: KeyCommand) -> (r: AppIntent)
    requires
        cmd is NumberedTab || cmd is NextResourceTab || cmd is PreviousResourceTab || cmd is NextTab
            || cmd is PreviousTab || cmd is ActivateFirst || cmd is ScrollDown || cmd is ScrollUp
            || cmd is ScrollTop || cmd is ScrollBottom || cmd is ToggleBody,
    ensures
        (final(state)@, r@) == key_effect(old(state)@, KeyPress { code: KeyCode::Other, control: false, alt: false, shift: false }, cmd, visible_url_spec(old(state)@, resource_web_url(old(state).resource@, resource_kind(old(state).resource)))),
{
    match cmd {
        KeyCommand::NumberedTab(ch) => numbered_tab_key(state, ch),
        KeyCommand::NextResourceTab => next_resource_tab_key(state),
        KeyCommand::PreviousResourceTab => previous_resource_tab_key(state),
        KeyCommand::NextTab => next_tab_key(state),
        KeyCommand::PreviousTab => previous_tab_key(state),
        KeyCommand::ActivateFirst => activate_first_key(state),
        KeyCommand::ScrollDown(n) => scroll_down_key(state, n),
        KeyCommand::ScrollUp(n) => scroll_up_key(state, n),
        KeyCommand::ScrollTop => scroll_top_key(state),
        KeyCommand::ScrollBottom => scroll_bottom_key(state),
        _ => toggle_body_key(state),
    }
}

/// Applies a key press (see `key_applied_spec`): the open quit question or
/// prompt takes it, else it is a shortcut of the main view. The action menu
/// is not part of this state and no fixed-width step size is set here, so
/// their keys change nothing.
#[verifier::rlimit(40)]
pub fn apply_key(state: &mut AppState, key: KeyPress) -> (r: AppIntent)
    ensures
        (final(state)@, r@) == key_applied_spec(
            old(state)@,
            key,
            visible_url_spec(old(state)@, resource_web_url(old(state).resource@, resource_kind(old(state).resource))),
        ),
{
    let cmd = key_command(state, key);
    match cmd {
        KeyCommand::ToggleHelp | KeyCommand::ToggleSettings | KeyCommand::ToggleFeedOrder
        | KeyCommand::ToggleExpansion | KeyCommand::CloseTab | KeyCommand::CloseSettings
        | KeyCommand::CycleTheme | KeyCommand::CycleSymbols | KeyCommand::CycleSpacing
        | KeyCommand::CycleWidthMode | KeyCommand::CycleScrollbar => run_view_command(state, cmd),
        KeyCommand::NumberedTab(_) | KeyCommand::NextResourceTab | KeyCommand::PreviousResourceTab
        | KeyCommand::NextTab | KeyCommand::PreviousTab | KeyCommand::ActivateFirst
        | KeyCommand::ScrollDown(_) | KeyCommand::ScrollUp(_) | KeyCommand::ScrollTop
        | KeyCommand::ScrollBottom | KeyCommand::ToggleBody => run_move_command(state, cmd),
        _ => run_prompt_command(state, key, cmd),
    }
}

/// A mouse event, as far as the interface tells them apart.
#[derive(Debug, Clone, Copy, PartialEq, Eq, Structural)]
pub enum MouseKind {
    ScrollDown,
    ScrollUp,
    /// The left button went down.
    LeftDown,
    /// The mouse moved with the left button held.
    LeftDrag,
    /// The left button went up.
    LeftUp,
    /// Any other mouse event.
    Other,
}

/// A mouse event at a cell of the terminal.
#[derive(Debug, Clone, Copy, PartialEq, Eq, Structural)]
pub struct MouseInput {
    pub kind: MouseKind,
    pub column: u16,
    pub row: u16,
}

/// An input the interface reacts to.
#[derive(Debug, Clone)]
pub enum AppEvent {
    Key(KeyPress),
    Mouse(MouseInput),
    Paste(String),
    Activate(HitTarget),
    Tick,
}

/// Whether a click area covers cell (`column`, `row`).
pub open spec fn covers(column: u16, row: u16) -> spec_fn(HitAreaView) -> bool {
    |a: HitAreaView| rect_contains(a.rect, column, row)
}

/// The state after dragging the scrollbar to `row` (see `drag_scrollbar`).
pub open spec fn dragged(s: AppStateView, row: u16) -> AppStateView {
    match s.scrollbar_drag {
        Some(d) => if s.scroll_limit == 0 || d.height == 0 {
            AppStateView { scroll: 0, ..s }
        } else {
            revealed(AppStateView { scroll: scrollbar_row_scroll(s.scroll_limit, d.top, d.height, row), ..s })
        },
        None => s,
    }
}

/// What a mouse event does: the wheel scrolls three lines unless a prompt
/// is open; a left click activates the first click area under it; dragging
/// moves the scrollbar, and releasing ends the drag.
pub open spec fn mouse_spec(s: AppStateView, m: MouseInput, url: Seq<char>) -> (AppStateView, IntentView) {
    match m.kind {
        MouseKind::ScrollDown => (mouse_scrolled(s, ScrollDirection::Down), IntentView::Nothing),
        MouseKind::ScrollUp => (mouse_scrolled(s, ScrollDirection::Up), IntentView::Nothing),
        MouseKind::LeftDown => match first_index(s.hit_areas, covers(m.column, m.row)) {
            Some(i) => target_applied_spec(s, s.hit_areas[i].target, url),
            None => (s, IntentView::Nothing),
        },
        MouseKind::LeftDrag => (dragged(s, m.row), IntentView::Nothing),
        MouseKind::LeftUp => (AppStateView { scrollbar_drag: None, ..s }, IntentView::Nothing),
        MouseKind::Other => (s, IntentView::Nothing),
    }
}

/// Which way the mouse wheel turned.
#[derive(Debug, Clone, Copy, PartialEq, Eq, Structural)]
pub enum ScrollDirection {
    Down,
    Up,
}

/// What a turn of the mouse wheel does: three lines of scrolling, unless a
/// reference prompt is open.
pub open spec fn mouse_scrolled(s: AppStateView, direction: ScrollDirection) -> AppStateView {
    if s.add_resource_prompt is Some || s.resource_link_prompt is Some {
        s
    } else {
        match direction {
            ScrollDirection::Down => scrolled_down(s, 3),
            ScrollDirection::Up => scrolled_up(s, 3),
        }
    }
}

/// Applies a turn of the mouse wheel (see `mouse_scrolled`).
pub fn apply_mouse_scroll(state: &mut AppState, direction: ScrollDirection)
    ensures
        final(state)@ == mouse_scrolled(old(state)@, direction),
{
    if state.add_resource_prompt.is_some() || state.resource_link_prompt.is_some() {
        return;
    }
    match direction {
        ScrollDirection::Down => state.scroll_down(3),
        ScrollDirection::Up => state.scroll_up(3),
    }
}

/// `t` with line breaks turned into spaces.
pub open spec fn single_line(t: Seq<char>) -> Seq<char> {
    t.map_values(|c: char| if c == '\n' || c == '\r' { ' ' } else { c })
}

/// What pasting `text` does: into an open reference prompt it adds the
/// text on one line, trimmed, and drops the prompt's error.
pub open spec fn paste_spec(s: AppStateView, text: Seq<char>) -> AppStateView {
    with_prompt_input(s, |t: Seq<char>| t + trim(single_line(text)))
}

/// What an event does (see `key_applied_spec`, `mouse_spec`, `paste_spec`
/// and `target_applied_spec`); a tick does nothing.
pub open spec fn event_spec(s: AppStateView, e: AppEvent, url: Seq<char>) -> (AppStateView, IntentView) {
    match e {
        AppEvent::Key(k) => key_applied_spec(s, k, url),
        AppEvent::Mouse(m) => mouse_spec(s, m, url),
        AppEvent::Paste(t) => (paste_spec(s, t@), IntentView::Nothing),
        AppEvent::Activate(t) => target_applied_spec(s, t@, url),
        AppEvent::Tick => (s, IntentView::Nothing),
    }
}

fn first_hit(state: &AppState, column: u16, row: u16) -> (r: Option<HitTarget>)
    ensures
        match first_index(state@.hit_areas, covers(column, row)) {
            Some(i) => r is Some && r->0@ == state@.hit_areas[i].target,
            None => r is None,
        },
{
    let r = hit_test(state.hit_areas.as_slice(), column, row);
    proof {
        let p = covers(column, row);
        assert(state.hit_areas@.len() == state@.hit_areas.len());
        assert forall|j: int| 0 <= j < state@.hit_areas.len() implies #[trigger] state@.hit_areas[j] == state.hit_areas@[j]@ by {}
        if r is Some {
            let t = r->0;
            {
                let i = choose|i: int| 0 <= i < state.hit_areas@.len() && rect_contains(#[trigger] state.hit_areas@[i].rect, column, row)
                    && t@ == state.hit_areas@[i].target@
                    && forall|j: int| 0 <= j < i ==> !rect_contains(#[trigger] state.hit_areas@[j].rect, column, row);
                assert(p(state@.hit_areas[i]));
                assert forall|j: int| 0 <= j < i implies !p(#[trigger] state@.hit_areas[j]) by {
                    assert(state@.hit_areas[j] == state.hit_areas@[j]@);
                }
                lemma_first_index_is(state@.hit_areas, p, i);
            }
        } else {
            assert forall|j: int| 0 <= j < state@.hit_areas.len() implies !p(#[trigger] state@.hit_areas[j]) by {
                assert(state@.hit_areas[j] == state.hit_areas@[j]@);
            }
            lemma_first_index_none(state@.hit_areas, p);
        }
    }
    r
}

/// Applies a mouse event (see `mouse_spec`).
pub fn apply_mouse(state: &mut AppState, mouse: MouseInput) -> (r: AppIntent)
    ensures
        (final(state)@, r@) == mouse_spec(
            old(state)@,
            mouse,
            visible_url_spec(old(state)@, resource_web_url(old(state).resource@, resource_kind(old(state).resource))),
        ),
{
    match mouse.kind {
        MouseKind::ScrollDown => {
            apply_mouse_scroll(state, ScrollDirection::Down);
            AppIntent::Nothing
        },
        MouseKind::ScrollUp => {
            apply_mouse_scroll(state, ScrollDirection::Up);
            AppIntent::Nothing
        },
        MouseKind::LeftDown => match first_hit(state, mouse.column, mouse.row) {
            Some(target) => apply_target(state, target),
            None => AppIntent::Nothing,
        },
        MouseKind::LeftDrag => {
            state.drag_scrollbar(mouse.row);
            AppIntent::Nothing
        },
        MouseKind::LeftUp => {
            state.end_scrollbar_drag();
            AppIntent::Nothing
        },
        MouseKind::Other => AppIntent::Nothing,
    }
}

fn single_line_of(text: &str) -> (s: String)
    ensures
        s@ == single_line(text@),
{
    let v = crate::text::chars_of(text);
    let mut out = String::new();
    let mut i: usize = 0;
    while i < v.len()
        invariant
            i <= v@.len(),
            v@ == text@,
            out@ == single_line(v@.subrange(0, i as int)),
        decreases v.len() - i,
    {
        let c = v[i];
        if c == '\n' || c == '\r' {
            out.push(' ');
        } else {
            out.push(c);
        }
        proof {
            assert(single_line(v@.subrange(0, i + 1)) =~= single_line(v@.subrange(0, i as int)).push(
                if c == '\n' || c == '\r' { ' ' } else { c },
            ));
        }
        i = i + 1;
    }
    proof {
        assert(v@.subrange(0, v@.len() as int) =~= v@);
    }
    out
}

/// Applies pasted text (see `paste_spec`).
pub fn apply_paste(state: &mut AppState, text: &str) -> (r: AppIntent)
    ensures
        r@ == IntentView::Nothing,
        final(state)@ == paste_spec(old(state)@, text@),
{
    let line = single_line_of(text);
    let trimmed = crate::text::trim_str(line.as_str());
    match state.add_resource_input_mut() {
        Some(input) => crate::text::push_str(input, trimmed.as_str()),
        None => {},
    }
    state.clear_add_resource_error();
    proof {
        assert(state@ == paste_spec(old(state)@, text@));
    }
    AppIntent::Nothing
}

/// Applies an event (see `event_spec`).
pub fn apply_event(state: &mut AppState, event: AppEvent) -> (r: AppIntent)
    ensures
        (final(state)@, r@) == event_spec(
            old(state)@,
            event,
            visible_url_spec(old(state)@, resource_web_url(old(state).resource@, resource_kind(old(state).resource))),
        ),
{
    match event {
        AppEvent::Key(key) => apply_key(state, key),
        AppEvent::Mouse(mouse) => apply_mouse(state, mouse),
        AppEvent::Paste(text) => apply_paste(state, text.as_str()),
        AppEvent::Activate(target) => apply_target(state, target),
        AppEvent::Tick => AppIntent::Nothing,
    }
}

} // verus!

//! The resource tabs and prompts of the interface: opening, switching,
//! closing and updating tabs, and the prompts that read references.
use vstd::prelude::*;

use crate::app::app_state::{
    first_index, lemma_first_index, lemma_first_index_is, lemma_first_index_none, opt_v, restore,
    scroll_reset, snapshot, AppState, AppStateView,
};
use crate::app::state::{
    fresh_tab, parse_resource_reference, reference_spec, AddPromptView, AddResourceMode,
    AddResourcePrompt, LinkPromptView, ResourceLinkPrompt, ResourceTabState, TabStateView,
};
use crate::domain::action::view_kind;
use crate::domain::copy::DeepCopy;
use crate::domain::resource::{opt_str, views, Resource, ResourceView};
use crate::domain::resource_id::{canonical_name_spec, ResourceId, ResourceIdError};
use crate::input::hit::HitAreaView;

verus! {

/// The state with the prompt that reads a reference open in `mode`: the
/// help and settings closed (and their scrolling reset when one was open),
/// click areas and drag dropped, the link prompt and quit question closed.
pub open spec fn with_add_prompt(s: AppStateView, mode: AddResourceMode) -> AppStateView {
    let t = if s.show_help || s.show_settings { scroll_reset(s) } else { s };
    AppStateView {
        hit_areas: Seq::empty(),
        scrollbar_drag: None,
        resource_link_prompt: None,
        quit_confirmation: false,
        add_resource_prompt: Some(AddPromptView { input: Seq::empty(), error: None, fallback_repo: s.resource.id, mode }),
        show_help: false,
        show_settings: false,
        ..t
    }
}

/// The label of a resource tab: its kind, number and title.
pub open spec fn tab_label_spec(r: ResourceView) -> Seq<char> {
    crate::domain::resource_id::kind_label(view_kind(r)) + " #"@ + crate::text::decimal(r.id.number as nat) + " "@ + r.title
}

/// The id of the active resource tab, or 0 when there is none.
pub open spec fn active_tab_id(s: AppStateView) -> u64 {
    if s.active_resource_tab < s.resource_tabs.len() {
        s.resource_tabs[s.active_resource_tab as int].id
    } else {
        0
    }
}

/// Whether a tab shows the resource named `name`.
pub open spec fn shows_named(name: Seq<char>) -> spec_fn(TabStateView) -> bool {
    |t: TabStateView| canonical_name_spec(t.resource.id) == name
}

/// Whether a tab has id `id`.
pub open spec fn has_tab_id(id: u64) -> spec_fn(TabStateView) -> bool {
    |t: TabStateView| t.id == id
}

pub open spec fn sat_inc(n: u64) -> u64 {
    if n == u64::MAX { n } else { (n + 1) as u64 }
}

/// The state after a loading request ends.
pub open spec fn loading_finished(s: AppStateView) -> AppStateView {
    AppStateView { loading: None, refresh_requested: false, ..s }
}

/// Whether a message only says that a fetch is still running.
pub open spec fn is_transient(m: Option<Seq<char>>) -> bool {
    match m {
        Some(t) => crate::text::starts_with(t, "still loading: "@),
        None => false,
    }
}

pub open spec fn without_transient(m: Option<Seq<char>>) -> Option<Seq<char>> {
    if is_transient(m) { None } else { m }
}

/// The state with every "still loading" message dropped: the prompt's
/// error, the status, and the status saved in each tab.
pub open spec fn transient_cleared(s: AppStateView) -> AppStateView {
    AppStateView {
        add_resource_prompt: match s.add_resource_prompt {
            Some(p) => Some(AddPromptView { error: without_transient(p.error), ..p }),
            None => None,
        },
        status_message: without_transient(s.status_message),
        resource_tabs: s.resource_tabs.map_values(|t: TabStateView| TabStateView { status_message: without_transient(t.status_message), ..t }),
        ..s
    }
}

/// The state with a fetch begun from tab `id` dropped, with its "still
/// loading" messages.
pub open spec fn dropped_loading_of(s: AppStateView, id: u64) -> AppStateView {
    match s.loading {
        Some(l) => if l.origin_tab_id == id { transient_cleared(loading_finished(s)) } else { s },
        None => s,
    }
}

/// The tab shown after tab `index` is removed while tab `active` was
/// shown, among `len` remaining tabs: the one before it when it was shown,
/// else the one that was shown.
pub open spec fn next_after_close(index: int, active: int, len: int) -> int {
    if index == active {
        if index == 0 { 0 } else { if index - 1 < len - 1 { index - 1 } else { len - 1 } }
    } else if index < active {
        if active == 0 { 0 } else { active - 1 }
    } else {
        active
    }
}

/// The state with tab `index` removed and the tab bar scroll kept within
/// the remaining tabs.
pub open spec fn tab_removed(s: AppStateView, index: int) -> AppStateView {
    let tabs = s.resource_tabs.remove(index);
    AppStateView {
        resource_tabs: tabs,
        resource_tab_scroll: if (s.resource_tab_scroll as int) < tabs.len() - 1 { s.resource_tab_scroll } else { (tabs.len() - 1) as usize },
        ..s
    }
}

/// The state after tab `index` closes: a fetch begun from it is dropped
/// with its "still loading" messages, the view is saved, the tab removed,
/// and its neighbour before it (or the tab that was active) shown.
pub open spec fn closed_tab(s: AppStateView, index: int) -> AppStateView {
    let s2 = snapshot(dropped_loading_of(s, s.resource_tabs[index].id));
    restore(
        tab_removed(s2, index),
        next_after_close(index, s2.active_resource_tab as int, s2.resource_tabs.len() - 1),
    )
}

fn emptied_or_closed(p: AddResourcePrompt) -> (r: Option<AddResourcePrompt>)
    ensures
        opt_v(r) == if p@.input.len() == 0 {
            None
        } else {
            Some(AddPromptView { input: Seq::empty(), error: None, ..p@ })
        },
{
    if p.input.as_str().is_empty() {
        None
    } else {
        let q = AddResourcePrompt { input: String::new(), error: None, fallback_repo: p.fallback_repo, mode: p.mode };
        proof {
            assert(q@.input =~= Seq::<char>::empty());
        }
        Some(q)
    }
}

/// The state after `r` is opened in a tab: the tab already showing it is
/// given the new copy and shown, else a new tab is added and shown.
pub open spec fn opened_in_tab(s: AppStateView, r: ResourceView) -> AppStateView {
    let s1 = snapshot(s);
    match first_index(s1.resource_tabs, shows_named(canonical_name_spec(r.id))) {
        Some(i) => restore(
            AppStateView { resource_tabs: s1.resource_tabs.update(i, TabStateView { resource: r, ..s1.resource_tabs[i] }), ..s1 },
            i,
        ),
        None => {
            let id = s1.next_resource_tab_id;
            let s2 = AppStateView {
                resource_tabs: s1.resource_tabs.push(fresh_tab(id, r)),
                next_resource_tab_id: sat_inc(id),
                ..s1
            };
            restore(s2, s2.resource_tabs.len() - 1)
        },
    }
}

/// Saving the active tab's view keeps every tab's id, so a tab is found
/// by id at the same place before and after.
pub proof fn lemma_snapshot_keeps_ids(s: AppStateView, id: u64)
    ensures
        first_index(snapshot(s).resource_tabs, has_tab_id(id)) == first_index(s.resource_tabs, has_tab_id(id)),
        snapshot(s).resource_tabs.len() == s.resource_tabs.len(),
        forall|j: int| 0 <= j < s.resource_tabs.len() ==> (#[trigger] snapshot(s).resource_tabs[j]).id == s.resource_tabs[j].id,
{
    let a = snapshot(s).resource_tabs;
    let b = s.resource_tabs;
    let p = has_tab_id(id);
    lemma_first_index(a, p);
    lemma_first_index(b, p);
    assert forall|j: int| 0 <= j < b.len() implies p(#[trigger] a[j]) == p(b[j]) by {}
    match first_index(b, p) {
        Some(i) => lemma_first_index_is(a, p, i),
        None => lemma_first_index_none(a, p),
    }
}

/// The state with tab `tab_id` shown for an update, the shown tab's view
/// saved first; `None` when no tab has that id.
pub open spec fn tab_entered(s: AppStateView, tab_id: u64) -> Option<AppStateView> {
    let s1 = snapshot(s);
    match first_index(s1.resource_tabs, has_tab_id(tab_id)) {
        Some(i) => Some(restore(s1, i)),
        None => None,
    }
}

/// The state after an update of tab `tab_id`: its view saved, and the tab
/// `previous` shown again when it was another one and still exists.
pub open spec fn tab_left(s: AppStateView, tab_id: u64, previous: u64) -> AppStateView {
    let s1 = snapshot(s);
    if previous == tab_id {
        s1
    } else {
        match first_index(s1.resource_tabs, has_tab_id(previous)) {
            Some(j) => restore(s1, j),
            None => s1,
        }
    }
}

/// The resource tab after (or before) the shown one, wrapping around.
pub open spec fn cycled_tab_index(s: AppStateView, forward: bool) -> int {
    let n = s.resource_tabs.len() as int;
    let a = (s.active_resource_tab as int) % n;
    if forward {
        if a + 1 == n { 0 } else { a + 1 }
    } else {
        if a == 0 { n - 1 } else { a - 1 }
    }
}

/// The state with the next (or previous) resource tab shown, wrapping
/// around; unchanged with a single tab.
pub open spec fn tabs_cycled(s: AppStateView, forward: bool) -> AppStateView {
    if s.resource_tabs.len() == 0 {
        s
    } else {
        let i = cycled_tab_index(s, forward);
        if i != s.active_resource_tab { restore(snapshot(s), i) } else { s }
    }
}

impl AppState {
    fn open_add_resource_prompt_with_mode(&mut self, mode: AddResourceMode)
        ensures
            final(self)@ == with_add_prompt(old(self)@, mode),
    {
        if self.show_help || self.show_settings {
            self.scroll = 0;
            self.scroll_limit = u16::MAX;
        }
        self.hit_areas = Vec::new();
        self.scrollbar_drag = None;
        self.resource_link_prompt = None;
        self.quit_confirmation = false;
        self.add_resource_prompt = Some(AddResourcePrompt {
            input: String::new(),
            error: None,
            fallback_repo: self.resource.id.deep_copy(),
            mode,
        });
        self.show_help = false;
        self.show_settings = false;
        proof {
            assert(self@.hit_areas =~= Seq::<HitAreaView>::empty());
            assert(self@ == with_add_prompt(old(self)@, mode));
        }
    }

    /// Opens the prompt for a reference to open in a new tab (see `with_add_prompt`).
    pub fn open_add_resource_prompt(&mut self)
        ensures
            final(self)@ == with_add_prompt(old(self)@, AddResourceMode::NewTab),
    {
        self.open_add_resource_prompt_with_mode(AddResourceMode::NewTab);
    }

    /// Opens the prompt for a reference to show in place of the current one.
    pub fn open_replace_resource_prompt(&mut self)
        ensures
            final(self)@ == with_add_prompt(old(self)@, AddResourceMode::ReplaceCurrent),
    {
        self.open_add_resource_prompt_with_mode(AddResourceMode::ReplaceCurrent);
    }

    /// Closes the reference prompt.
    pub fn close_add_resource_prompt(&mut self)
        ensures
            final(self)@ == (AppStateView { add_resource_prompt: None, ..old(self)@ }),
    {
        self.add_resource_prompt = None;
    }

    /// Empties the reference prompt's input and error, or closes the
    /// prompt when its input is already empty.
    pub fn clear_add_resource_input_or_close(&mut self)
        ensures
            final(self)@ == match old(self)@.add_resource_prompt {
                None => old(self)@,
                Some(p) => if p.input.len() == 0 {
                    AppStateView { add_resource_prompt: None, ..old(self)@ }
                } else {
                    AppStateView {
                        add_resource_prompt: Some(AddPromptView { input: Seq::empty(), error: None, ..p }),
                        ..old(self)@
                    }
                },
            },
    {
        let prompt = self.add_resource_prompt.take();
        self.add_resource_prompt = match prompt {
            None => None,
            Some(p) => emptied_or_closed(p),
        };
    }

    /// Opens the prompt offered on a link to resource `id`, closing the
    /// other prompts and overlays and dropping click areas and drag.
    pub fn open_resource_link_prompt(&mut self, id: ResourceId, url: Option<String>)
        ensures
            final(self)@ == (AppStateView {
                hit_areas: Seq::empty(),
                scrollbar_drag: None,
                add_resource_prompt: None,
                quit_confirmation: false,
                resource_link_prompt: Some(LinkPromptView { id: id@, url: opt_str(url) }),
                show_help: false,
                show_settings: false,
                ..old(self)@
            }),
    {
        self.hit_areas = Vec::new();
        self.scrollbar_drag = None;
        self.add_resource_prompt = None;
        self.quit_confirmation = false;
        self.resource_link_prompt = Some(ResourceLinkPrompt { id, url });
        self.show_help = false;
        self.show_settings = false;
        proof {
            assert(self@.hit_areas =~= Seq::<HitAreaView>::empty());
        }
    }

    /// Closes the link prompt.
    pub fn close_resource_link_prompt(&mut self)
        ensures
            final(self)@ == (AppStateView { resource_link_prompt: None, ..old(self)@ }),
    {
        self.resource_link_prompt = None;
    }

    /// Asks whether to quit, closing every prompt and overlay.
    pub fn request_quit_confirmation(&mut self)
        ensures
            final(self)@ == (AppStateView {
                hit_areas: Seq::empty(),
                scrollbar_drag: None,
                add_resource_prompt: None,
                resource_link_prompt: None,
                show_help: false,
                show_settings: false,
                quit_confirmation: true,
                ..old(self)@
            }),
    {
        self.hit_areas = Vec::new();
        self.scrollbar_drag = None;
        self.add_resource_prompt = None;
        self.resource_link_prompt = None;
        self.show_help = false;
        self.show_settings = false;
        self.quit_confirmation = true;
        proof {
            assert(self@.hit_areas =~= Seq::<HitAreaView>::empty());
        }
    }

    /// Drops the quit question.
    pub fn close_quit_confirmation(&mut self)
        ensures
            final(self)@ == (AppStateView { quit_confirmation: false, ..old(self)@ }),
    {
        self.quit_confirmation = false;
    }

    /// The resource the link prompt is open on.
    pub fn resource_link_prompt_target(&self) -> (r: Option<ResourceId>)
        ensures
            opt_v(r) == match self@.resource_link_prompt {
                Some(p) => Some(p.id),
                None => None,
            },
    {
        match &self.resource_link_prompt {
            Some(prompt) => Some(prompt.id.deep_copy()),
            None => None,
        }
    }

    /// The text typed into the reference prompt, for editing, if the prompt
    /// is open; what is written through it becomes the prompt's input.
    pub fn add_resource_input_mut(&mut self) -> (r: Option<&mut String>)
        ensures
            old(self).add_resource_prompt is None ==> r is None && *final(self) == *old(self),
            old(self).add_resource_prompt is Some ==> r is Some && *r->0 == old(self).add_resource_prompt->0.input
                && final(self)@ == (AppStateView {
                    add_resource_prompt: Some(AddPromptView { input: (*final(r->0))@, ..old(self)@.add_resource_prompt->0 }),
                    ..old(self)@
                }),
    {
        match &mut self.add_resource_prompt {
            Some(prompt) => Some(&mut prompt.input),
            None => None,
        }
    }

    /// Sets the reference prompt's error, if the prompt is open.
    pub fn set_add_resource_error(&mut self, error: String)
        ensures
            final(self)@ == match old(self)@.add_resource_prompt {
                Some(p) => AppStateView { add_resource_prompt: Some(AddPromptView { error: Some(error@), ..p }), ..old(self)@ },
                None => old(self)@,
            },
    {
        match self.add_resource_prompt.take() {
            Some(prompt) => {
                self.add_resource_prompt = Some(AddResourcePrompt { error: Some(error), ..prompt });
            },
            None => {},
        }
    }

    /// Drops the reference prompt's error, if the prompt is open.
    pub fn clear_add_resource_error(&mut self)
        ensures
            final(self)@ == match old(self)@.add_resource_prompt {
                Some(p) => AppStateView { add_resource_prompt: Some(AddPromptView { error: None, ..p }), ..old(self)@ },
                None => old(self)@,
            },
    {
        match self.add_resource_prompt.take() {
            Some(prompt) => {
                self.add_resource_prompt = Some(AddResourcePrompt { error: None, ..prompt });
            },
            None => {},
        }
    }

    /// Reads the reference prompt's input, trimmed, against the repository
    /// the prompt was opened on (the shown one when no prompt is open).
    pub fn parse_add_resource_input(&self) -> (r: Result<ResourceId, ResourceIdError>)
        ensures
            crate::domain::resource_id::id_result_view(r) == match self@.add_resource_prompt {
                Some(p) => reference_spec(crate::text::trim(p.input), p.fallback_repo),
                None => reference_spec(Seq::empty(), self@.resource.id),
            },
    {
        match &self.add_resource_prompt {
            Some(prompt) => {
                let input = crate::text::trim_str(prompt.input.as_str());
                parse_resource_reference(input.as_str(), &prompt.fallback_repo)
            },
            None => {
                let r = parse_resource_reference("", &self.resource.id);
                proof {
                    reveal_strlit("");
                    assert(""@ =~= Seq::<char>::empty());
                }
                r
            },
        }
    }

    /// The label of tab `index`, if there is one (see `tab_label_spec`).
    pub fn active_resource_tab_label(&self, index: usize) -> (r: Option<String>)
        ensures
            opt_str(r) == if (index as int) < self@.resource_tabs.len() {
                Some(tab_label_spec(self@.resource_tabs[index as int].resource))
            } else {
                None
            },
    {
        if index >= self.resource_tabs.len() {
            return None;
        }
        let resource = &self.resource_tabs[index].resource;
        let mut label = crate::text::owned(resource.kind().label());
        crate::text::push_str(&mut label, " #");
        crate::text::push_u64(&mut label, resource.id.number);
        crate::text::push_str(&mut label, " ");
        crate::text::push_str(&mut label, resource.title.as_str());
        Some(label)
    }

    /// The id of the active tab (see `active_tab_id`).
    pub fn active_resource_tab_id(&self) -> (id: u64)
        ensures
            id == active_tab_id(self@),
    {
        if self.active_resource_tab < self.resource_tabs.len() {
            self.resource_tabs[self.active_resource_tab].id
        } else {
            0
        }
    }

    /// Shows tab `index`, saving the current one's view; nothing when that
    /// tab does not exist or is already shown. Says whether it switched.
    pub fn switch_resource_tab(&mut self, index: usize) -> (switched: bool)
        ensures
            switched == ((index as int) < old(self)@.resource_tabs.len() && index != old(self)@.active_resource_tab),
            final(self)@ == if switched { restore(snapshot(old(self)@), index as int) } else { old(self)@ },
    {
        if index >= self.resource_tabs.len() || index == self.active_resource_tab {
            return false;
        }
        self.snapshot_active_resource_tab();
        self.restore_resource_tab(index);
        true
    }

    /// Scrolls the tab bar one tab back, if it can. Says whether it moved.
    pub fn scroll_resource_tabs_previous(&mut self) -> (moved: bool)
        ensures
            moved == (old(self)@.resource_tab_scroll > 0),
            final(self)@ == (AppStateView {
                resource_tab_scroll: if moved { (old(self)@.resource_tab_scroll - 1) as usize } else { 0 },
                ..old(self)@
            }),
    {
        let previous = self.resource_tab_scroll;
        self.resource_tab_scroll = self.resource_tab_scroll.saturating_sub(1);
        self.resource_tab_scroll != previous
    }

    /// Scrolls the tab bar one tab on, no further than the last tab. Says
    /// whether it moved.
    pub fn scroll_resource_tabs_next(&mut self) -> (moved: bool)
        ensures
            ({
                let last = if old(self)@.resource_tabs.len() == 0 { 0 } else { old(self)@.resource_tabs.len() - 1 };
                let stepped = if old(self)@.resource_tab_scroll == usize::MAX { usize::MAX as int } else { old(self)@.resource_tab_scroll + 1 };
                let next = if stepped < last { stepped } else { last };
                &&& final(self)@ == (AppStateView { resource_tab_scroll: next as usize, ..old(self)@ })
                &&& moved == (next != old(self)@.resource_tab_scroll)
            }),
    {
        let previous = self.resource_tab_scroll;
        let stepped = self.resource_tab_scroll.saturating_add(1);
        let last = self.resource_tabs.len().saturating_sub(1);
        self.resource_tab_scroll = if stepped < last { stepped } else { last };
        self.resource_tab_scroll != previous
    }

    fn finish_loading_inner(&mut self)
        ensures
            final(self)@ == loading_finished(old(self)@),
    {
        self.loading = None;
        self.refresh_requested = false;
    }

    /// Ends the loading request.
    pub fn finish_loading(&mut self)
        ensures
            final(self)@ == loading_finished(old(self)@),
    {
        self.finish_loading_inner();
    }

    /// Drops every "still loading" message (see `transient_cleared`).
    pub fn clear_transient_loading_status_messages(&mut self)
        ensures
            final(self)@ == transient_cleared(old(self)@),
    {
        let prompt = self.add_resource_prompt.take();
        self.add_resource_prompt = cleared_prompt(prompt);
        if is_transient_message(&self.status_message) {
            self.status_message = None;
        }
        let mut tabs: Vec<ResourceTabState> = Vec::new();
        std::mem::swap(&mut tabs, &mut self.resource_tabs);
        self.resource_tabs = cleared_tabs(tabs);
        proof {
            assert(self@ == transient_cleared(old(self)@));
        }
    }

    fn drop_loading_of(&mut self, tab_id: u64)
        ensures
            final(self)@ == dropped_loading_of(old(self)@, tab_id),
    {
        let origin = match &self.loading {
            Some(loading) => loading.origin_tab_id == tab_id,
            None => false,
        };
        if origin {
            self.finish_loading();
            self.clear_transient_loading_status_messages();
        }
    }

    fn remove_tab(&mut self, index: usize) -> (next: usize)
        requires
            1 < old(self)@.resource_tabs.len(),
            (index as int) < old(self)@.resource_tabs.len(),
        ensures
            final(self)@ == tab_removed(old(self)@, index as int),
            next as int == next_after_close(
                index as int,
                old(self)@.active_resource_tab as int,
                old(self)@.resource_tabs.len() - 1,
            ),
    {
        let ghost s2 = self@;
        let _ = self.resource_tabs.remove(index);
        let len = self.resource_tabs.len();
        let next = if index == self.active_resource_tab {
            let before = index.saturating_sub(1);
            if before < len - 1 { before } else { len - 1 }
        } else if index < self.active_resource_tab {
            self.active_resource_tab.saturating_sub(1)
        } else {
            self.active_resource_tab
        };
        self.resource_tab_scroll = if self.resource_tab_scroll < len - 1 { self.resource_tab_scroll } else { len - 1 };
        proof {
            assert(views(self.resource_tabs@) =~= s2.resource_tabs.remove(index as int));
        }
        next
    }

    /// Closes tab `index` (see `closed_tab`); the last tab stays open.
    /// Says whether it closed.
    pub fn close_resource_tab(&mut self, index: usize) -> (closed: bool)
        ensures
            closed == (old(self)@.resource_tabs.len() > 1 && (index as int) < old(self)@.resource_tabs.len()),
            final(self)@ == if closed { closed_tab(old(self)@, index as int) } else { old(self)@ },
    {
        if self.resource_tabs.len() <= 1 || index >= self.resource_tabs.len() {
            return false;
        }
        let closing_tab_id = self.resource_tabs[index].id;
        self.drop_loading_of(closing_tab_id);
        self.snapshot_active_resource_tab();
        let next = self.remove_tab(index);
        self.restore_resource_tab(next);
        true
    }

    fn allocate_resource_tab_id(&mut self) -> (id: u64)
        ensures
            id == old(self)@.next_resource_tab_id,
            final(self)@ == (AppStateView { next_resource_tab_id: sat_inc(id), ..old(self)@ }),
    {
        let id = self.next_resource_tab_id;
        self.next_resource_tab_id = self.next_resource_tab_id.saturating_add(1);
        id
    }

    pub(crate) fn position_named(&self, name: &String) -> (r: Option<usize>)
        ensures
            match first_index(self@.resource_tabs, shows_named(name@)) {
                Some(i) => 0 <= i < self@.resource_tabs.len() && r is Some && r->0 == i,
                None => r is None,
            },
            r is Some ==> (r->0 as int) < self@.resource_tabs.len(),
    {
        let ghost p = shows_named(name@);
        let mut i: usize = 0;
        while i < self.resource_tabs.len()
            invariant
                i <= self@.resource_tabs.len(),
                p == shows_named(name@),
                forall|j: int| 0 <= j < i ==> !p(#[trigger] self@.resource_tabs[j]),
            decreases self.resource_tabs.len() - i,
        {
            let c = self.resource_tabs[i].resource.id.canonical_name();
            proof {
                assert(self@.resource_tabs[i as int] == self.resource_tabs@[i as int]@);
            }
            let same = c == *name;
            proof {
                assert(c@ == canonical_name_spec(self@.resource_tabs[i as int].resource.id));
                assert(same == (c@ == name@));
            }
            if same {
                proof {
                    assert(p(self@.resource_tabs[i as int]));
                    lemma_first_index_is(self@.resource_tabs, p, i as int);
                }
                return Some(i);
            }
            proof {
                assert(!p(self@.resource_tabs[i as int]));
            }
            i = i + 1;
        }
        proof {
            lemma_first_index_none(self@.resource_tabs, p);
        }
        None
    }

    /// Opens `resource` in a tab (see `opened_in_tab`).
    pub fn open_resource_in_tab(&mut self, resource: Resource)
        ensures
            final(self)@ == opened_in_tab(old(self)@, resource@),
    {
        self.snapshot_active_resource_tab();
        let canonical = resource.id.canonical_name();
        match self.position_named(&canonical) {
            Some(index) => {
                let ghost s1 = self@;
                let mut tab = self.resource_tabs[index].deep_copy();
                tab.resource = resource;
                self.resource_tabs.set(index, tab);
                proof {
                    assert(views(self.resource_tabs@) =~= s1.resource_tabs.update(
                        index as int,
                        TabStateView { resource: resource@, ..s1.resource_tabs[index as int] },
                    ));
                    assert(self@ == AppStateView {
                        resource_tabs: s1.resource_tabs.update(
                            index as int,
                            TabStateView { resource: resource@, ..s1.resource_tabs[index as int] },
                        ),
                        ..s1
                    });
                }
                self.restore_resource_tab(index);
            },
            None => {
                let tab_id = self.allocate_resource_tab_id();
                let ghost s2 = self@;
                self.resource_tabs.push(ResourceTabState::new(tab_id, resource));
                proof {
                    assert(views(self.resource_tabs@) =~= s2.resource_tabs.push(fresh_tab(tab_id, resource@)));
                    assert(self@ == AppStateView { resource_tabs: s2.resource_tabs.push(fresh_tab(tab_id, resource@)), ..s2 });
                }
                let last = self.resource_tabs.len() - 1;
                self.restore_resource_tab(last);
            },
        }
    }

    /// Shows the tab that shows resource `id`, if one does; says whether one does.
    pub fn focus_resource_tab(&mut self, id: &ResourceId) -> (found: bool)
        ensures
            match first_index(old(self)@.resource_tabs, shows_named(canonical_name_spec(id@))) {
                Some(i) => found && final(self)@ == if i == old(self)@.active_resource_tab {
                    old(self)@
                } else {
                    restore(snapshot(old(self)@), i)
                },
                None => !found && final(self)@ == old(self)@,
            },
    {
        let canonical = id.canonical_name();
        let found = self.position_named(&canonical);
        proof {
            assert(canonical@ == canonical_name_spec(id@));
            lemma_first_index(old(self)@.resource_tabs, shows_named(canonical_name_spec(id@)));
        }
        match found {
            None => false,
            Some(index) => {
                if index == self.active_resource_tab {
                    return true;
                }
                self.switch_resource_tab(index);
                true
            },
        }
    }

    fn position_of_tab_id(&self, tab_id: u64) -> (r: Option<usize>)
        ensures
            match first_index(self@.resource_tabs, has_tab_id(tab_id)) {
                Some(i) => 0 <= i < self@.resource_tabs.len() && r is Some && r->0 == i,
                None => r is None,
            },
            r is Some ==> (r->0 as int) < self@.resource_tabs.len(),
    {
        let ghost p = has_tab_id(tab_id);
        let mut i: usize = 0;
        while i < self.resource_tabs.len()
            invariant
                i <= self@.resource_tabs.len(),
                p == has_tab_id(tab_id),
                forall|j: int| 0 <= j < i ==> !p(#[trigger] self@.resource_tabs[j]),
            decreases self.resource_tabs.len() - i,
        {
            proof {
                assert(self@.resource_tabs[i as int] == self.resource_tabs@[i as int]@);
            }
            if self.resource_tabs[i].id == tab_id {
                proof {
                    assert(p(self@.resource_tabs[i as int]));
                    lemma_first_index_is(self@.resource_tabs, p, i as int);
                }
                return Some(i);
            }
            proof {
                assert(!p(self@.resource_tabs[i as int]));
            }
            i = i + 1;
        }
        proof {
            lemma_first_index_none(self@.resource_tabs, p);
        }
        None
    }

    /// Shows the next resource tab, after the last the first (see `tabs_cycled`).
    pub fn next_resource_tab(&mut self)
        ensures
            final(self)@ == tabs_cycled(old(self)@, true),
    {
        let n = self.resource_tabs.len();
        if n == 0 {
            return;
        }
        let a = self.active_resource_tab % n;
        let next = if a + 1 == n { 0 } else { a + 1 };
        self.switch_resource_tab(next);
    }

    /// Shows the previous resource tab, before the first the last (see `tabs_cycled`).
    pub fn previous_resource_tab(&mut self)
        ensures
            final(self)@ == tabs_cycled(old(self)@, false),
    {
        let n = self.resource_tabs.len();
        if n == 0 {
            return;
        }
        let a = self.active_resource_tab % n;
        let previous = if a == 0 { n - 1 } else { a - 1 };
        self.switch_resource_tab(previous);
    }

    /// Shows tab `tab_id` for an update (see `tab_entered`); gives the id of
    /// the tab shown before, or `None`, with only the view saved, when no
    /// tab has that id.
    pub fn enter_resource_tab(&mut self, tab_id: u64) -> (previous: Option<u64>)
        ensures
            match tab_entered(old(self)@, tab_id) {
                Some(t) => previous == Some(active_tab_id(old(self)@)) && final(self)@ == t,
                None => previous is None && final(self)@ == snapshot(old(self)@),
            },
    {
        let previous_tab_id = self.active_resource_tab_id();
        proof {
            lemma_snapshot_keeps_ids(old(self)@, tab_id);
        }
        self.snapshot_active_resource_tab();
        match self.position_of_tab_id(tab_id) {
            Some(i) => {
                self.restore_resource_tab(i);
                Some(previous_tab_id)
            },
            None => None,
        }
    }

    /// Ends an update of tab `tab_id` begun when tab `previous` was shown
    /// (see `tab_left`).
    pub fn leave_resource_tab(&mut self, tab_id: u64, previous: u64)
        ensures
            final(self)@ == tab_left(old(self)@, tab_id, previous),
    {
        proof {
            lemma_snapshot_keeps_ids(old(self)@, previous);
        }
        self.snapshot_active_resource_tab();
        if previous != tab_id {
            match self.position_of_tab_id(previous) {
                Some(j) => self.restore_resource_tab(j),
                None => {},
            }
        }
    }

    /// Runs `apply` with tab `tab_id` shown, then shows again the tab that
    /// was shown before. Says whether that tab exists; when it does not,
    /// only the active tab's view is saved and `apply` does not run.
    pub fn apply_to_resource_tab<F: FnOnce(&mut AppState)>(&mut self, tab_id: u64, apply: F) -> (found: bool)
        requires
            forall|s: &mut AppState| apply.requires((s,)),
        ensures
            found == (first_index(old(self)@.resource_tabs, has_tab_id(tab_id)) is Some),
            !found ==> final(self)@ == snapshot(old(self)@),
    {
        let previous_tab_id = self.active_resource_tab_id();
        proof {
            lemma_snapshot_keeps_ids(old(self)@, tab_id);
        }
        self.snapshot_active_resource_tab();
        let target_index = match self.position_of_tab_id(tab_id) {
            Some(i) => i,
            None => {
                return false;
            },
        };
        self.restore_resource_tab(target_index);
        apply(self);
        self.snapshot_active_resource_tab();
        if previous_tab_id != tab_id {
            match self.position_of_tab_id(previous_tab_id) {
                Some(previous_index) => self.restore_resource_tab(previous_index),
                None => {},
            }
        }
        true
    }
}

fn is_transient_message(m: &Option<String>) -> (r: bool)
    ensures
        r == is_transient(opt_str(*m)),
{
    match m {
        Some(t) => str_starts_with(t.as_str(), "still loading: "),
        None => false,
    }
}

fn cleared_prompt(p: Option<AddResourcePrompt>) -> (r: Option<AddResourcePrompt>)
    ensures
        opt_v(r) == match opt_v(p) {
            Some(q) => Some(AddPromptView { error: without_transient(q.error), ..q }),
            None => None,
        },
{
    match p {
        Some(prompt) => {
            if is_transient_message(&prompt.error) {
                Some(AddResourcePrompt { error: None, ..prompt })
            } else {
                Some(prompt)
            }
        },
        None => None,
    }
}

fn cleared_tabs(tabs: Vec<ResourceTabState>) -> (r: Vec<ResourceTabState>)
    ensures
        views(r@) == views(tabs@).map_values(|t: TabStateView| TabStateView { status_message: without_transient(t.status_message), ..t }),
{
    let ghost olds = views(tabs@);
    let ghost f = |t: TabStateView| TabStateView { status_message: without_transient(t.status_message), ..t };
    let mut out: Vec<ResourceTabState> = Vec::new();
    let mut i: usize = 0;
    while i < tabs.len()
        invariant
            i <= tabs@.len(),
            olds == views(tabs@),
            f == (|t: TabStateView| TabStateView { status_message: without_transient(t.status_message), ..t }),
            views(out@) == olds.take(i as int).map_values(f),
        decreases tabs.len() - i,
    {
        let mut tab = tabs[i].deep_copy();
        if is_transient_message(&tab.status_message) {
            tab.status_message = None;
        }
        let ghost prior = views(out@);
        proof {
            assert(tab@ == f(olds[i as int]));
        }
        out.push(tab);
        proof {
            assert(views(out@) =~= prior.push(f(olds[i as int])));
            assert(olds.take(i + 1).map_values(f) =~= olds.take(i as int).map_values(f).push(f(olds[i as int])));
        }
        i = i + 1;
    }
    proof {
        assert(olds.take(olds.len() as int) =~= olds);
    }
    out
}

/// Whether `s` starts with `prefix`.
pub fn str_starts_with(s: &str, prefix: &str) -> (r: bool)
    ensures
        r == crate::text::starts_with(s@, prefix@),
{
    let a = crate::text::chars_of(s);
    let b = crate::text::chars_of(prefix);
    crate::text::chars_start_with(a.as_slice(), b.as_slice())
}

} // verus!

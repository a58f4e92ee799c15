//! The view of the shown resource: its detail tab, the expanded blocks,
//! focusing linked activity, replacing and refreshing the resource, the
//! history and the loading request.
use vstd::prelude::*;

use crate::app::app_state::{
    first_index, lemma_first_index, lemma_first_index_is, lemma_first_index_none, opt_v, restore,
    scroll_reset, shown_tabs, snapshot, AppState, AppStateView, initial_state,
};
use crate::app::blocks::{expandable_blocks_for_tab, holds_block, tab_blocks};
use crate::app::state::{BlockId, BlockIdView, LoadingState, LoadingView, ResourceTabState, Tab, TabStateView, tabs_for};
use crate::domain::action::view_kind;
use crate::domain::copy::{copy_vec, DeepCopy};
use crate::domain::fingerprint::{fingerprint_spec, reactions_summable};
use crate::domain::resource::{changed_sections_spec, opt_str, strs, views, ActivityEntryView, Resource};
use crate::domain::resource_id::{canonical_name_spec, id_result_view, parse_spec, IdView, ResourceId};
use crate::input::hit::HitAreaView;
use crate::text::index_of;

verus! {

/// How a file-diff load under way is shown.
pub const FILE_PATCH_LOADING_MESSAGE: &'static str = "loading file diffs";

/// The state with detail tab `tab` shown and scrolling reset, when the
/// shown resource offers that tab.
pub open spec fn tab_set(s: AppStateView, tab: Tab) -> AppStateView {
    if shown_tabs(s).contains(tab) {
        scroll_reset(AppStateView { active_tab: tab, ..s })
    } else {
        s
    }
}

/// The place of the shown tab among the offered ones, the first when it is
/// not offered.
pub open spec fn tab_place(s: AppStateView) -> int {
    match first_index(shown_tabs(s), |t: Tab| t == s.active_tab) {
        Some(i) => i,
        None => 0,
    }
}

/// The tab after the shown one, the first after the last.
pub open spec fn tab_after(s: AppStateView) -> Tab {
    let tabs = shown_tabs(s);
    tabs[(tab_place(s) + 1) % tabs.len() as int]
}

/// The tab before the shown one, the last before the first.
pub open spec fn tab_before(s: AppStateView) -> Tab {
    let tabs = shown_tabs(s);
    let i = tab_place(s);
    tabs[if i == 0 { tabs.len() - 1 } else { i - 1 }]
}

/// `s` without block `b`.
pub open spec fn without(s: Seq<BlockIdView>, b: BlockIdView) -> Seq<BlockIdView>
    decreases s.len(),
{
    if s.len() == 0 {
        Seq::empty()
    } else {
        let w = without(s.drop_last(), b);
        if s.last() == b {
            w
        } else {
            w.push(s.last())
        }
    }
}

/// `s` with block `b` removed when it holds it, else added at the end.
pub open spec fn toggled(s: Seq<BlockIdView>, b: BlockIdView) -> Seq<BlockIdView> {
    if s.contains(b) {
        without(s, b)
    } else {
        s.push(b)
    }
}

/// `s` with each block of `bs` that it lacks added at the end, in order.
pub open spec fn with_all(s: Seq<BlockIdView>, bs: Seq<BlockIdView>) -> Seq<BlockIdView>
    decreases bs.len(),
{
    if bs.len() == 0 {
        s
    } else {
        let t = with_all(s, bs.drop_last());
        if t.contains(bs.last()) {
            t
        } else {
            t.push(bs.last())
        }
    }
}

/// `s` without any block of `bs`.
pub open spec fn without_all(s: Seq<BlockIdView>, bs: Seq<BlockIdView>) -> Seq<BlockIdView>
    decreases bs.len(),
{
    if bs.len() == 0 {
        s
    } else {
        without(without_all(s, bs.drop_last()), bs.last())
    }
}

/// The blocks the shown tab offers to expand: none while the help or the
/// settings cover it.
pub open spec fn offered_blocks(s: AppStateView) -> Seq<BlockIdView> {
    if s.show_help || s.show_settings {
        Seq::empty()
    } else {
        tab_blocks(s.active_tab, s.resource)
    }
}

/// What follows `#` in a link, when something does.
pub open spec fn url_fragment(u: Seq<char>) -> Option<Seq<char>> {
    match index_of(u, '#') {
        Some(i) => {
            let f = u.subrange(i + 1, u.len() as int);
            if f.len() > 0 { Some(f) } else { None }
        },
        None => None,
    }
}

/// Whether an activity entry's link ends in fragment `f`.
pub open spec fn links_fragment(f: Seq<char>) -> spec_fn(ActivityEntryView) -> bool {
    |e: ActivityEntryView| e.url is Some && url_fragment(e.url->0) == Some(f)
}

/// The activity entry that a link into the shown resource points at: the
/// first entry whose own link has the same fragment.
pub open spec fn linked_entry(s: AppStateView, url: Seq<char>) -> Option<Seq<char>> {
    match url_fragment(url) {
        None => None,
        Some(f) => match parse_spec(url, None) {
            Err(_) => None,
            Ok(id) => if canonical_name_spec(id) != canonical_name_spec(s.resource.id) {
                None
            } else {
                match first_index(s.resource.activity, links_fragment(f)) {
                    Some(i) => Some(s.resource.activity[i].id),
                    None => None,
                }
            },
        },
    }
}

/// The state focused on activity entry `entry`: the activity tab shown,
/// the entry expanded and due to be scrolled to, and a status saying so.
pub open spec fn focused_on(s: AppStateView, entry: Seq<char>) -> AppStateView {
    let t = tab_set(s, Tab::Activity);
    AppStateView {
        expanded_blocks: with_all(t.expanded_blocks, seq![BlockIdView::Activity(entry)]),
        pending_activity_focus: Some(entry),
        status_message: Some("focused linked activity"@),
        ..t
    }
}

/// The state with what belonged to the previous resource's view dropped:
/// expanded blocks, click areas, refresh record and loading request.
pub open spec fn view_cleared(s: AppStateView) -> AppStateView {
    AppStateView {
        expanded_blocks: Seq::empty(),
        hit_areas: Seq::empty(),
        last_refreshed_at: None,
        last_refresh_had_changes: None,
        last_refresh_changed_sections: Seq::empty(),
        loading: None,
        ..s
    }
}

/// The state after a refresh at `at`: whether it changed, and when it did
/// not, no changed sections.
pub open spec fn marked_refreshed(s: AppStateView, at: Seq<char>, changed: bool) -> AppStateView {
    AppStateView {
        last_refreshed_at: Some(at),
        last_refresh_had_changes: Some(changed),
        last_refresh_changed_sections: if changed { s.last_refresh_changed_sections } else { Seq::empty() },
        ..s
    }
}

/// Whether a refreshed copy differs from the shown resource: in a section,
/// or else in its fingerprint.
pub open spec fn refresh_changed(a: crate::domain::resource::ResourceView, b: crate::domain::resource::ResourceView) -> bool {
    changed_sections_spec(a, b).len() > 0 || fingerprint_spec(a) != fingerprint_spec(b)
}

/// The state after a refreshed copy `r` of the resource arrives at `at`:
/// it is shown with the view kept, the request and error dropped, the
/// refresh recorded with its changed sections, and the view saved.
pub open spec fn refreshed(s: AppStateView, r: crate::domain::resource::ResourceView, at: Seq<char>) -> AppStateView {
    let changed = refresh_changed(s.resource, r);
    let t = marked_refreshed(
        AppStateView { resource: r, refresh_requested: false, last_error: None, loading: None, ..s },
        at,
        changed,
    );
    snapshot(AppStateView {
        last_refresh_changed_sections: changed_sections_spec(s.resource, r),
        status_message: None,
        ..t
    })
}

/// `r` keeping the file patch context `existing` had loaded (see
/// `Resource::preserve_loaded_file_patch_context_from`).
pub open spec fn patches_kept(r: crate::domain::resource::ResourceView, existing: crate::domain::resource::ResourceView) -> crate::domain::resource::ResourceView {
    crate::domain::resource::with_patch_context(
        r,
        crate::domain::resource::merged_warnings(r.warnings, existing.warnings, true),
        crate::domain::resource::pr_files(existing),
        false,
    )
}

/// The state with the details of a background copy `r` shown in place of
/// the resource, keeping the file patches already loaded, recorded as a
/// refresh at `at` that changed the sections that differ; the status goes,
/// the loading request and the view stay.
pub open spec fn enriched(s: AppStateView, r: crate::domain::resource::ResourceView, at: Seq<char>) -> AppStateView {
    let k = patches_kept(r, s.resource);
    let sections = changed_sections_spec(s.resource, k);
    snapshot(AppStateView {
        resource: k,
        last_refreshed_at: Some(at),
        last_refresh_had_changes: Some(sections.len() > 0),
        last_refresh_changed_sections: sections,
        status_message: None,
        ..s
    })
}

/// A refresh shows the refreshed copy and records exactly what changed:
/// the time it arrived, the sections that differ from the copy shown
/// before (none when nothing did), and whether anything changed, in a
/// section or else in the fingerprint; the request, error and status go;
/// the detail tab, scroll and expanded blocks stay.
pub proof fn law_refresh_records_what_changed(s: AppStateView, r: crate::domain::resource::ResourceView, at: Seq<char>)
    ensures
        refreshed(s, r, at).resource == r,
        refreshed(s, r, at).last_refreshed_at == Some(at),
        refreshed(s, r, at).last_refresh_changed_sections == changed_sections_spec(s.resource, r),
        refreshed(s, r, at).last_refresh_had_changes == Some(
            changed_sections_spec(s.resource, r).len() > 0 || fingerprint_spec(s.resource) != fingerprint_spec(r),
        ),
        refreshed(s, r, at).loading is None,
        refreshed(s, r, at).last_error is None,
        refreshed(s, r, at).status_message is None,
        !refreshed(s, r, at).refresh_requested,
        refreshed(s, r, at).active_tab == s.active_tab,
        refreshed(s, r, at).scroll == s.scroll,
        refreshed(s, r, at).expanded_blocks == s.expanded_blocks,
        refreshed(s, r, at).resource_tabs.len() == s.resource_tabs.len(),
{
}

/// The sections a merge of patch context changed: `warnings`, then `files`.
pub open spec fn merge_sections(warnings_changed: bool, files_changed: bool) -> Seq<Seq<char>> {
    (if warnings_changed { seq!["warnings"@] } else { Seq::empty() }) + (if files_changed { seq!["files"@] } else { Seq::empty() })
}

/// The state with the file patches of `p` merged into the shown resource,
/// recorded as a refresh at `at` that changed the sections the merge did.
pub open spec fn file_patch_applied(s: AppStateView, p: crate::domain::resource::ResourceView, at: Seq<char>) -> AppStateView {
    let w = crate::domain::resource::patch_warnings_changed(s.resource, p);
    let f = crate::domain::resource::patch_files_changed(s.resource, p);
    snapshot(AppStateView {
        resource: crate::domain::resource::patch_merged(s.resource, p),
        last_refreshed_at: Some(at),
        last_refresh_had_changes: Some(w || f),
        last_refresh_changed_sections: merge_sections(w, f),
        ..s
    })
}

proof fn lemma_contains_push(s: Seq<BlockIdView>, x: BlockIdView, b: BlockIdView)
    ensures
        s.push(x).contains(b) <==> (s.contains(b) || b == x),
{
    if s.push(x).contains(b) {
        let k = choose|k: int| 0 <= k < s.push(x).len() && s.push(x)[k] == b;
        if k < s.len() {
            assert(s[k] == b);
        }
    }
    if s.contains(b) {
        let k = choose|k: int| 0 <= k < s.len() && s[k] == b;
        assert(s.push(x)[k] == b);
    }
    if b == x {
        assert(s.push(x)[s.len() as int] == b);
    }
}

/// `without` drops exactly the block named.
pub proof fn lemma_without(s: Seq<BlockIdView>, b: BlockIdView, c: BlockIdView)
    ensures
        without(s, b).contains(c) <==> (s.contains(c) && c != b),
    decreases s.len(),
{
    if s.len() > 0 {
        lemma_without(s.drop_last(), b, c);
        assert(s =~= s.drop_last().push(s.last()));
        lemma_contains_push(s.drop_last(), s.last(), c);
        lemma_contains_push(without(s.drop_last(), b), s.last(), c);
    }
}

/// A toggled block is held afterwards exactly when it was not held before,
/// and every other block is held as before.
pub proof fn lemma_toggled(s: Seq<BlockIdView>, b: BlockIdView, c: BlockIdView)
    ensures
        toggled(s, b).contains(c) <==> if c == b { !s.contains(b) } else { s.contains(c) },
{
    lemma_without(s, b, c);
    lemma_contains_push(s, b, c);
}

fn without_block(v: &Vec<BlockId>, b: &BlockId) -> (r: Vec<BlockId>)
    ensures
        views(r@) == without(views(v@), b@),
{
    let mut r: Vec<BlockId> = Vec::new();
    let mut i: usize = 0;
    while i < v.len()
        invariant
            i <= v@.len(),
            views(r@) == without(views(v@).take(i as int), b@),
        decreases v.len() - i,
    {
        let ghost prior = views(r@);
        proof {
            assert(views(v@).take(i + 1).drop_last() =~= views(v@).take(i as int));
            assert(views(v@).take(i + 1).last() == v@[i as int]@);
        }
        if !v[i].same_block(b) {
            r.push(v[i].deep_copy());
            proof {
                assert(views(r@) =~= prior.push(v@[i as int]@));
            }
        }
        i = i + 1;
    }
    proof {
        assert(views(v@).take(v@.len() as int) =~= views(v@));
    }
    r
}

fn with_blocks(v: Vec<BlockId>, bs: &Vec<BlockId>) -> (r: Vec<BlockId>)
    ensures
        views(r@) == with_all(views(v@), views(bs@)),
{
    let ghost start = views(v@);
    let mut r = v;
    let mut i: usize = 0;
    while i < bs.len()
        invariant
            i <= bs@.len(),
            views(r@) == with_all(start, views(bs@).take(i as int)),
        decreases bs.len() - i,
    {
        let ghost prior = views(r@);
        proof {
            assert(views(bs@).take(i + 1).drop_last() =~= views(bs@).take(i as int));
            assert(views(bs@).take(i + 1).last() == bs@[i as int]@);
        }
        if !holds_block(&r, &bs[i]) {
            r.push(bs[i].deep_copy());
            proof {
                assert(views(r@) =~= prior.push(bs@[i as int]@));
            }
        }
        i = i + 1;
    }
    proof {
        assert(views(bs@).take(bs@.len() as int) =~= views(bs@));
    }
    r
}

fn without_blocks(v: Vec<BlockId>, bs: &Vec<BlockId>) -> (r: Vec<BlockId>)
    ensures
        views(r@) == without_all(views(v@), views(bs@)),
{
    let ghost start = views(v@);
    let mut r = v;
    let mut i: usize = 0;
    while i < bs.len()
        invariant
            i <= bs@.len(),
            views(r@) == without_all(start, views(bs@).take(i as int)),
        decreases bs.len() - i,
    {
        proof {
            assert(views(bs@).take(i + 1).drop_last() =~= views(bs@).take(i as int));
            assert(views(bs@).take(i + 1).last() == bs@[i as int]@);
        }
        r = without_block(&r, &bs[i]);
        i = i + 1;
    }
    proof {
        assert(views(bs@).take(bs@.len() as int) =~= views(bs@));
    }
    r
}

fn all_held(v: &Vec<BlockId>, bs: &Vec<BlockId>) -> (r: bool)
    ensures
        r == forall|j: int| 0 <= j < bs@.len() ==> views(v@).contains(#[trigger] bs@[j]@),
{
    let mut i: usize = 0;
    while i < bs.len()
        invariant
            i <= bs@.len(),
            forall|j: int| 0 <= j < i ==> views(v@).contains(#[trigger] bs@[j]@),
        decreases bs.len() - i,
    {
        if !holds_block(v, &bs[i]) {
            return false;
        }
        i = i + 1;
    }
    true
}

/// The fragment of a link (see `url_fragment`).
fn fragment_of(url: &str) -> (r: Option<Vec<char>>)
    ensures
        match url_fragment(url@) {
            Some(f) => r is Some && r->0@ == f,
            None => r is None,
        },
{
    let v = crate::text::chars_of(url);
    let h = crate::text::find_char(v.as_slice(), 0, v.len(), '#');
    proof {
        assert(v@.subrange(0, v@.len() as int) =~= v@);
        crate::text::lemma_index_of_props(v@, '#');
    }
    match h {
        Some(i) => {
            let f = crate::text::slice_to_vec(v.as_slice(), i + 1, v.len());
            if f.len() > 0 {
                Some(f)
            } else {
                None
            }
        },
        None => None,
    }
}

fn same_chars(a: &Vec<char>, b: &Vec<char>) -> (r: bool)
    ensures
        r == (a@ == b@),
{
    if a.len() != b.len() {
        return false;
    }
    let mut i: usize = 0;
    while i < a.len()
        invariant
            a@.len() == b@.len(),
            i <= a@.len(),
            forall|j: int| 0 <= j < i ==> a@[j] == b@[j],
        decreases a.len() - i,
    {
        if a[i] != b[i] {
            return false;
        }
        i = i + 1;
    }
    proof {
        assert(a@ =~= b@);
    }
    true
}

impl AppState {
    /// Shows detail tab `tab`, resetting scrolling, when the shown resource
    /// offers it.
    pub fn set_tab(&mut self, tab: Tab)
        ensures
            final(self)@ == tab_set(old(self)@, tab),
    {
        let tabs = self.tabs();
        let mut i: usize = 0;
        let mut found = false;
        while i < tabs.len()
            invariant
                i <= tabs@.len(),
                found == exists|j: int| 0 <= j < i && tabs@[j] == tab,
            decreases tabs.len() - i,
        {
            if tabs[i] == tab {
                found = true;
            }
            i = i + 1;
        }
        proof {
            if tabs@.contains(tab) {
                let k = choose|k: int| 0 <= k < tabs@.len() && tabs@[k] == tab;
                assert(exists|j: int| 0 <= j < i && tabs@[j] == tab);
            }
        }
        if found {
            self.active_tab = tab;
            self.scroll = 0;
            self.scroll_limit = u16::MAX;
        }
    }

    fn shown_tab_place(&self, tabs: &Vec<Tab>) -> (i: usize)
        requires
            tabs@ == shown_tabs(self@),
        ensures
            i as int == tab_place(self@),
            (i as int) < tabs@.len(),
    {
        let ghost p = |t: Tab| t == self.active_tab;
        let mut i: usize = 0;
        while i < tabs.len()
            invariant
                i <= tabs@.len(),
                tabs@ == shown_tabs(self@),
                p == (|t: Tab| t == self.active_tab),
                forall|j: int| 0 <= j < i ==> !p(#[trigger] tabs@[j]),
            decreases tabs.len() - i,
        {
            if tabs[i] == self.active_tab {
                proof {
                    lemma_first_index_is(tabs@, p, i as int);
                }
                return i;
            }
            i = i + 1;
        }
        proof {
            lemma_first_index_none(tabs@, p);
        }
        0
    }

    /// Shows the detail tab after the shown one (see `tab_after`).
    pub fn next_tab(&mut self)
        ensures
            final(self)@ == scroll_reset(AppStateView { active_tab: tab_after(old(self)@), ..old(self)@ }),
    {
        let tabs = self.tabs();
        let current = self.shown_tab_place(&tabs);
        let next = tabs[(current + 1) % tabs.len()];
        proof {
            assert(shown_tabs(self@).contains(next));
        }
        self.set_tab(next);
    }

    /// Shows the detail tab before the shown one (see `tab_before`).
    pub fn previous_tab(&mut self)
        ensures
            final(self)@ == scroll_reset(AppStateView { active_tab: tab_before(old(self)@), ..old(self)@ }),
    {
        let tabs = self.tabs();
        let current = self.shown_tab_place(&tabs);
        let next = if current == 0 { tabs.len() - 1 } else { current - 1 };
        let tab = tabs[next];
        proof {
            assert(shown_tabs(self@).contains(tab));
        }
        self.set_tab(tab);
    }

    /// Expands block `id`, or collapses it when it is expanded.
    pub fn toggle_block(&mut self, id: BlockId)
        ensures
            final(self)@ == (AppStateView { expanded_blocks: toggled(old(self)@.expanded_blocks, id@), ..old(self)@ }),
    {
        if holds_block(&self.expanded_blocks, &id) {
            self.expanded_blocks = without_block(&self.expanded_blocks, &id);
        } else {
            let ghost before = views(self.expanded_blocks@);
            let ghost b = id@;
            self.expanded_blocks.push(id);
            proof {
                assert(views(self.expanded_blocks@) =~= before.push(b));
            }
        }
    }

    /// Expands every block of `blocks`.
    pub fn expand_blocks(&mut self, blocks: Vec<BlockId>)
        ensures
            final(self)@ == (AppStateView { expanded_blocks: with_all(old(self)@.expanded_blocks, views(blocks@)), ..old(self)@ }),
    {
        let mut current: Vec<BlockId> = Vec::new();
        std::mem::swap(&mut current, &mut self.expanded_blocks);
        self.expanded_blocks = with_blocks(current, &blocks);
    }

    /// Collapses every block of `blocks`.
    pub fn collapse_blocks(&mut self, blocks: Vec<BlockId>)
        ensures
            final(self)@ == (AppStateView { expanded_blocks: without_all(old(self)@.expanded_blocks, views(blocks@)), ..old(self)@ }),
    {
        let mut current: Vec<BlockId> = Vec::new();
        std::mem::swap(&mut current, &mut self.expanded_blocks);
        self.expanded_blocks = without_blocks(current, &blocks);
    }

    /// The blocks the shown tab offers to expand (see `offered_blocks`).
    pub fn active_tab_expandable_blocks(&self) -> (v: Vec<BlockId>)
        ensures
            views(v@) == offered_blocks(self@),
    {
        if self.show_help || self.show_settings {
            let v: Vec<BlockId> = Vec::new();
            proof {
                assert(views(v@) =~= Seq::<BlockIdView>::empty());
            }
            return v;
        }
        expandable_blocks_for_tab(self.active_tab, &self.resource)
    }

    /// Collapses the shown tab's blocks when all are expanded, else expands
    /// them all; says whether the tab offers any.
    pub fn toggle_active_tab_expansion(&mut self) -> (r: bool)
        ensures
            ({
                let bs = offered_blocks(old(self)@);
                let s = old(self)@;
                &&& r == (bs.len() > 0)
                &&& final(self)@ == if bs.len() == 0 {
                    s
                } else if forall|j: int| 0 <= j < bs.len() ==> s.expanded_blocks.contains(#[trigger] bs[j]) {
                    AppStateView { expanded_blocks: without_all(s.expanded_blocks, bs), ..s }
                } else {
                    AppStateView { expanded_blocks: with_all(s.expanded_blocks, bs), ..s }
                }
            }),
    {
        let blocks = self.active_tab_expandable_blocks();
        if blocks.len() == 0 {
            return false;
        }
        let held = all_held(&self.expanded_blocks, &blocks);
        proof {
            let bs = offered_blocks(old(self)@);
            assert(views(blocks@) == bs);
            assert(held == forall|j: int| 0 <= j < bs.len() ==> old(self)@.expanded_blocks.contains(#[trigger] bs[j])) by {
                if held {
                    assert forall|j: int| 0 <= j < bs.len() implies old(self)@.expanded_blocks.contains(#[trigger] bs[j]) by {
                        assert(bs[j] == blocks@[j]@);
                    }
                } else {
                    let k = choose|k: int| 0 <= k < blocks@.len() && !views(self.expanded_blocks@).contains(#[trigger] blocks@[k]@);
                    assert(bs[k] == blocks@[k]@);
                }
            }
        }
        if held {
            self.collapse_blocks(blocks);
        } else {
            self.expand_blocks(blocks);
        }
        true
    }

    /// Whether block `id` is expanded.
    pub fn block_expanded(&self, id: &BlockId) -> (r: bool)
        ensures
            r == self@.expanded_blocks.contains(id@),
    {
        holds_block(&self.expanded_blocks, id)
    }

    fn find_linked_entry(&self, fragment: &Vec<char>) -> (r: Option<String>)
        ensures
            match first_index(self@.resource.activity, links_fragment(fragment@)) {
                Some(i) => r is Some && r->0@ == self@.resource.activity[i].id,
                None => r is None,
            },
    {
        let ghost p = links_fragment(fragment@);
        let mut i: usize = 0;
        while i < self.resource.activity.len()
            invariant
                i <= self@.resource.activity.len(),
                p == links_fragment(fragment@),
                forall|j: int| 0 <= j < i ==> !p(#[trigger] self@.resource.activity[j]),
            decreases self.resource.activity.len() - i,
        {
            let entry = &self.resource.activity[i];
            proof {
                assert(self@.resource.activity[i as int] == entry@);
            }
            let hit = match &entry.url {
                Some(u) => match fragment_of(u.as_str()) {
                    Some(f) => same_chars(&f, fragment),
                    None => false,
                },
                None => false,
            };
            if hit {
                proof {
                    lemma_first_index_is(self@.resource.activity, p, i as int);
                }
                return Some(entry.id.clone());
            }
            i = i + 1;
        }
        proof {
            lemma_first_index_none(self@.resource.activity, p);
        }
        None
    }

    /// Focuses the activity entry a link into the shown resource points at
    /// (see `linked_entry` and `focused_on`); says whether there is one.
    pub fn focus_activity_url(&mut self, url: &str) -> (r: bool)
        ensures
            match linked_entry(old(self)@, url@) {
                Some(e) => r && final(self)@ == focused_on(old(self)@, e),
                None => !r && final(self)@ == old(self)@,
            },
    {
        let fragment = match fragment_of(url) {
            Some(f) => f,
            None => {
                return false;
            },
        };
        let id = match ResourceId::parse(url) {
            Ok(id) => id,
            Err(_) => {
                return false;
            },
        };
        let a = id.canonical_name();
        let b = self.resource.id.canonical_name();
        if a != b {
            return false;
        }
        let entry_id = match self.find_linked_entry(&fragment) {
            Some(e) => e,
            None => {
                return false;
            },
        };
        self.set_tab(Tab::Activity);
        let mut blocks: Vec<BlockId> = Vec::new();
        blocks.push(BlockId::Activity(entry_id.clone()));
        proof {
            assert(views(blocks@) =~= seq![BlockIdView::Activity(entry_id@)]);
        }
        self.expand_blocks(blocks);
        self.pending_activity_focus = Some(entry_id);
        self.status_message = Some(crate::text::owned("focused linked activity"));
        true
    }

    /// Hands out, once, the activity entry due to be scrolled to.
    pub fn take_pending_activity_focus(&mut self) -> (r: Option<String>)
        ensures
            opt_str(r) == old(self)@.pending_activity_focus,
            final(self)@ == (AppStateView { pending_activity_focus: None, ..old(self)@ }),
    {
        self.pending_activity_focus.take()
    }

    fn clear_resource_view_state(&mut self)
        ensures
            final(self)@ == view_cleared(old(self)@),
    {
        self.expanded_blocks = Vec::new();
        self.hit_areas = Vec::new();
        self.last_refreshed_at = None;
        self.last_refresh_had_changes = None;
        self.last_refresh_changed_sections = Vec::new();
        self.loading = None;
        proof {
            assert(self@.expanded_blocks =~= Seq::<BlockIdView>::empty());
            assert(self@.hit_areas =~= Seq::<HitAreaView>::empty());
            assert(self@.last_refresh_changed_sections =~= Seq::<Seq<char>>::empty());
        }
    }

    /// Shows `resource` in the active tab from its overview, at the top,
    /// with the previous view dropped, and saves the view.
    pub fn replace_resource_reset_view(&mut self, resource: Resource)
        ensures
            final(self)@ == snapshot(view_cleared(scroll_reset(
                AppStateView { resource: resource@, active_tab: Tab::Overview, ..old(self)@ },
            ))),
    {
        self.resource = resource;
        self.active_tab = Tab::Overview;
        self.scroll = 0;
        self.scroll_limit = u16::MAX;
        self.clear_resource_view_state();
        self.snapshot_active_resource_tab();
    }

    /// Shows `resource` in the active tab on the same detail tab when it
    /// offers it (else the overview), at the top, with the previous view
    /// dropped, and saves the view.
    pub fn replace_resource_preserve_tab(&mut self, resource: Resource)
        ensures
            final(self)@ == snapshot(view_cleared(scroll_reset(AppStateView {
                resource: resource@,
                active_tab: if tabs_for(view_kind(resource@)).contains(old(self)@.active_tab) {
                    old(self)@.active_tab
                } else {
                    Tab::Overview
                },
                ..old(self)@
            }))),
    {
        let active_tab = self.active_tab;
        self.resource = resource;
        let tabs = self.tabs();
        let mut offered = false;
        let mut i: usize = 0;
        while i < tabs.len()
            invariant
                i <= tabs@.len(),
                offered == exists|j: int| 0 <= j < i && tabs@[j] == active_tab,
            decreases tabs.len() - i,
        {
            if tabs[i] == active_tab {
                offered = true;
            }
            i = i + 1;
        }
        proof {
            if tabs@.contains(active_tab) {
                let k = choose|k: int| 0 <= k < tabs@.len() && tabs@[k] == active_tab;
                assert(exists|j: int| 0 <= j < i && tabs@[j] == active_tab);
            }
        }
        self.active_tab = if offered { active_tab } else { Tab::Overview };
        self.scroll = 0;
        self.scroll_limit = u16::MAX;
        self.clear_resource_view_state();
        self.snapshot_active_resource_tab();
    }

    /// Adds the shown resource to the history.
    pub fn push_current_to_history(&mut self)
        ensures
            final(self)@ == (AppStateView { history: old(self)@.history.push(old(self)@.resource.id), ..old(self)@ }),
    {
        let id = self.resource.id.deep_copy();
        let ghost before = views(self.history@);
        self.history.push(id);
        proof {
            assert(views(self.history@) =~= before.push(old(self)@.resource.id));
        }
    }

    /// Takes the last resource off the history.
    pub fn pop_history(&mut self) -> (r: Option<ResourceId>)
        ensures
            old(self)@.history.len() == 0 ==> r is None && final(self)@ == old(self)@,
            old(self)@.history.len() > 0 ==> r is Some && r->0@ == old(self)@.history.last()
                && final(self)@ == (AppStateView { history: old(self)@.history.drop_last(), ..old(self)@ }),
    {
        let r = self.history.pop();
        proof {
            if old(self)@.history.len() > 0 {
                assert(self@.history =~= old(self)@.history.drop_last());
            }
        }
        r
    }

    /// Records a refresh at `at` (see `marked_refreshed`).
    pub fn mark_refreshed(&mut self, at: String, changed: bool)
        ensures
            final(self)@ == marked_refreshed(old(self)@, at@, changed),
    {
        self.last_refreshed_at = Some(at);
        self.last_refresh_had_changes = Some(changed);
        if !changed {
            self.last_refresh_changed_sections = Vec::new();
            proof {
                assert(self@.last_refresh_changed_sections =~= Seq::<Seq<char>>::empty());
            }
        }
    }

    /// Merges the file patches of a background copy into the shown
    /// resource (see `file_patch_applied`); the rest of the shown resource
    /// stays as it is.
    pub fn apply_file_patch_resource(&mut self, resource: Resource, refreshed_at: String)
        ensures
            final(self)@ == file_patch_applied(old(self)@, resource@, refreshed_at@),
    {
        let merge = self.resource.merge_file_patch_context_from(&resource);
        let mut sections: Vec<String> = Vec::new();
        if merge.warnings_changed {
            sections.push(crate::text::owned("warnings"));
        }
        if merge.files_changed {
            sections.push(crate::text::owned("files"));
        }
        proof {
            reveal_strlit("warnings");
            reveal_strlit("files");
            assert(strs(sections@) =~= merge_sections(merge.warnings_changed, merge.files_changed));
        }
        self.last_refreshed_at = Some(refreshed_at);
        self.last_refresh_had_changes = Some(merge.changed());
        self.last_refresh_changed_sections = sections;
        self.snapshot_active_resource_tab();
    }

    /// Shows the details of a background copy of the resource (see
    /// `enriched`).
    pub fn apply_enriched_resource(&mut self, resource: Resource, refreshed_at: String)
        ensures
            final(self)@ == enriched(old(self)@, resource@, refreshed_at@),
    {
        let mut resource = resource;
        resource.preserve_loaded_file_patch_context_from(&self.resource);
        let sections = self.resource.changed_sections(&resource);
        self.last_refresh_had_changes = Some(sections.len() > 0);
        self.resource = resource;
        self.last_refreshed_at = Some(refreshed_at);
        self.last_refresh_changed_sections = sections;
        self.status_message = None;
        self.snapshot_active_resource_tab();
    }

    /// Shows a refreshed copy of the resource (see `refreshed`); says
    /// whether it changed (see `refresh_changed`).
    pub fn apply_refreshed_resource(&mut self, resource: Resource, refreshed_at: String) -> (changed: bool)
        requires
            changed_sections_spec(old(self)@.resource, resource@).len() == 0 ==> reactions_summable(old(self).resource)
                && reactions_summable(resource),
        ensures
            changed == refresh_changed(old(self)@.resource, resource@),
            final(self)@ == refreshed(old(self)@, resource@, refreshed_at@),
    {
        let changed_sections = self.resource.changed_sections(&resource);
        let changed = if changed_sections.len() > 0 {
            true
        } else {
            let a = self.resource.fingerprint();
            let b = resource.fingerprint();
            a != b
        };
        self.resource = resource;
        self.refresh_requested = false;
        self.last_error = None;
        self.loading = None;
        self.mark_refreshed(refreshed_at, changed);
        self.last_refresh_changed_sections = changed_sections;
        self.status_message = None;
        self.snapshot_active_resource_tab();
        changed
    }

    fn allocate_loading_request_id(&mut self) -> (id: u64)
        ensures
            id == old(self)@.next_loading_request_id,
            final(self)@ == (AppStateView { next_loading_request_id: crate::app::tabs::sat_inc(id), ..old(self)@ }),
    {
        let id = self.next_loading_request_id;
        self.next_loading_request_id = self.next_loading_request_id.saturating_add(1);
        id
    }

    /// Starts a loading request for `target` from the active tab and
    /// returns its id: the next request id, recorded as the active tab's
    /// latest fetch; the spinner starts, the error is dropped, and a
    /// file-diff load under way is given up.
    pub fn begin_loading(&mut self, target: ResourceId, message: String) -> (request_id: u64)
        ensures
            request_id == old(self)@.next_loading_request_id,
            final(self)@ == (AppStateView {
                next_loading_request_id: crate::app::tabs::sat_inc(request_id),
                latest_fetch_request_id: request_id,
                file_patch_request_id: None,
                loading: Some(LoadingView {
                    target: target@,
                    message: message@,
                    request_id,
                    origin_tab_id: crate::app::tabs::active_tab_id(old(self)@),
                    frame: 0,
                }),
                last_error: None,
                ..old(self)@
            }),
    {
        let request_id = self.allocate_loading_request_id();
        let origin_tab_id = self.active_resource_tab_id();
        self.latest_fetch_request_id = request_id;
        self.file_patch_request_id = None;
        self.loading = Some(LoadingState { target, message, request_id, origin_tab_id, frame: 0 });
        self.last_error = None;
        request_id
    }

    /// Starts a file-diff load and returns its id, the next request id; the
    /// blocking load and the latest fetch stay as they are.
    pub fn begin_file_patch_loading(&mut self) -> (request_id: u64)
        ensures
            request_id == old(self)@.next_loading_request_id,
            final(self)@ == (AppStateView {
                next_loading_request_id: crate::app::tabs::sat_inc(request_id),
                file_patch_request_id: Some(request_id),
                ..old(self)@
            }),
    {
        let request_id = self.allocate_loading_request_id();
        self.file_patch_request_id = Some(request_id);
        request_id
    }

    /// What a file-diff load under way is shown as, if one is.
    pub fn file_patch_loading_message(&self) -> (m: Option<String>)
        ensures
            m is Some == self@.file_patch_request_id is Some,
            m is Some ==> m->0@ == FILE_PATCH_LOADING_MESSAGE@,
    {
        match self.file_patch_request_id {
            Some(_) => Some(crate::text::owned(FILE_PATCH_LOADING_MESSAGE)),
            None => None,
        }
    }

    /// Ends the file-diff load `request_id` if it is the one under way, and
    /// says whether it was.
    pub fn finish_file_patch_loading(&mut self, request_id: u64) -> (finished: bool)
        ensures
            finished == (old(self)@.file_patch_request_id == Some(request_id)),
            final(self)@ == if finished {
                AppStateView { file_patch_request_id: None, ..old(self)@ }
            } else {
                old(self)@
            },
    {
        let running = match self.file_patch_request_id {
            Some(id) => id == request_id,
            None => false,
        };
        if running {
            self.file_patch_request_id = None;
        }
        running
    }

    /// Whether `request_id` is the latest fetch begun from the active tab.
    pub fn latest_fetch_request_matches(&self, request_id: u64) -> (r: bool)
        ensures
            r == (self@.latest_fetch_request_id == request_id),
    {
        self.latest_fetch_request_id == request_id
    }

    /// Whether `request_id` is the loading request.
    pub fn loading_request_matches(&self, request_id: u64) -> (r: bool)
        ensures
            r == (self@.loading is Some && self@.loading->0.request_id == request_id),
    {
        match &self.loading {
            Some(loading) => loading.request_id == request_id,
            None => false,
        }
    }

    /// The message of the loading request.
    pub fn loading_message(&self) -> (r: Option<&str>)
        ensures
            match self@.loading {
                Some(l) => r is Some && r->0@ == l.message,
                None => r is None,
            },
    {
        match &self.loading {
            Some(loading) => Some(loading.message.as_str()),
            None => None,
        }
    }

    /// The spinner frame of the loading request: `|`, `/`, `-`, `\` in turn.
    pub fn loading_indicator(&self) -> (r: Option<&'static str>)
        ensures
            match self@.loading {
                Some(l) => r is Some && r->0@ == crate::app::app_state::spinner_frame(l.frame),
                None => r is None,
            },
    {
        match &self.loading {
            Some(loading) => {
                let k = loading.frame % 4;
                Some(if k == 0 {
                    "|"
                } else if k == 1 {
                    "/"
                } else if k == 2 {
                    "-"
                } else {
                    "\\"
                })
            },
            None => None,
        }
    }

    /// Moves the spinner on one frame, wrapping.
    pub fn advance_loading_frame(&mut self)
        ensures
            final(self)@ == match old(self)@.loading {
                Some(l) => AppStateView {
                    loading: Some(LoadingView { frame: if l.frame == u8::MAX { 0 } else { (l.frame + 1) as u8 }, ..l }),
                    ..old(self)@
                },
                None => old(self)@,
            },
    {
        match self.loading.take() {
            Some(loading) => {
                let frame: u8 = if loading.frame == u8::MAX { 0 } else { loading.frame + 1 };
                self.loading = Some(LoadingState { frame, ..loading });
            },
            None => {},
        }
    }

    /// The resource tabs with the active one's view saved, for a saved session.
    pub fn session_resource_tabs(&mut self) -> (tabs: Vec<ResourceTabState>)
        ensures
            final(self)@ == snapshot(old(self)@),
            views(tabs@) == final(self)@.resource_tabs,
    {
        self.snapshot_active_resource_tab();
        copy_vec(&self.resource_tabs)
    }
}

/// The largest tab id of `tabs`, 0 for none.
pub open spec fn max_tab_id(tabs: Seq<TabStateView>) -> u64
    decreases tabs.len(),
{
    if tabs.len() == 0 {
        0
    } else {
        let m = max_tab_id(tabs.drop_last());
        if tabs.last().id > m { tabs.last().id } else { m }
    }
}

/// The state restored from a saved session's tabs: tab `active_index` (or
/// the last tab, when there are fewer) shown, and new tabs numbered after
/// the largest saved id.
pub open spec fn restored_session(tabs: Seq<TabStateView>, active_index: int, config_path: Seq<char>) -> AppStateView {
    let active = if active_index < tabs.len() - 1 { active_index } else { tabs.len() - 1 };
    restore(
        AppStateView {
            resource_tabs: tabs,
            next_resource_tab_id: crate::app::tabs::sat_inc(max_tab_id(tabs)),
            ..initial_state(tabs[active].resource, config_path)
        },
        active,
    )
}

impl AppState {
    /// Restores the interface from a saved session (see `restored_session`).
    #[verifier::rlimit(40)]
    pub fn from_session_tabs(resource_tabs: Vec<ResourceTabState>, active_index: usize, config_path: String) -> (s: Self)
        requires
            resource_tabs@.len() > 0,
        ensures
            s@ == restored_session(views(resource_tabs@), active_index as int, config_path@),
    {
        let last = resource_tabs.len() - 1;
        let active = if active_index < last { active_index } else { last };
        let resource = resource_tabs[active].resource.deep_copy();
        let mut max_id: u64 = 0;
        let mut i: usize = 0;
        while i < resource_tabs.len()
            invariant
                i <= resource_tabs@.len(),
                max_id == max_tab_id(views(resource_tabs@).take(i as int)),
            decreases resource_tabs.len() - i,
        {
            proof {
                assert(views(resource_tabs@).take(i + 1).drop_last() =~= views(resource_tabs@).take(i as int));
                assert(views(resource_tabs@).take(i + 1).last() == resource_tabs@[i as int]@);
            }
            if resource_tabs[i].id > max_id {
                max_id = resource_tabs[i].id;
            }
            i = i + 1;
        }
        proof {
            assert(views(resource_tabs@).take(resource_tabs@.len() as int) =~= views(resource_tabs@));
        }
        let mut state = AppState::new(resource, config_path);
        state.resource_tabs = resource_tabs;
        state.next_resource_tab_id = max_id.saturating_add(1);
        state.restore_resource_tab(active);
        state
    }
}

} // verus!

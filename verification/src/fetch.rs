//! Fetching resources: what each fetch is for and what it is shown as while
//! it runs, the fixtures that stand in for GitHub offline, and the rules for
//! what a finished fetch may change.
use vstd::prelude::*;

use crate::app::app_state::{entry_views, first_index, lemma_first_index, scroll_reset, snapshot, AppState, AppStateView};
use crate::app::content::{enriched, file_patch_applied, refreshed, view_cleared};
use crate::app::state::{tabs_for, LoadingView, Tab};
use crate::app::tabs::{active_tab_id, has_tab_id, loading_finished, opened_in_tab, tab_entered, tab_left, transient_cleared};
use crate::domain::action::view_kind;
use crate::domain::fingerprint::{lemma_view_summable, view_summable};
use crate::domain::resource::FILE_PATCH_CONTEXT_UNAVAILABLE_WARNING;
use crate::domain::copy::DeepCopy;
use crate::domain::resource::{
    has_warning_starting_with, strs, views, Resource, ResourceView,
    PUBLIC_REST_FALLBACK_WARNING_PREFIX,
};
use crate::domain::resource_id::{canonical_name_spec, IdView, ResourceId};
use crate::github::gh_cli::{last_entry, lemma_last_entry_at, lemma_last_entry_none};
use crate::text::push_str;

verus! {

/// What a fetch is for.
#[derive(Debug, Clone)]
pub enum FetchAction {
    Initial { id: ResourceId },
    Refresh { id: ResourceId },
    LoadFull { id: ResourceId },
    LoadFilePatches { resource: Box<Resource> },
    OpenTab { id: ResourceId },
    Navigate { from: ResourceId, to: ResourceId },
    Back { to: ResourceId },
}

/// The resource a fetch loads.
pub open spec fn action_target(a: FetchAction) -> IdView {
    match a {
        FetchAction::Initial { id } => id@,
        FetchAction::Refresh { id } => id@,
        FetchAction::LoadFull { id } => id@,
        FetchAction::LoadFilePatches { resource } => resource.id@,
        FetchAction::OpenTab { id } => id@,
        FetchAction::Navigate { to, .. } => to@,
        FetchAction::Back { to } => to@,
    }
}

/// What a fetch is shown as while it runs.
pub open spec fn loading_message_spec(a: FetchAction) -> Seq<char> {
    let name = canonical_name_spec(action_target(a));
    match a {
        FetchAction::Initial { .. } => "opening "@ + name + " from GitHub"@,
        FetchAction::Refresh { .. } => "refreshing "@ + name + " from GitHub"@,
        FetchAction::LoadFull { .. } => "loading full data for "@ + name + " from GitHub"@,
        FetchAction::LoadFilePatches { .. } => "loading file diffs for "@ + name,
        FetchAction::OpenTab { .. } => "opening "@ + name + " in a new tab"@,
        FetchAction::Navigate { .. } => "opening "@ + name + " from GitHub"@,
        FetchAction::Back { .. } => "returning to "@ + name + " from GitHub"@,
    }
}

impl FetchAction {
    /// The resource this fetch loads.
    pub fn target(&self) -> (id: &ResourceId)
        ensures
            id@ == action_target(*self),
    {
        match self {
            FetchAction::Initial { id } => id,
            FetchAction::Refresh { id } => id,
            FetchAction::LoadFull { id } => id,
            FetchAction::LoadFilePatches { resource } => &resource.id,
            FetchAction::OpenTab { id } => id,
            FetchAction::Navigate { to, .. } => to,
            FetchAction::Back { to } => to,
        }
    }

    /// What this fetch is shown as while it runs (see `loading_message_spec`).
    pub fn loading_message(&self) -> (s: String)
        ensures
            s@ == loading_message_spec(*self),
    {
        let name = self.target().canonical_name();
        let mut s = String::new();
        match self {
            FetchAction::Initial { .. } | FetchAction::Navigate { .. } => {
                push_str(&mut s, "opening ");
                push_str(&mut s, name.as_str());
                push_str(&mut s, " from GitHub");
            },
            FetchAction::Refresh { .. } => {
                push_str(&mut s, "refreshing ");
                push_str(&mut s, name.as_str());
                push_str(&mut s, " from GitHub");
            },
            FetchAction::LoadFull { .. } => {
                push_str(&mut s, "loading full data for ");
                push_str(&mut s, name.as_str());
                push_str(&mut s, " from GitHub");
            },
            FetchAction::LoadFilePatches { .. } => {
                push_str(&mut s, "loading file diffs for ");
                push_str(&mut s, name.as_str());
            },
            FetchAction::OpenTab { .. } => {
                push_str(&mut s, "opening ");
                push_str(&mut s, name.as_str());
                push_str(&mut s, " in a new tab");
            },
            FetchAction::Back { .. } => {
                push_str(&mut s, "returning to ");
                push_str(&mut s, name.as_str());
                push_str(&mut s, " from GitHub");
            },
        }
        s
    }

    /// Whether the fetch may show the base of a resource before its details:
    /// every fetch but a full-depth load and a file-diff load.
    pub fn can_load_progressively(&self) -> (b: bool)
        ensures
            b == !(*self is LoadFull || *self is LoadFilePatches),
    {
        match self {
            FetchAction::LoadFull { .. } | FetchAction::LoadFilePatches { .. } => false,
            _ => true,
        }
    }
}

/// Whether `resource` is the resource `target` names, whatever kind either
/// is known as.
pub open spec fn matches_target_spec(resource: ResourceView, target: IdView) -> bool {
    resource.id.owner == target.owner && resource.id.repo == target.repo && resource.id.number == target.number
}

/// Whether `resource` is the resource `target` names (see `matches_target_spec`).
pub fn resource_matches_target(resource: &Resource, target: &ResourceId) -> (b: bool)
    ensures
        b == matches_target_spec(resource@, target@),
{
    crate::text::str_eq(resource.id.owner.as_str(), target.owner.as_str()) && crate::text::str_eq(
        resource.id.repo.as_str(),
        target.repo.as_str(),
    ) && resource.id.number == target.number
}

/// Adds `warning` to the resource unless it already carries it.
pub fn push_unique_warning(resource: &mut Resource, warning: String)
    ensures
        final(resource)@ == (ResourceView {
            warnings: if old(resource)@.warnings.contains(warning@) {
                old(resource)@.warnings
            } else {
                old(resource)@.warnings.push(warning@)
            },
            ..old(resource)@
        }),
{
    let mut i: usize = 0;
    while i < resource.warnings.len()
        invariant
            i <= resource.warnings@.len(),
            resource == old(resource),
            forall|k: int| 0 <= k < i ==> (#[trigger] resource.warnings@[k])@ != warning@,
        decreases resource.warnings.len() - i,
    {
        if crate::text::str_eq(resource.warnings[i].as_str(), warning.as_str()) {
            proof {
                assert(strs(resource.warnings@)[i as int] == warning@);
            }
            return;
        }
        i = i + 1;
    }
    proof {
        assert forall|k: int| 0 <= k < strs(resource.warnings@).len() implies strs(resource.warnings@)[k] != warning@ by {
            assert(strs(resource.warnings@)[k] == resource.warnings@[k]@);
        }
        assert(!strs(resource.warnings@).contains(warning@));
    }
    let ghost before = resource.warnings@;
    resource.warnings.push(warning);
    proof {
        assert(strs(resource.warnings@) =~= strs(before).push(warning@));
    }
}

/// Whether a loaded resource gets its details fetched in the background:
/// not when it came from the public REST fallback, which has none to add.
pub fn should_enqueue_enrichment(resource: &Resource) -> (b: bool)
    ensures
        b == !has_warning_starting_with(resource@.warnings, PUBLIC_REST_FALLBACK_WARNING_PREFIX@),
{
    !resource.uses_public_rest_fallback()
}

/// Resources loaded from files, standing in for GitHub, each found by its
/// canonical name.
#[derive(Debug, Clone)]
pub struct OfflineFixtureSource {
    resources: Vec<(String, Resource)>,
}

pub open spec fn fixture_entries(v: Seq<(String, Resource)>) -> Seq<(Seq<char>, ResourceView)> {
    v.map_values(|e: (String, Resource)| (e.0@, e.1@))
}

/// What looking up `id` among the fixtures gives: the fixture with its
/// canonical name (the last one given, when several share it), else an error
/// that names it.
pub open spec fn fixture_lookup_spec(entries: Seq<(Seq<char>, ResourceView)>, id: IdView) -> Result<ResourceView, Seq<char>> {
    match last_entry(entries, canonical_name_spec(id)) {
        Some(r) => Ok(r),
        None => Err("offline fixture mode: no fixture loaded for "@ + canonical_name_spec(id)),
    }
}

impl OfflineFixtureSource {
    /// The fixtures, each under its canonical name, in the order given.
    pub closed spec fn entries(&self) -> Seq<(Seq<char>, ResourceView)> {
        fixture_entries(self.resources@)
    }

    /// A source holding `resources`.
    pub fn new(resources: Vec<Resource>) -> (s: Self)
        ensures
            s.entries() == resources@.map_values(|r: Resource| (canonical_name_spec(r.id@), r@)),
    {
        let mut entries: Vec<(String, Resource)> = Vec::new();
        let mut rest = resources;
        let ghost all = rest@;
        let mut k: usize = 0;
        assert(rest.len() == all.len());
        while rest.len() > 0
            invariant
                k + rest@.len() == all.len(),
                all.len() <= usize::MAX,
                rest@ == all.subrange(k as int, all.len() as int),
                fixture_entries(entries@) == all.subrange(0, k as int).map_values(
                    |r: Resource| (canonical_name_spec(r.id@), r@),
                ),
            decreases rest.len(),
        {
            let ghost r0 = rest@[0];
            let r = rest.remove(0);
            let name = r.id.canonical_name();
            let ghost before = entries@;
            entries.push((name, r));
            proof {
                assert(r0 == all[k as int]);
                assert(fixture_entries(entries@) =~= fixture_entries(before).push((canonical_name_spec(r0.id@), r0@)));
                assert(all.subrange(0, k + 1).map_values(|r: Resource| (canonical_name_spec(r.id@), r@)) =~= all.subrange(
                    0,
                    k as int,
                ).map_values(|r: Resource| (canonical_name_spec(r.id@), r@)).push((canonical_name_spec(r0.id@), r0@)));
                assert(rest@ =~= all.subrange(k + 1, all.len() as int));
            }
            k = k + 1;
        }
        proof {
            assert(all.subrange(0, k as int) =~= all);
        }
        OfflineFixtureSource { resources: entries }
    }

    /// The fixture for `id` (see `fixture_lookup_spec`).
    pub fn fetch_resource(&self, id: &ResourceId) -> (r: Result<Resource, String>)
        ensures
            match r {
                Ok(res) => fixture_lookup_spec(self.entries(), id@) == Ok::<ResourceView, Seq<char>>(res@),
                Err(e) => fixture_lookup_spec(self.entries(), id@) == Err::<ResourceView, Seq<char>>(e@),
            },
    {
        let key = id.canonical_name();
        let ghost entries = self.entries();
        let mut j = self.resources.len();
        while j > 0
            invariant
                j <= self.resources@.len(),
                entries == fixture_entries(self.resources@),
                key@ == canonical_name_spec(id@),
                forall|m: int| j <= m < self.resources@.len() ==> (#[trigger] self.resources@[m]).0@ != key@,
            decreases j,
        {
            if crate::text::str_eq(self.resources[j - 1].0.as_str(), key.as_str()) {
                proof {
                    assert forall|m: int| j - 1 < m < entries.len() implies (#[trigger] entries[m]).0 != key@ by {
                        assert(entries[m].0 == self.resources@[m].0@);
                    }
                    lemma_last_entry_at(entries, key@, j - 1);
                    assert(entries[j - 1] == (self.resources@[j - 1].0@, self.resources@[j - 1].1@));
                }
                let found = self.resources[j - 1].1.deep_copy();
                return Ok(found);
            }
            j = j - 1;
        }
        proof {
            assert forall|m: int| 0 <= m < entries.len() implies (#[trigger] entries[m]).0 != key@ by {
                assert(entries[m].0 == self.resources@[m].0@);
            }
            lemma_last_entry_none(entries, key@);
        }
        let mut e = crate::text::owned("offline fixture mode: no fixture loaded for ");
        push_str(&mut e, key.as_str());
        Err(e)
    }
}

/// Which request a fetch answers, and the tab it was begun from.
#[derive(Debug, Clone, Copy, PartialEq, Eq)]
pub struct FetchOwner {
    pub request_id: u64,
    pub origin_tab_id: u64,
}

impl FetchOwner {
    /// The owner of request `request_id`, begun from tab `origin_tab_id`.
    pub fn new(request_id: u64, origin_tab_id: u64) -> (o: Self)
        ensures
            o.request_id == request_id,
            o.origin_tab_id == origin_tab_id,
    {
        FetchOwner { request_id, origin_tab_id }
    }
}

/// Whether the fetch `owner` answers is the loading request.
pub open spec fn owns_loading(s: AppStateView, owner: FetchOwner) -> bool {
    s.loading is Some && s.loading->0.request_id == owner.request_id
}

/// Ends the loading request when the fetch `owner` answers is the one the
/// interface waits for, dropping every "still loading" message; says
/// whether it was. A fetch overtaken by a later one changes nothing.
pub fn finish_matching_blocking_load(state: &mut AppState, owner: FetchOwner) -> (finished: bool)
    ensures
        finished == owns_loading(old(state)@, owner),
        final(state)@ == if finished { transient_cleared(loading_finished(old(state)@)) } else { old(state)@ },
{
    if !state.loading_request_matches(owner.request_id) {
        return false;
    }
    state.finish_loading();
    state.clear_transient_loading_status_messages();
    true
}

/// A fetch result as values.
pub open spec fn fetch_result_view(r: Result<Resource, String>) -> Result<ResourceView, Seq<char>> {
    match r {
        Ok(x) => Ok(x@),
        Err(e) => Err(e@),
    }
}

/// The state after `f` changed tab `tab_id`: the shown tab's view saved,
/// `f` applied with tab `tab_id` shown, and the tab shown before shown
/// again; only the view saved when no tab has that id.
pub open spec fn tab_update(s: AppStateView, tab_id: u64, f: spec_fn(AppStateView) -> AppStateView) -> AppStateView {
    match tab_entered(s, tab_id) {
        Some(t) => tab_left(f(t), tab_id, active_tab_id(s)),
        None => snapshot(s),
    }
}

/// The state with `r` shown in place of the resource, on the same detail
/// tab when `r` offers it (see `replace_resource_preserve_tab`).
pub open spec fn preserve_replaced(t: AppStateView, r: ResourceView) -> AppStateView {
    snapshot(view_cleared(scroll_reset(AppStateView {
        resource: r,
        active_tab: if tabs_for(view_kind(r)).contains(t.active_tab) { t.active_tab } else { Tab::Overview },
        ..t
    })))
}

/// The state with `r` shown in place of the resource, on its overview
/// (see `replace_resource_reset_view`).
pub open spec fn reset_replaced(t: AppStateView, r: ResourceView) -> AppStateView {
    snapshot(view_cleared(scroll_reset(AppStateView { resource: r, active_tab: Tab::Overview, ..t })))
}

/// `t` with its error and status dropped.
pub open spec fn quiet(t: AppStateView) -> AppStateView {
    AppStateView { last_error: None, status_message: None, ..t }
}

/// The warning a resource carries when its file patches could not be loaded.
pub open spec fn patch_warning(e: Seq<char>) -> Seq<char> {
    FILE_PATCH_CONTEXT_UNAVAILABLE_WARNING@ + ": "@ + e
}

/// `warnings` with `w` added unless it is there.
pub open spec fn with_warning(warnings: Seq<Seq<char>>, w: Seq<char>) -> Seq<Seq<char>> {
    if warnings.contains(w) { warnings } else { warnings.push(w) }
}

/// What a finished fetch does to the tab it was begun from, shown as `t`:
/// a loaded resource is shown (kept on its detail tab for a first load,
/// taken as a refresh for a refresh or full load, merged as file patches
/// into the same resource, put on the history's top for a navigation);
/// an error is recorded, a failed step back keeps its target on the
/// history, and failed file patches mark the same resource with a warning.
pub open spec fn tab_change(t: AppStateView, action: FetchAction, result: Result<ResourceView, Seq<char>>, at: Seq<char>) -> AppStateView {
    match result {
        Ok(r) => match action {
            FetchAction::Initial { .. } => quiet(preserve_replaced(t, r)),
            FetchAction::Refresh { .. } => refreshed(t, r, at),
            FetchAction::LoadFull { .. } => AppStateView { status_message: None, ..refreshed(t, r, at) },
            FetchAction::LoadFilePatches { .. } => if matches_target_spec(t.resource, r.id) {
                file_patch_applied(t, r, at)
            } else {
                t
            },
            FetchAction::OpenTab { .. } => t,
            FetchAction::Navigate { from, .. } => quiet(reset_replaced(AppStateView { history: t.history.push(from@), ..t }, r)),
            FetchAction::Back { .. } => quiet(reset_replaced(t, r)),
        },
        Err(e) => match action {
            FetchAction::Back { to } => AppStateView { history: t.history.push(to@), last_error: Some(e), ..t },
            FetchAction::LoadFilePatches { resource } => if matches_target_spec(t.resource, resource.id@) {
                AppStateView {
                    last_error: Some(e),
                    status_message: None,
                    resource: ResourceView { warnings: with_warning(t.resource.warnings, patch_warning(e)), ..t.resource },
                    ..t
                }
            } else {
                t
            },
            _ => AppStateView { last_error: Some(e), ..t },
        },
    }
}

/// What a finished blocking fetch does to the state: a new tab's resource
/// is opened in a tab (see `opened_in_tab`) with error and status dropped;
/// every other outcome changes the tab the fetch was begun from (see
/// `tab_change`), whichever tab is shown.
pub open spec fn loaded_outcome_spec(s: AppStateView, action: FetchAction, result: Result<ResourceView, Seq<char>>, owner: FetchOwner, at: Seq<char>) -> AppStateView {
    match (action, result) {
        (FetchAction::OpenTab { .. }, Ok(r)) => quiet(opened_in_tab(s, r)),
        _ => tab_update(s, owner.origin_tab_id, |t: AppStateView| tab_change(t, action, result, at)),
    }
}

/// Whether every resource the state holds can have its reactions summed.
pub open spec fn state_summable(s: AppStateView) -> bool {
    &&& view_summable(s.resource)
    &&& forall|i: int| 0 <= i < s.resource_tabs.len() ==> view_summable(#[trigger] s.resource_tabs[i].resource)
}

/// Whether a refresh or full load of `result` can compare fingerprints.
pub open spec fn outcome_summable(s: AppStateView, action: FetchAction, result: Result<ResourceView, Seq<char>>) -> bool {
    (action is Refresh || action is LoadFull) && result is Ok ==> state_summable(s) && view_summable(result->Ok_0)
}

fn file_patch_warning(error: &str) -> (w: String)
    ensures
        w@ == patch_warning(error@),
{
    let mut w = crate::text::owned(FILE_PATCH_CONTEXT_UNAVAILABLE_WARNING);
    push_str(&mut w, ": ");
    push_str(&mut w, error);
    w
}

fn shown_preserved(state: &mut AppState, resource: Resource)
    ensures
        final(state)@ == quiet(preserve_replaced(old(state)@, resource@)),
{
    let ghost r = resource@;
    state.replace_resource_preserve_tab(resource);
    assert(state@ == preserve_replaced(old(state)@, r));
    state.last_error = None;
    state.status_message = None;
}

fn shown_reset(state: &mut AppState, resource: Resource)
    ensures
        final(state)@ == quiet(reset_replaced(old(state)@, resource@)),
{
    state.replace_resource_reset_view(resource);
    state.last_error = None;
    state.status_message = None;
}

fn refreshed_in(state: &mut AppState, resource: Resource, refreshed_at: String, full: bool)
    requires
        view_summable(old(state)@.resource),
        view_summable(resource@),
    ensures
        final(state)@ == if full {
            AppStateView { status_message: None, ..refreshed(old(state)@, resource@, refreshed_at@) }
        } else {
            refreshed(old(state)@, resource@, refreshed_at@)
        },
{
    proof {
        lemma_view_summable(state.resource);
        lemma_view_summable(resource);
    }
    state.apply_refreshed_resource(resource, refreshed_at);
    if full {
        state.status_message = None;
    }
}

fn patches_loaded(state: &mut AppState, resource: Resource, refreshed_at: String)
    ensures
        final(state)@ == if matches_target_spec(old(state)@.resource, resource@.id) {
            file_patch_applied(old(state)@, resource@, refreshed_at@)
        } else {
            old(state)@
        },
{
    if resource_matches_target(&state.resource, &resource.id) {
        state.apply_file_patch_resource(resource, refreshed_at);
    }
}

fn shown_with_history(state: &mut AppState, from: ResourceId, resource: Resource)
    ensures
        final(state)@ == quiet(reset_replaced(AppStateView { history: old(state)@.history.push(from@), ..old(state)@ }, resource@)),
{
    let ghost h = old(state)@.history;
    let ghost f = from@;
    state.history.push(from);
    proof {
        assert(state@.history =~= h.push(f));
    }
    state.replace_resource_reset_view(resource);
    state.last_error = None;
    state.status_message = None;
}

fn back_failed(state: &mut AppState, to: ResourceId, error: String)
    ensures
        final(state)@ == (AppStateView { history: old(state)@.history.push(to@), last_error: Some(error@), ..old(state)@ }),
{
    let ghost h = old(state)@.history;
    let ghost t = to@;
    state.history.push(to);
    proof {
        assert(state@.history =~= h.push(t));
    }
    state.last_error = Some(error);
}

fn patches_failed(state: &mut AppState, target: &ResourceId, error: String)
    ensures
        final(state)@ == if matches_target_spec(old(state)@.resource, target@) {
            AppStateView {
                last_error: Some(error@),
                status_message: None,
                resource: ResourceView {
                    warnings: with_warning(old(state)@.resource.warnings, patch_warning(error@)),
                    ..old(state)@.resource
                },
                ..old(state)@
            }
        } else {
            old(state)@
        },
{
    if resource_matches_target(&state.resource, target) {
        let warning = file_patch_warning(error.as_str());
        state.last_error = Some(error);
        state.status_message = None;
        push_unique_warning(&mut state.resource, warning);
    }
}

/// Applies a loaded resource to the shown tab (see `tab_change`).
fn loaded_into_tab(state: &mut AppState, action: FetchAction, resource: Resource, refreshed_at: String)
    requires
        action is Refresh || action is LoadFull ==> view_summable(old(state)@.resource) && view_summable(resource@),
    ensures
        final(state)@ == tab_change(old(state)@, action, Ok::<ResourceView, Seq<char>>(resource@), refreshed_at@),
{
    match action {
        FetchAction::Initial { .. } => shown_preserved(state, resource),
        FetchAction::Refresh { .. } => {
            refreshed_in(state, resource, refreshed_at, false);
        },
        FetchAction::LoadFull { .. } => {
            refreshed_in(state, resource, refreshed_at, true);
        },
        FetchAction::LoadFilePatches { .. } => patches_loaded(state, resource, refreshed_at),
        FetchAction::OpenTab { .. } => {},
        FetchAction::Navigate { from, .. } => shown_with_history(state, from, resource),
        FetchAction::Back { .. } => shown_reset(state, resource),
    }
}

/// Applies a failed fetch to the shown tab (see `tab_change`).
fn failed_in_tab(state: &mut AppState, action: FetchAction, error: String, refreshed_at: Ghost<Seq<char>>)
    ensures
        final(state)@ == tab_change(old(state)@, action, Err::<ResourceView, Seq<char>>(error@), refreshed_at@),
{
    match action {
        FetchAction::Back { to } => back_failed(state, to, error),
        FetchAction::LoadFilePatches { resource } => patches_failed(state, &resource.id, error),
        _ => {
            state.last_error = Some(error);
        },
    }
}

/// Applies a finished fetch to the shown tab (see `tab_change`).
fn change_entered_tab(state: &mut AppState, action: FetchAction, result: Result<Resource, String>, refreshed_at: String)
    requires
        (action is Refresh || action is LoadFull) && result is Ok ==> view_summable(old(state)@.resource)
            && view_summable(result->Ok_0@),
    ensures
        final(state)@ == tab_change(old(state)@, action, fetch_result_view(result), refreshed_at@),
{
    match result {
        Ok(resource) => loaded_into_tab(state, action, resource, refreshed_at),
        Err(error) => failed_in_tab(state, action, error, Ghost(refreshed_at@)),
    }
}

/// Applies a finished blocking fetch (see `loaded_outcome_spec`).
pub fn apply_loaded_resource_outcome(state: &mut AppState, action: FetchAction, result: Result<Resource, String>, owner: FetchOwner, refreshed_at: String)
    requires
        outcome_summable(old(state)@, action, fetch_result_view(result)),
    ensures
        final(state)@ == loaded_outcome_spec(old(state)@, action, fetch_result_view(result), owner, refreshed_at@),
{
    let is_open_tab = match action {
        FetchAction::OpenTab { .. } => result.is_ok(),
        _ => false,
    };
    if is_open_tab {
        match result {
            Ok(resource) => {
                state.open_resource_in_tab(resource);
                state.last_error = None;
                state.status_message = None;
            },
            Err(_) => {},
        }
        return;
    }
    let tab_id = owner.origin_tab_id;
    let ghost s = old(state)@;
    match state.enter_resource_tab(tab_id) {
        None => {},
        Some(previous) => {
            proof {
                let s1 = snapshot(s);
                let i = first_index(s1.resource_tabs, has_tab_id(tab_id))->0;
                lemma_first_index(s1.resource_tabs, has_tab_id(tab_id));
                if (action is Refresh || action is LoadFull) && result is Ok {
                    if s.active_resource_tab < s.resource_tabs.len() && i == s.active_resource_tab {
                        assert(s1.resource_tabs[i].resource == s.resource);
                    } else {
                        assert(s1.resource_tabs[i] == s.resource_tabs[i]);
                        assert(view_summable(s.resource_tabs[i].resource));
                    }
                }
            }
            change_entered_tab(state, action, result, refreshed_at);
            state.leave_resource_tab(tab_id, previous);
        },
    }
}

proof fn lemma_finish_keeps_summable(s: AppStateView)
    requires
        state_summable(s),
    ensures
        state_summable(transient_cleared(loading_finished(s))),
{
    let t = transient_cleared(loading_finished(s));
    assert forall|i: int| 0 <= i < t.resource_tabs.len() implies view_summable(#[trigger] t.resource_tabs[i].resource) by {
        assert(t.resource_tabs[i].resource == s.resource_tabs[i].resource);
    }
}

/// What a finished one-step fetch does: nothing unless it answers the
/// awaited load; else the load ends, its "still loading" messages go, and
/// the outcome is applied (see `loaded_outcome_spec`).
pub open spec fn blocking_outcome_spec(s: AppStateView, action: FetchAction, result: Result<ResourceView, Seq<char>>, owner: FetchOwner, at: Seq<char>) -> AppStateView {
    if owns_loading(s, owner) {
        loaded_outcome_spec(transient_cleared(loading_finished(s)), action, result, owner, at)
    } else {
        s
    }
}

/// Applies a finished one-step fetch (see `blocking_outcome_spec`).
pub fn apply_blocking_fetch_outcome(state: &mut AppState, action: FetchAction, result: Result<Resource, String>, owner: FetchOwner, refreshed_at: String)
    requires
        outcome_summable(old(state)@, action, fetch_result_view(result)),
    ensures
        final(state)@ == blocking_outcome_spec(old(state)@, action, fetch_result_view(result), owner, refreshed_at@),
{
    proof {
        if (action is Refresh || action is LoadFull) && result is Ok {
            lemma_finish_keeps_summable(old(state)@);
        }
    }
    if !finish_matching_blocking_load(state, owner) {
        return;
    }
    apply_loaded_resource_outcome(state, action, result, owner, refreshed_at);
}

/// The status shown while a loaded resource's details load in the background.
pub open spec fn enrichment_status(t: AppStateView, target: IdView) -> AppStateView {
    if matches_target_spec(t.resource, target)
        && !has_warning_starting_with(t.resource.warnings, PUBLIC_REST_FALLBACK_WARNING_PREFIX@) {
        AppStateView { status_message: Some("loading additional GitHub details"@), ..t }
    } else {
        t
    }
}

/// What the first, base step of a progressive fetch does: as a one-step
/// fetch (see `blocking_outcome_spec`), and when the base loaded, the tab
/// it was begun from says that more details are on their way, if it still
/// shows that resource and the details will be fetched.
pub open spec fn base_outcome_spec(s: AppStateView, action: FetchAction, result: Result<ResourceView, Seq<char>>, owner: FetchOwner, at: Seq<char>) -> AppStateView {
    if !owns_loading(s, owner) {
        s
    } else {
        let t = blocking_outcome_spec(s, action, result, owner, at);
        if result is Ok {
            tab_update(t, owner.origin_tab_id, |u: AppStateView| enrichment_status(u, action_target(action)))
        } else {
            t
        }
    }
}

fn mark_enrichment_pending(state: &mut AppState, target: &ResourceId)
    ensures
        final(state)@ == enrichment_status(old(state)@, target@),
{
    if resource_matches_target(&state.resource, target) && should_enqueue_enrichment(&state.resource) {
        state.status_message = Some(crate::text::owned("loading additional GitHub details"));
        proof {
            reveal_strlit("loading additional GitHub details");
        }
    }
}

/// Applies the base step of a progressive fetch (see `base_outcome_spec`).
pub fn apply_base_fetch_outcome(state: &mut AppState, action: FetchAction, result: Result<Resource, String>, owner: FetchOwner, refreshed_at: String)
    requires
        outcome_summable(old(state)@, action, fetch_result_view(result)),
    ensures
        final(state)@ == base_outcome_spec(old(state)@, action, fetch_result_view(result), owner, refreshed_at@),
{
    if !state.loading_request_matches(owner.request_id) {
        return;
    }
    let origin_tab_id = owner.origin_tab_id;
    let target = action.target().deep_copy();
    let base_loaded = result.is_ok();
    apply_blocking_fetch_outcome(state, action, result, owner, refreshed_at);
    if base_loaded {
        match state.enter_resource_tab(origin_tab_id) {
            None => {},
            Some(previous) => {
                mark_enrichment_pending(state, &target);
                state.leave_resource_tab(origin_tab_id, previous);
            },
        }
    }
}

/// What a finished file-diff load for `target` does to the tab it was
/// begun from, shown as `t`: nothing unless it is the file-diff load under
/// way; else that load ends and, when the shown resource is the one the
/// load was for, the loaded patches are merged in (see
/// `file_patch_applied`) or the error is recorded and the resource is
/// marked with a patch warning.
pub open spec fn patch_tab_change(t: AppStateView, target: IdView, request_id: u64, result: Result<ResourceView, Seq<char>>, at: Seq<char>) -> AppStateView {
    if t.file_patch_request_id == Some(request_id) {
        let u = AppStateView { file_patch_request_id: None, ..t };
        if matches_target_spec(u.resource, target) {
            match result {
                Ok(r) => file_patch_applied(u, r, at),
                Err(e) => AppStateView {
                    last_error: Some(e),
                    resource: ResourceView { warnings: with_warning(u.resource.warnings, patch_warning(e)), ..u.resource },
                    ..u
                },
            }
        } else {
            u
        }
    } else {
        t
    }
}

/// A file-diff load's outcome ends that load, so it is applied at most
/// once: the same outcome arriving again changes nothing.
pub proof fn law_patch_outcome_applies_once(t: AppStateView, target: IdView, request_id: u64, result: Result<ResourceView, Seq<char>>, at: Seq<char>)
    ensures
        patch_tab_change(patch_tab_change(t, target, request_id, result, at), target, request_id, result, at)
            == patch_tab_change(t, target, request_id, result, at),
{
    let once = patch_tab_change(t, target, request_id, result, at);
    if t.file_patch_request_id == Some(request_id) {
        assert(once.file_patch_request_id is None);
    }
}

/// What a finished file-diff load does to the state: it changes the tab it
/// was begun from (see `patch_tab_change`), whichever tab is shown.
pub open spec fn file_patch_outcome_spec(s: AppStateView, action: FetchAction, result: Result<ResourceView, Seq<char>>, owner: FetchOwner, at: Seq<char>) -> AppStateView {
    tab_update(s, owner.origin_tab_id, |t: AppStateView| patch_tab_change(t, action_target(action), owner.request_id, result, at))
}

fn patch_outcome_in_tab(state: &mut AppState, target: &ResourceId, result: Result<Resource, String>, request_id: u64, refreshed_at: String)
    ensures
        final(state)@ == patch_tab_change(old(state)@, target@, request_id, fetch_result_view(result), refreshed_at@),
{
    if state.finish_file_patch_loading(request_id) && resource_matches_target(&state.resource, target) {
        match result {
            Ok(resource) => state.apply_file_patch_resource(resource, refreshed_at),
            Err(error) => {
                let warning = file_patch_warning(error.as_str());
                state.last_error = Some(error);
                push_unique_warning(&mut state.resource, warning);
            },
        }
    }
}

/// Applies a finished file-diff load (see `file_patch_outcome_spec`).
pub fn apply_file_patch_fetch_outcome(state: &mut AppState, action: FetchAction, result: Result<Resource, String>, owner: FetchOwner, refreshed_at: String)
    ensures
        final(state)@ == file_patch_outcome_spec(old(state)@, action, fetch_result_view(result), owner, refreshed_at@),
{
    let target = action.target().deep_copy();
    let tab_id = owner.origin_tab_id;
    match state.enter_resource_tab(tab_id) {
        None => {},
        Some(previous) => {
            patch_outcome_in_tab(state, &target, result, owner.request_id, refreshed_at);
            state.leave_resource_tab(tab_id, previous);
        },
    }
}

/// The warning a resource carries when its background details could not
/// be loaded.
pub open spec fn details_warning(e: Seq<char>) -> Seq<char> {
    "background details unavailable: "@ + e
}

/// What finished background details for `target` do to the tab the fetch
/// was begun from, shown as `t`: nothing unless that fetch is still the
/// tab's latest and the shown resource is the one it was for; else the
/// details are shown (see `enriched`), or, on an error, the status goes and
/// the resource is marked with a warning, the error itself not recorded.
pub open spec fn enrichment_tab_change(t: AppStateView, target: IdView, request_id: u64, result: Result<ResourceView, Seq<char>>, at: Seq<char>) -> AppStateView {
    if t.latest_fetch_request_id == request_id && matches_target_spec(t.resource, target) {
        match result {
            Ok(r) => enriched(t, r, at),
            Err(e) => AppStateView {
                status_message: None,
                resource: ResourceView { warnings: with_warning(t.resource.warnings, details_warning(e)), ..t.resource },
                ..t
            },
        }
    } else {
        t
    }
}

/// What finished background details do to the state: they change the tab
/// the fetch was begun from (see `enrichment_tab_change`), whichever tab is
/// shown; the loading request stays as it is.
pub open spec fn enrichment_outcome_spec(s: AppStateView, action: FetchAction, result: Result<ResourceView, Seq<char>>, owner: FetchOwner, at: Seq<char>) -> AppStateView {
    tab_update(s, owner.origin_tab_id, |t: AppStateView| enrichment_tab_change(t, action_target(action), owner.request_id, result, at))
}

fn details_warning_of(error: &str) -> (w: String)
    ensures
        w@ == details_warning(error@),
{
    let mut w = crate::text::owned("background details unavailable: ");
    push_str(&mut w, error);
    proof {
        reveal_strlit("background details unavailable: ");
    }
    w
}

fn enrichment_in_tab(state: &mut AppState, target: &ResourceId, result: Result<Resource, String>, request_id: u64, refreshed_at: String)
    ensures
        final(state)@ == enrichment_tab_change(old(state)@, target@, request_id, fetch_result_view(result), refreshed_at@),
{
    if state.latest_fetch_request_matches(request_id) && resource_matches_target(&state.resource, target) {
        match result {
            Ok(resource) => state.apply_enriched_resource(resource, refreshed_at),
            Err(error) => {
                let warning = details_warning_of(error.as_str());
                state.status_message = None;
                push_unique_warning(&mut state.resource, warning);
            },
        }
    }
}

/// Applies finished background details (see `enrichment_outcome_spec`).
pub fn apply_enrichment_fetch_outcome(state: &mut AppState, action: FetchAction, result: Result<Resource, String>, owner: FetchOwner, refreshed_at: String)
    ensures
        final(state)@ == enrichment_outcome_spec(old(state)@, action, fetch_result_view(result), owner, refreshed_at@),
{
    let target = action.target().deep_copy();
    let tab_id = owner.origin_tab_id;
    match state.enter_resource_tab(tab_id) {
        None => {},
        Some(previous) => {
            enrichment_in_tab(state, &target, result, owner.request_id, refreshed_at);
            state.leave_resource_tab(tab_id, previous);
        },
    }
}

/// The step of a fetch an outcome answers.
#[derive(Debug, Clone, Copy, PartialEq, Eq)]
pub enum FetchStage {
    /// The whole resource, in one step.
    Complete,
    /// The first, quick part of a progressive load.
    Base,
    /// The background details that follow a base.
    Enrichment,
    /// The file diffs, loaded on their own.
    FilePatches,
}

/// What a finished fetch step does to the state, by its stage.
pub open spec fn fetch_outcome_spec(s: AppStateView, stage: FetchStage, action: FetchAction, result: Result<ResourceView, Seq<char>>, owner: FetchOwner, at: Seq<char>) -> AppStateView {
    match stage {
        FetchStage::Complete => blocking_outcome_spec(s, action, result, owner, at),
        FetchStage::Base => base_outcome_spec(s, action, result, owner, at),
        FetchStage::Enrichment => enrichment_outcome_spec(s, action, result, owner, at),
        FetchStage::FilePatches => file_patch_outcome_spec(s, action, result, owner, at),
    }
}

/// Applies a finished fetch step (see `fetch_outcome_spec`).
pub fn apply_fetch_outcome(state: &mut AppState, stage: FetchStage, action: FetchAction, result: Result<Resource, String>, owner: FetchOwner, refreshed_at: String)
    requires
        stage is Complete || stage is Base ==> outcome_summable(old(state)@, action, fetch_result_view(result)),
    ensures
        final(state)@ == fetch_outcome_spec(old(state)@, stage, action, fetch_result_view(result), owner, refreshed_at@),
{
    match stage {
        FetchStage::Complete => apply_blocking_fetch_outcome(state, action, result, owner, refreshed_at),
        FetchStage::Base => apply_base_fetch_outcome(state, action, result, owner, refreshed_at),
        FetchStage::Enrichment => apply_enrichment_fetch_outcome(state, action, result, owner, refreshed_at),
        FetchStage::FilePatches => apply_file_patch_fetch_outcome(state, action, result, owner, refreshed_at),
    }
}

/// How a fetch starts.
#[derive(Debug, Clone, Copy, PartialEq, Eq)]
pub enum FetchStart {
    /// A file-diff load began, beside any blocking load, for this owner.
    FilePatches(FetchOwner),
    /// Another load of the same sort is running: the request is refused.
    Busy,
    /// The load began, for this owner.
    Started(FetchOwner),
}

/// What asking for `action` does: file diffs load on their own, refused
/// while another file-diff load runs and else begun from the shown tab
/// under the next request id; while a blocking load runs, any other
/// request is refused with a "still loading" status (and a refresh is
/// remembered for later); otherwise loading begins from the shown tab,
/// under the next request id, shown as the action's message.
pub open spec fn begin_fetch_spec(s: AppStateView, action: FetchAction) -> (AppStateView, FetchStart) {
    if action is LoadFilePatches {
        if s.file_patch_request_id is Some {
            (s, FetchStart::Busy)
        } else {
            let id = s.next_loading_request_id;
            (
                AppStateView {
                    next_loading_request_id: crate::app::tabs::sat_inc(id),
                    file_patch_request_id: Some(id),
                    ..s
                },
                FetchStart::FilePatches(FetchOwner { request_id: id, origin_tab_id: active_tab_id(s) }),
            )
        }
    } else if s.loading is Some {
        (
            AppStateView {
                refresh_requested: if action is Refresh { true } else { s.refresh_requested },
                status_message: Some("still loading: "@ + s.loading->0.message),
                ..s
            },
            FetchStart::Busy,
        )
    } else {
        let id = s.next_loading_request_id;
        (
            AppStateView {
                next_loading_request_id: crate::app::tabs::sat_inc(id),
                latest_fetch_request_id: id,
                file_patch_request_id: None,
                loading: Some(LoadingView {
                    target: action_target(action),
                    message: loading_message_spec(action),
                    request_id: id,
                    origin_tab_id: active_tab_id(s),
                    frame: 0,
                }),
                last_error: None,
                ..s
            },
            FetchStart::Started(FetchOwner { request_id: id, origin_tab_id: active_tab_id(s) }),
        )
    }
}

/// Starts the fetch `action` asks for (see `begin_fetch_spec`); the caller
/// runs it, progressively when `action.can_load_progressively()` and the
/// source supports it.
pub fn begin_fetch(state: &mut AppState, action: &FetchAction) -> (r: FetchStart)
    ensures
        (final(state)@, r) == begin_fetch_spec(old(state)@, *action),
{
    if let FetchAction::LoadFilePatches { .. } = action {
        if state.file_patch_request_id.is_some() {
            return FetchStart::Busy;
        }
        let origin_tab_id = state.active_resource_tab_id();
        let request_id = state.begin_file_patch_loading();
        return FetchStart::FilePatches(FetchOwner::new(request_id, origin_tab_id));
    }
    let busy = match state.loading_message() {
        Some(message) => {
            let mut status = crate::text::owned("still loading: ");
            push_str(&mut status, message);
            Some(status)
        },
        None => None,
    };
    match busy {
        Some(status) => {
            refuse_while_loading(state, action, status);
            FetchStart::Busy
        },
        None => FetchStart::Started(start_loading(state, action)),
    }
}

fn refuse_while_loading(state: &mut AppState, action: &FetchAction, status: String)
    ensures
        final(state)@ == (AppStateView {
            refresh_requested: if *action is Refresh { true } else { old(state)@.refresh_requested },
            status_message: Some(status@),
            ..old(state)@
        }),
{
    if let FetchAction::Refresh { .. } = action {
        state.refresh_requested = true;
    }
    state.status_message = Some(status);
}

fn start_loading(state: &mut AppState, action: &FetchAction) -> (owner: FetchOwner)
    requires
        !(*action is LoadFilePatches),
        old(state)@.loading is None,
    ensures
        (final(state)@, FetchStart::Started(owner)) == begin_fetch_spec(old(state)@, *action),
{
    let origin_tab_id = state.active_resource_tab_id();
    let target = action.target().deep_copy();
    let message = action.loading_message();
    let request_id = state.begin_loading(target, message);
    FetchOwner::new(request_id, origin_tab_id)
}

/// The state after a refresh of `target` begins from the shown tab `t`,
/// with no blocking load running (see `begin_fetch_spec`).
pub open spec fn refresh_begun(t: AppStateView, target: IdView) -> AppStateView {
    let id = t.next_loading_request_id;
    AppStateView {
        next_loading_request_id: crate::app::tabs::sat_inc(id),
        latest_fetch_request_id: id,
        file_patch_request_id: None,
        loading: Some(LoadingView {
            target,
            message: "refreshing "@ + canonical_name_spec(target) + " from GitHub"@,
            request_id: id,
            origin_tab_id: active_tab_id(t),
            frame: 0,
        }),
        last_error: None,
        ..t
    }
}

/// Owed refreshes taken in order, while no blocking load runs: an entry
/// whose tab is gone or shows another resource is dropped; the first whose
/// tab still shows its resource begins that refresh from the tab, and the
/// entries after it stay owed. Gives the state, the entries still owed, and
/// the refresh begun with its owner, if any.
pub open spec fn owed_refreshes(s: AppStateView, entries: Seq<(u64, IdView)>) -> (AppStateView, Seq<(u64, IdView)>, Option<(FetchOwner, IdView)>)
    decreases entries.len(),
{
    if entries.len() == 0 {
        (s, entries, None)
    } else {
        let e = entries[0];
        match tab_entered(s, e.0) {
            Some(t) => if matches_target_spec(t.resource, e.1) {
                (
                    tab_left(refresh_begun(t, e.1), e.0, active_tab_id(s)),
                    entries.drop_first(),
                    Some((FetchOwner { request_id: t.next_loading_request_id, origin_tab_id: active_tab_id(t) }, e.1)),
                )
            } else {
                owed_refreshes(tab_left(t, e.0, active_tab_id(s)), entries.drop_first())
            },
            None => owed_refreshes(snapshot(s), entries.drop_first()),
        }
    }
}

/// What starting the owed refreshes does: nothing while a blocking load
/// runs; else the owed entries are taken in order (see `owed_refreshes`)
/// and those still owed are kept.
pub open spec fn pending_refreshes_spec(s: AppStateView) -> (AppStateView, Option<(FetchOwner, IdView)>) {
    if s.loading is Some {
        (s, None)
    } else {
        let r = owed_refreshes(AppStateView { pending_action_refreshes: Seq::empty(), ..s }, s.pending_action_refreshes);
        (AppStateView { pending_action_refreshes: r.1, ..r.0 }, r.2)
    }
}

/// Starts the first refresh owed to a tab after an action that can start
/// (see `pending_refreshes_spec`), and gives its owner and the resource to
/// refresh, for the caller to run.
pub fn start_pending_action_refreshes(state: &mut AppState) -> (started: Option<(FetchOwner, ResourceId)>)
    ensures
        final(state)@ == pending_refreshes_spec(old(state)@).0,
        pending_refreshes_spec(old(state)@).1 == match started {
            Some((owner, target)) => Some((owner, target@)),
            None => None,
        },
{
    if state.loading.is_some() {
        return None;
    }
    let ghost s0 = old(state)@;
    let mut entries: Vec<(u64, ResourceId)> = Vec::new();
    std::mem::swap(&mut entries, &mut state.pending_action_refreshes);
    proof {
        assert(state@.pending_action_refreshes =~= Seq::<(u64, IdView)>::empty());
        assert(state@ == AppStateView { pending_action_refreshes: Seq::empty(), ..s0 });
        assert(entry_views(entries@) == s0.pending_action_refreshes);
    }
    let ghost goal = owed_refreshes(state@, entry_views(entries@));
    while entries.len() > 0
        invariant
            owed_refreshes(state@, entry_views(entries@)) == goal,
            goal == owed_refreshes(
                AppStateView { pending_action_refreshes: Seq::empty(), ..old(state)@ },
                old(state)@.pending_action_refreshes,
            ),
            old(state)@.loading is None,
            state@.loading is None,
            state@.pending_action_refreshes == Seq::<(u64, IdView)>::empty(),
        decreases entries.len(),
    {
        let ghost before = entry_views(entries@);
        let (tab_id, target) = entries.remove(0);
        proof {
            assert(entry_views(entries@) =~= before.drop_first());
            assert(before[0] == (tab_id, target@));
        }
        match state.enter_resource_tab(tab_id) {
            None => {},
            Some(previous) => {
                if resource_matches_target(&state.resource, &target) {
                    let action = FetchAction::Refresh { id: target.deep_copy() };
                    let r = begin_fetch(state, &action);
                    state.leave_resource_tab(tab_id, previous);
                    let ghost rest = entry_views(entries@);
                    state.pending_action_refreshes = entries;
                    proof {
                        assert(state@.pending_action_refreshes == rest);
                    }
                    return match r {
                        FetchStart::Started(owner) => Some((owner, target)),
                        _ => None,
                    };
                } else {
                    state.leave_resource_tab(tab_id, previous);
                }
            },
        }
    }
    proof {
        assert(entry_views(entries@) =~= Seq::<(u64, IdView)>::empty());
    }
    None
}

/// A warning added twice is carried once: adding a warning the resource
/// already carries leaves its warnings as they are.
pub proof fn law_unique_warning_added_once(warnings: Seq<Seq<char>>, w: Seq<char>)
    ensures
        ({
            let once = if warnings.contains(w) { warnings } else { warnings.push(w) };
            &&& once.contains(w)
            &&& (if once.contains(w) { once } else { once.push(w) }) == once
        }),
{
    if !warnings.contains(w) {
        assert(warnings.push(w)[warnings.len() as int] == w);
    }
}

} // verus!

//! What holds of the interface state across its operations.
use vstd::prelude::*;

use crate::app::app_state::{
    captured, first_index, lemma_first_index, restore, revealed, scroll_reset, shown_tabs, snapshot,
    wf, AppStateView,
};
use crate::app::content::{lemma_toggled, restored_session, tab_after, tab_before, tab_place, toggled};
use crate::app::state::{fresh_tab, BlockIdView, Tab, TabStateView};
use crate::app::tabs::{closed_tab, opened_in_tab, shows_named};
use crate::domain::resource::ResourceView;
use crate::domain::resource_id::canonical_name_spec;

verus! {

/// Switching to another resource tab and back shows the first tab's view
/// as it was: its resource, scroll, expanded blocks, history, refresh
/// record, error and status, and its detail tab when the resource offers it.
pub proof fn law_switching_tabs_preserves_view(s: AppStateView, other: int)
    requires
        wf(s),
        s.resource_tabs.len() <= usize::MAX,
        0 <= other < s.resource_tabs.len(),
        other != s.active_resource_tab,
    ensures
        ({
            let a = s.active_resource_tab as int;
            let back = restore(snapshot(restore(snapshot(s), other)), a);
            &&& back.active_resource_tab == s.active_resource_tab
            &&& back.resource == s.resource
            &&& back.latest_fetch_request_id == s.latest_fetch_request_id
            &&& back.scroll == s.scroll
            &&& back.scroll_limit == s.scroll_limit
            &&& back.reverse_chronological == s.reverse_chronological
            &&& back.expanded_blocks == s.expanded_blocks
            &&& back.history == s.history
            &&& back.last_refreshed_at == s.last_refreshed_at
            &&& back.last_refresh_had_changes == s.last_refresh_had_changes
            &&& back.last_refresh_changed_sections == s.last_refresh_changed_sections
            &&& back.last_error == s.last_error
            &&& back.status_message == s.status_message
            &&& shown_tabs(s).contains(s.active_tab) ==> back.active_tab == s.active_tab
            &&& back.resource_tabs.len() == s.resource_tabs.len()
        }),
{
    let a = s.active_resource_tab as int;
    let s1 = restore(snapshot(s), other);
    let s2 = snapshot(s1);
    assert(snapshot(s).resource_tabs.len() == s.resource_tabs.len());
    assert(s1.resource_tabs[a] == snapshot(s).resource_tabs[a]);
    assert(s1.active_resource_tab as int == other);
    assert(s1.resource_tabs.len() == s.resource_tabs.len());
    assert(s2.resource_tabs == s1.resource_tabs.update(other, s2.resource_tabs[other]));
    assert(s2.resource_tabs[a] == s1.resource_tabs[a]);
}

/// Toggling a block twice leaves the set of expanded blocks as it was, and
/// a single toggle flips exactly that block.
pub proof fn law_toggle_block_twice(blocks: Seq<BlockIdView>, b: BlockIdView, c: BlockIdView)
    ensures
        toggled(toggled(blocks, b), b).contains(c) == blocks.contains(c),
        toggled(blocks, b).contains(b) == !blocks.contains(b),
{
    lemma_toggled(blocks, b, c);
    lemma_toggled(toggled(blocks, b), b, c);
    lemma_toggled(blocks, b, b);
}

/// Scrolling never passes the limit: from a scroll within the limit,
/// scrolling down by any number of lines stays within it, and at the limit
/// it stays put.
pub proof fn law_scroll_down_stays_within_limit(s: AppStateView, lines: u16)
    requires
        s.scroll <= s.scroll_limit,
    ensures
        ({
            let t = revealed(AppStateView {
                scroll: if s.scroll + lines >= s.scroll_limit { s.scroll_limit } else { (s.scroll + lines) as u16 },
                ..s
            });
            &&& t.scroll <= t.scroll_limit
            &&& s.scroll == s.scroll_limit ==> t.scroll == s.scroll
        }),
{
}

/// The detail tab before the one after the shown tab is the shown tab, when
/// the resource offers it.
pub proof fn law_previous_tab_undoes_next_tab(s: AppStateView)
    requires
        shown_tabs(s).contains(s.active_tab),
    ensures
        tab_before(scroll_reset(AppStateView { active_tab: tab_after(s), ..s })) == s.active_tab,
{
    let tabs = shown_tabs(s);
    let p = |t: Tab| t == s.active_tab;
    lemma_first_index(tabs, p);
    let i = tab_place(s);
    let j = (i + 1) % tabs.len() as int;
    let t = scroll_reset(AppStateView { active_tab: tab_after(s), ..s });
    assert(shown_tabs(t) == tabs);
    let q = |x: Tab| x == t.active_tab;
    lemma_first_index(tabs, q);
    assert(tabs.len() == 3 || tabs.len() == 6);
    assert forall|k: int, m: int| 0 <= k < tabs.len() && 0 <= m < tabs.len() && k != m implies tabs[k] != tabs[m] by {}
    assert(tab_place(t) == j);
}

/// Opening and closing resource tabs keeps the state well formed: a tab is
/// always shown, and closing never removes the last one.
pub proof fn law_tab_changes_keep_a_tab_shown(s: AppStateView, r: ResourceView, index: int)
    requires
        wf(s),
    ensures
        wf(opened_in_tab(s, r)),
        0 <= index < s.resource_tabs.len() && s.resource_tabs.len() > 1 ==> wf(closed_tab(s, index))
            && closed_tab(s, index).resource_tabs.len() == s.resource_tabs.len() - 1,
{
    let s1 = snapshot(s);
    lemma_first_index(s1.resource_tabs, shows_named(canonical_name_spec(r.id)));
}

/// Opening a resource that a tab already shows (the shown one included)
/// adds no tab; opening any other adds exactly one.
pub proof fn law_opening_a_shown_resource_adds_no_tab(s: AppStateView, r: ResourceView)
    requires
        wf(s),
    ensures
        first_index(snapshot(s).resource_tabs, shows_named(canonical_name_spec(r.id))) is Some
            ==> opened_in_tab(s, r).resource_tabs.len() == s.resource_tabs.len(),
        canonical_name_spec(s.resource.id) == canonical_name_spec(r.id)
            ==> opened_in_tab(s, r).resource_tabs.len() == s.resource_tabs.len(),
        first_index(snapshot(s).resource_tabs, shows_named(canonical_name_spec(r.id))) is None
            ==> opened_in_tab(s, r).resource_tabs.len() == s.resource_tabs.len() + 1,
{
    let s1 = snapshot(s);
    let p = shows_named(canonical_name_spec(r.id));
    lemma_first_index(s1.resource_tabs, p);
    if canonical_name_spec(s.resource.id) == canonical_name_spec(r.id) {
        assert(p(s1.resource_tabs[s.active_resource_tab as int]));
    }
}

/// A session saved from the interface and restored shows what was shown
/// when it was saved: the same tabs, the same active tab, and that tab's
/// resource, scroll, expanded blocks, history, refresh record, error and
/// status, and its detail tab when the resource offers it.
pub proof fn law_restored_session_shows_saved_view(s: AppStateView, config_path: Seq<char>)
    requires
        wf(s),
    ensures
        ({
            let saved = snapshot(s).resource_tabs;
            let r = restored_session(saved, s.active_resource_tab as int, config_path);
            &&& r.resource_tabs == saved
            &&& r.active_resource_tab == s.active_resource_tab
            &&& r.resource == s.resource
            &&& r.latest_fetch_request_id == s.latest_fetch_request_id
            &&& r.scroll == s.scroll
            &&& r.scroll_limit == s.scroll_limit
            &&& r.reverse_chronological == s.reverse_chronological
            &&& r.expanded_blocks == s.expanded_blocks
            &&& r.history == s.history
            &&& r.last_refreshed_at == s.last_refreshed_at
            &&& r.last_refresh_had_changes == s.last_refresh_had_changes
            &&& r.last_refresh_changed_sections == s.last_refresh_changed_sections
            &&& r.last_error == s.last_error
            &&& r.status_message == s.status_message
            &&& r.config_path == config_path
            &&& shown_tabs(s).contains(s.active_tab) ==> r.active_tab == s.active_tab
        }),
{
    let saved = snapshot(s).resource_tabs;
    let a = s.active_resource_tab as int;
    assert(saved.len() == s.resource_tabs.len());
    assert(saved[a] == captured(s, s.resource_tabs[a].id));
}

/// No two tabs show resources of the same canonical name.
pub open spec fn names_distinct(tabs: Seq<TabStateView>) -> bool {
    forall|i: int, j: int| 0 <= i < j < tabs.len() ==>
        canonical_name_spec(#[trigger] tabs[i].resource.id) != canonical_name_spec(#[trigger] tabs[j].resource.id)
}

/// Opening a resource keeps one tab per resource: when the tabs, as saved,
/// show resources of distinct canonical names, they still do after the
/// resource is opened, and the opened resource is the one shown: in the tab
/// that showed a resource of its name, made active, with as many tabs as
/// before, or else in a new last tab under the next tab id, made active.
pub proof fn law_open_keeps_tab_names_distinct(s: AppStateView, r: ResourceView)
    requires
        wf(s),
        s.resource_tabs.len() < usize::MAX,
        names_distinct(snapshot(s).resource_tabs),
    ensures
        names_distinct(opened_in_tab(s, r).resource_tabs),
        opened_in_tab(s, r).resource == r,
        ({
            let o = opened_in_tab(s, r);
            match first_index(snapshot(s).resource_tabs, shows_named(canonical_name_spec(r.id))) {
                Some(i) => {
                    &&& o.resource_tabs.len() == s.resource_tabs.len()
                    &&& o.active_resource_tab == i
                    &&& o.resource_tabs[i].resource == r
                },
                None => {
                    &&& o.resource_tabs.len() == s.resource_tabs.len() + 1
                    &&& o.active_resource_tab == s.resource_tabs.len()
                    &&& o.resource_tabs.last().resource == r
                    &&& o.resource_tabs.last().id == s.next_resource_tab_id
                },
            }
        }),
{
    let s1 = snapshot(s);
    let p = shows_named(canonical_name_spec(r.id));
    lemma_first_index(s1.resource_tabs, p);
    match first_index(s1.resource_tabs, p) {
        Some(i) => {
            let t = s1.resource_tabs.update(i, TabStateView { resource: r, ..s1.resource_tabs[i] });
            assert forall|a: int| 0 <= a < t.len() implies canonical_name_spec(#[trigger] t[a].resource.id)
                == canonical_name_spec(s1.resource_tabs[a].resource.id) by {}
            assert(names_distinct(t));
            assert(t.len() == s.resource_tabs.len());
            assert(t[i].resource == r);
        },
        None => {
            let t = s1.resource_tabs.push(fresh_tab(s1.next_resource_tab_id, r));
            assert forall|a: int, b: int| 0 <= a < b < t.len() implies
                canonical_name_spec(#[trigger] t[a].resource.id) != canonical_name_spec(#[trigger] t[b].resource.id) by {
                if b == t.len() - 1 {
                    assert(!p(s1.resource_tabs[a]));
                } else {
                    assert(t[a] == s1.resource_tabs[a]);
                    assert(t[b] == s1.resource_tabs[b]);
                }
            }
            assert(t.len() == s.resource_tabs.len() + 1);
            assert(t.last() == fresh_tab(s.next_resource_tab_id, r));
        },
    }
}

/// Closing a tab removes exactly that tab, keeping the others in order.
/// Closing a tab other than the shown one leaves the shown tab shown, with
/// the same resource; closing the shown tab shows the tab before it, or the
/// next one when it was the first.
pub proof fn law_closing_a_tab_keeps_the_others(s: AppStateView, index: int)
    requires
        wf(s),
        0 <= index < s.resource_tabs.len(),
        s.resource_tabs.len() > 1,
    ensures
        ({
            let t = closed_tab(s, index);
            let a = s.active_resource_tab as int;
            &&& t.resource_tabs.len() == s.resource_tabs.len() - 1
            &&& forall|k: int| 0 <= k < t.resource_tabs.len() ==> (#[trigger] t.resource_tabs[k]).id
                == s.resource_tabs[if k < index { k } else { k + 1 }].id
            &&& index != a ==> {
                &&& t.active_resource_tab == if index < a { a - 1 } else { a }
                &&& t.resource_tabs[t.active_resource_tab as int].id == s.resource_tabs[a].id
                &&& t.resource == s.resource
            }
            &&& index == a ==> {
                let shown = if a == 0 { 1 } else { a - 1 };
                &&& t.active_resource_tab == if a == 0 { 0 } else { a - 1 }
                &&& t.resource_tabs[t.active_resource_tab as int].id == s.resource_tabs[shown].id
                &&& t.resource == s.resource_tabs[shown].resource
            }
        }),
{
    let s1 = crate::app::tabs::dropped_loading_of(s, s.resource_tabs[index].id);
    let s2 = snapshot(s1);
    assert(s1.resource_tabs.len() == s.resource_tabs.len());
    assert forall|k: int| 0 <= k < s.resource_tabs.len() implies #[trigger] s2.resource_tabs[k].id == s.resource_tabs[k].id
        && (k != s.active_resource_tab ==> s2.resource_tabs[k].resource == s.resource_tabs[k].resource) by {
        assert(s1.resource_tabs[k].id == s.resource_tabs[k].id);
        assert(s1.resource_tabs[k].resource == s.resource_tabs[k].resource);
    }
    assert(s2.resource_tabs[s.active_resource_tab as int].resource == s.resource);
    let r = s2.resource_tabs.remove(index);
    assert forall|k: int| 0 <= k < r.len() implies #[trigger] r[k].id == s.resource_tabs[if k < index { k } else { k + 1 }].id by {
        if k < index {
            assert(r[k] == s2.resource_tabs[k]);
        } else {
            assert(r[k] == s2.resource_tabs[k + 1]);
        }
    }
}

} // verus!

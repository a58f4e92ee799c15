//! The activity feed of a resource as `gh` reports it: comments, reviews and
//! review-thread comments turned into entries, and the order the feed is
//! shown in.
use vstd::prelude::*;

use crate::domain::resource::{opt_str, views, ActivityEntry, ActivityEntryView, ActivityKind, ReactionCounts};
use crate::domain::resource::strs;
use crate::github::dto::{
    CommentDto, JsonValue, ReviewDto, ReviewThreadCommentDto, ReviewThreadDto,
    ReviewThreadsResponse, TimelineResponse,
};
use crate::github::json::{number_at, number_at_path, path_of, text_at, text_at_path};
use crate::github::gh_cli::{
    author_spec, display_author, nonempty, or_else, reaction_counts, reaction_counts_spec, text_or,
};
use crate::text::{decimal, push_str, push_u64, seq_lt, trim};

verus! {

// ---------------------------------------------------------------- order

/// Whether `a` is shown after `x`: by time of the last update, then by id.
pub open spec fn entry_after(a: ActivityEntryView, x: ActivityEntryView) -> bool {
    seq_lt(x.updated_at, a.updated_at) || (x.updated_at == a.updated_at && seq_lt(x.id, a.id))
}

/// `x` put into the sorted feed `sorted` after every entry not shown after it.
pub open spec fn insert_sorted(sorted: Seq<ActivityEntryView>, x: ActivityEntryView) -> Seq<ActivityEntryView>
    decreases sorted.len(),
{
    if sorted.len() == 0 {
        seq![x]
    } else if !entry_after(sorted.last(), x) {
        sorted.push(x)
    } else {
        insert_sorted(sorted.drop_last(), x).push(sorted.last())
    }
}

/// The feed in display order: a stable sort by update time, then id.
pub open spec fn sort_spec(s: Seq<ActivityEntryView>) -> Seq<ActivityEntryView>
    decreases s.len(),
{
    if s.len() == 0 {
        Seq::empty()
    } else {
        insert_sorted(sort_spec(s.drop_last()), s.last())
    }
}

proof fn lemma_insert_at(sorted: Seq<ActivityEntryView>, x: ActivityEntryView, p: int)
    requires
        0 <= p <= sorted.len(),
        forall|k: int| p <= k < sorted.len() ==> entry_after(#[trigger] sorted[k], x),
        p > 0 ==> !entry_after(sorted[p - 1], x),
    ensures
        insert_sorted(sorted, x) == sorted.insert(p, x),
    decreases sorted.len(),
{
    if sorted.len() == 0 {
        assert(sorted.insert(p, x) =~= seq![x]);
    } else if p == sorted.len() {
        assert(sorted.insert(p, x) =~= sorted.push(x));
    } else {
        let d = sorted.drop_last();
        assert(entry_after(sorted[sorted.len() - 1], x));
        assert forall|k: int| p <= k < d.len() implies entry_after(#[trigger] d[k], x) by {
            assert(d[k] == sorted[k]);
        }
        if p > 0 {
            assert(d[p - 1] == sorted[p - 1]);
        }
        lemma_insert_at(d, x, p);
        assert(d.insert(p, x).push(sorted.last()) =~= sorted.insert(p, x));
    }
}

/// Whether the feed `s` is in display order: no entry is shown after a
/// later one.
pub open spec fn in_display_order(s: Seq<ActivityEntryView>) -> bool {
    forall|i: int, j: int| 0 <= i < j < s.len() ==> !entry_after(#[trigger] s[i], #[trigger] s[j])
}

/// `p` comes before `q` in display order: by update time, then by id.
pub open spec fn key_lt(p: ActivityEntryView, q: ActivityEntryView) -> bool {
    entry_after(q, p)
}

proof fn lemma_key_lt_transitive(p: ActivityEntryView, q: ActivityEntryView, r: ActivityEntryView)
    requires
        key_lt(p, q),
        key_lt(q, r),
    ensures
        key_lt(p, r),
{
    if seq_lt(p.updated_at, q.updated_at) && seq_lt(q.updated_at, r.updated_at) {
        crate::text::lemma_seq_lt_transitive(p.updated_at, q.updated_at, r.updated_at);
    } else if p.updated_at == q.updated_at && q.updated_at == r.updated_at {
        crate::text::lemma_seq_lt_transitive(p.id, q.id, r.id);
    }
}

proof fn lemma_key_total(p: ActivityEntryView, q: ActivityEntryView)
    ensures
        (p.updated_at == q.updated_at && p.id == q.id) || key_lt(p, q) || key_lt(q, p),
{
    crate::text::lemma_seq_lt_total(p.updated_at, q.updated_at);
    crate::text::lemma_seq_lt_total(p.id, q.id);
}

/// Being shown after is transitive in the sense a sorted feed needs: an
/// entry not after a second, which is not after a third, is not after the third.
proof fn lemma_not_after_transitive(a: ActivityEntryView, b: ActivityEntryView, c: ActivityEntryView)
    requires
        !entry_after(a, b),
        !entry_after(b, c),
    ensures
        !entry_after(a, c),
{
    if entry_after(a, c) {
        lemma_key_total(a, b);
        if key_lt(a, b) {
            lemma_key_lt_transitive(c, a, b);
        }
    }
}

/// Two entries are each not shown after the other, or one is shown after
/// the other but not both.
proof fn lemma_after_asymmetric(a: ActivityEntryView, b: ActivityEntryView)
    ensures
        entry_after(a, b) ==> !entry_after(b, a),
{
    crate::text::lemma_seq_lt_irreflexive(a.updated_at);
    crate::text::lemma_seq_lt_irreflexive(a.id);
    if seq_lt(b.updated_at, a.updated_at) && seq_lt(a.updated_at, b.updated_at) {
        crate::text::lemma_seq_lt_transitive(b.updated_at, a.updated_at, b.updated_at);
        crate::text::lemma_seq_lt_irreflexive(b.updated_at);
    }
    if seq_lt(b.id, a.id) && seq_lt(a.id, b.id) {
        crate::text::lemma_seq_lt_transitive(b.id, a.id, b.id);
        crate::text::lemma_seq_lt_irreflexive(b.id);
    }
}

/// Inserting into a feed keeps its entries and adds the new one.
proof fn lemma_insert_sorted_multiset(sorted: Seq<ActivityEntryView>, x: ActivityEntryView)
    ensures
        insert_sorted(sorted, x).to_multiset() == sorted.to_multiset().insert(x),
        insert_sorted(sorted, x).len() == sorted.len() + 1,
    decreases sorted.len(),
{
    broadcast use vstd::seq_lib::group_seq_properties;
    if sorted.len() == 0 {
        assert(seq![x] =~= Seq::<ActivityEntryView>::empty().push(x));
    } else if !entry_after(sorted.last(), x) {
    } else {
        let d = sorted.drop_last();
        lemma_insert_sorted_multiset(d, x);
        assert(sorted =~= d.push(sorted.last()));
    }
}

/// Inserting into a feed in display order keeps it in display order.
proof fn lemma_insert_sorted_ordered(sorted: Seq<ActivityEntryView>, x: ActivityEntryView)
    requires
        in_display_order(sorted),
    ensures
        in_display_order(insert_sorted(sorted, x)),
    decreases sorted.len(),
{
    if sorted.len() == 0 {
    } else if !entry_after(sorted.last(), x) {
        let r = sorted.push(x);
        assert forall|i: int, j: int| 0 <= i < j < r.len() implies !entry_after(#[trigger] r[i], #[trigger] r[j]) by {
            if j == sorted.len() {
                if i < sorted.len() - 1 {
                    lemma_not_after_transitive(sorted[i], sorted.last(), x);
                }
            }
        }
    } else {
        let d = sorted.drop_last();
        let l = sorted.last();
        assert(in_display_order(d)) by {
            assert forall|i: int, j: int| 0 <= i < j < d.len() implies !entry_after(#[trigger] d[i], #[trigger] d[j]) by {
                assert(d[i] == sorted[i] && d[j] == sorted[j]);
            }
        }
        lemma_insert_sorted_ordered(d, x);
        lemma_insert_sorted_multiset(d, x);
        let t = insert_sorted(d, x);
        let r = t.push(l);
        lemma_after_asymmetric(l, x);
        assert forall|i: int, j: int| 0 <= i < j < r.len() implies !entry_after(#[trigger] r[i], #[trigger] r[j]) by {
            if j == t.len() {
                let e = t[i];
                t.to_multiset_ensures();
                assert(t.contains(e));
                assert(t.to_multiset().count(e) > 0);
                assert(d.to_multiset().insert(x).count(e) > 0);
                if e != x {
                    assert(d.to_multiset().count(e) > 0);
                    d.to_multiset_ensures();
                    assert(d.contains(e));
                    let k = choose|k: int| 0 <= k < d.len() && d[k] == e;
                    assert(sorted[k] == e);
                    assert(!entry_after(sorted[k], sorted[sorted.len() - 1]));
                }
            } else {
                assert(r[i] == t[i] && r[j] == t[j]);
            }
        }
    }
}

/// The feed is shown in display order, with exactly its entries: sorting
/// neither drops nor repeats an entry, and no entry is shown after a later
/// one.
pub proof fn law_sorted_feed_is_ordered_permutation(s: Seq<ActivityEntryView>)
    ensures
        in_display_order(sort_spec(s)),
        sort_spec(s).to_multiset() == s.to_multiset(),
    decreases s.len(),
{
    broadcast use vstd::seq_lib::group_seq_properties;
    if s.len() > 0 {
        law_sorted_feed_is_ordered_permutation(s.drop_last());
        lemma_insert_sorted_ordered(sort_spec(s.drop_last()), s.last());
        lemma_insert_sorted_multiset(sort_spec(s.drop_last()), s.last());
        assert(s =~= s.drop_last().push(s.last()));
    }
}

/// Whether `a` is shown after `x` (see `entry_after`).
fn shown_after(a: &ActivityEntry, x: &ActivityEntry) -> (b: bool)
    ensures
        b == entry_after(a@, x@),
{
    crate::text::str_lt(x.updated_at.as_str(), a.updated_at.as_str()) || (crate::text::str_eq(
        x.updated_at.as_str(),
        a.updated_at.as_str(),
    ) && crate::text::str_lt(x.id.as_str(), a.id.as_str()))
}

/// Puts the feed in display order (see `sort_spec`).
pub fn sort_activity(activity: &mut Vec<ActivityEntry>)
    ensures
        views(final(activity)@) == sort_spec(views(old(activity)@)),
{
    let mut input: Vec<ActivityEntry> = Vec::new();
    std::mem::swap(&mut input, activity);
    let ghost all = input@;
    let mut k: usize = 0;
    assert(input.len() == all.len());
    proof {
        assert(views(activity@) =~= sort_spec(views(all.subrange(0, 0))));
    }
    while input.len() > 0
        invariant
            k + input@.len() == all.len(),
            all.len() <= usize::MAX,
            input@ == all.subrange(k as int, all.len() as int),
            all == old(activity)@,
            views(activity@) == sort_spec(views(all.subrange(0, k as int))),
        decreases input.len(),
    {
        let x = input.remove(0);
        let mut p = activity.len();
        while p > 0 && shown_after(&activity[p - 1], &x)
            invariant
                p <= activity@.len(),
                forall|m: int| p <= m < activity@.len() ==> entry_after(#[trigger] views(activity@)[m], x@),
            decreases p,
        {
            proof {
                assert(views(activity@)[p - 1] == activity@[p - 1]@);
            }
            p = p - 1;
        }
        proof {
            if p > 0 {
                assert(views(activity@)[p - 1] == activity@[p - 1]@);
            }
            lemma_insert_at(views(activity@), x@, p as int);
            let prefix = all.subrange(0, k + 1);
            assert(views(prefix).drop_last() =~= views(all.subrange(0, k as int)));
            assert(views(prefix).last() == x@);
        }
        let ghost before = activity@;
        activity.insert(p, x);
        proof {
            assert(views(activity@) =~= views(before).insert(p as int, x@));
            assert(input@ =~= all.subrange(k + 1, all.len() as int));
        }
        k = k + 1;
    }
    proof {
        assert(all.subrange(0, k as int) =~= all);
    }
}

// ---------------------------------------------------------------- entries

proof fn lemma_views_push<T: View>(v: Seq<T>, x: T)
    ensures
        views(v.push(x)) == views(v).push(x@),
{
    assert(views(v.push(x)) =~= views(v).push(x@));
}

/// `prefix` followed by the decimal rendering of `n`.
fn numbered(prefix: &str, n: usize) -> (s: String)
    ensures
        s@ == prefix@ + decimal(n as nat),
{
    let mut s = crate::text::owned(prefix);
    push_u64(&mut s, n as u64);
    s
}

/// A conversation comment as a feed entry; `index` names it when it has no id.
pub open spec fn comment_entry_spec(c: CommentDto, index: int) -> ActivityEntryView {
    ActivityEntryView {
        id: text_or(opt_str(c.id), "comment-"@ + decimal(index as nat)),
        kind: ActivityKind::Comment,
        author: author_spec(c.author),
        body: c.body@,
        updated_at: text_or(or_else(opt_str(c.updated_at), opt_str(c.created_at)), "unknown"@),
        path: None,
        line: None,
        url: opt_str(c.url),
        author_association: opt_str(c.author_association),
        reactions: reaction_counts_spec(c.reaction_groups@),
        includes_created_edit: c.includes_created_edit == Some(true),
        is_minimized: c.is_minimized == Some(true),
        minimized_reason: nonempty(opt_str(c.minimized_reason)),
        thread_id: None,
        thread_resolved: None,
        thread_outdated: None,
        edit: None,
    }
}

/// The entries of a list of conversation comments, in order.
pub open spec fn comments_spec(comments: Seq<CommentDto>) -> Seq<ActivityEntryView> {
    Seq::new(comments.len(), |i: int| comment_entry_spec(comments[i], i))
}

fn text_or_first(a: Option<String>, b: Option<String>, fallback: &str) -> (s: String)
    ensures
        s@ == text_or(or_else(opt_str(a), opt_str(b)), fallback@),
{
    match a {
        Some(x) => x,
        None => match b {
            Some(y) => y,
            None => crate::text::owned(fallback),
        },
    }
}

fn nonempty_string(o: Option<String>) -> (r: Option<String>)
    ensures
        opt_str(r) == nonempty(opt_str(o)),
{
    match o {
        Some(s) => if s.as_str().is_empty() { None } else { Some(s) },
        None => None,
    }
}

fn comment_entry(c: CommentDto, index: usize) -> (e: ActivityEntry)
    ensures
        e@ == comment_entry_spec(c, index as int),
{
    let reactions = reaction_counts(&c.reaction_groups);
    let id = match c.id {
        Some(i) => i,
        None => numbered("comment-", index),
    };
    ActivityEntry {
        id,
        kind: ActivityKind::Comment,
        author: display_author(c.author),
        body: c.body,
        updated_at: text_or_first(c.updated_at, c.created_at, "unknown"),
        path: None,
        line: None,
        url: c.url,
        author_association: c.author_association,
        reactions,
        includes_created_edit: match c.includes_created_edit {
            Some(b) => b,
            None => false,
        },
        is_minimized: match c.is_minimized {
            Some(b) => b,
            None => false,
        },
        minimized_reason: nonempty_string(c.minimized_reason),
        thread_id: None,
        thread_resolved: None,
        thread_outdated: None,
        edit: None,
    }
}

/// The feed entries of conversation comments (see `comment_entry_spec`).
pub fn comments_to_activity(comments: Vec<CommentDto>) -> (r: Vec<ActivityEntry>)
    ensures
        views(r@) == comments_spec(comments@),
{
    let mut r: Vec<ActivityEntry> = Vec::new();
    let mut rest = comments;
    let ghost all = rest@;
    let mut k: usize = 0;
    assert(rest.len() == all.len());
    while rest.len() > 0
        invariant
            k + rest@.len() == all.len(),
            all.len() <= usize::MAX,
            rest@ == all.subrange(k as int, all.len() as int),
            views(r@) == comments_spec(all.subrange(0, k as int)),
        decreases rest.len(),
    {
        let ghost c0 = rest@[0];
        let c = rest.remove(0);
        let ghost before = r@;
        r.push(comment_entry(c, k));
        proof {
            assert(c0 == all[k as int]);
            lemma_views_push(before, r@.last());
            assert(r@ =~= before.push(r@.last()));
            assert(comments_spec(all.subrange(0, k + 1)) =~= comments_spec(all.subrange(0, k as int)).push(
                comment_entry_spec(all[k as int], k as int),
            ));
            assert(rest@ =~= all.subrange(k + 1, all.len() as int));
        }
        k = k + 1;
    }
    proof {
        assert(all.subrange(0, k as int) =~= all);
    }
    r
}

/// A review as a feed entry: its state, then its body when it has one.
pub open spec fn review_entry_spec(r: ReviewDto, index: int) -> ActivityEntryView {
    let state = text_or(opt_str(r.state), "REVIEW"@);
    let body = text_or(opt_str(r.body), Seq::empty());
    ActivityEntryView {
        id: text_or(opt_str(r.id), "review-"@ + decimal(index as nat)),
        kind: ActivityKind::Review,
        author: author_spec(r.author),
        body: if trim(body).len() == 0 { state } else { state + ": "@ + body },
        updated_at: text_or(or_else(opt_str(r.updated_at), opt_str(r.submitted_at)), "unknown"@),
        path: None,
        line: None,
        url: opt_str(r.url),
        author_association: opt_str(r.author_association),
        reactions: reaction_counts_spec(r.reaction_groups@),
        includes_created_edit: false,
        is_minimized: false,
        minimized_reason: None,
        thread_id: None,
        thread_resolved: None,
        thread_outdated: None,
        edit: None,
    }
}

pub open spec fn reviews_spec(reviews: Seq<ReviewDto>) -> Seq<ActivityEntryView> {
    Seq::new(reviews.len(), |i: int| review_entry_spec(reviews[i], i))
}

fn review_entry(r: ReviewDto, index: usize) -> (e: ActivityEntry)
    ensures
        e@ == review_entry_spec(r, index as int),
{
    let reactions = reaction_counts(&r.reaction_groups);
    let state = match r.state {
        Some(s) => s,
        None => crate::text::owned("REVIEW"),
    };
    let raw_body = match r.body {
        Some(b) => b,
        None => String::new(),
    };
    let body = if crate::text::is_blank(raw_body.as_str()) {
        state
    } else {
        let mut b = state;
        push_str(&mut b, ": ");
        push_str(&mut b, raw_body.as_str());
        b
    };
    let id = match r.id {
        Some(i) => i,
        None => numbered("review-", index),
    };
    let e = ActivityEntry {
        id,
        kind: ActivityKind::Review,
        author: display_author(r.author),
        body,
        updated_at: text_or_first(r.updated_at, r.submitted_at, "unknown"),
        path: None,
        line: None,
        url: r.url,
        author_association: r.author_association,
        reactions,
        includes_created_edit: false,
        is_minimized: false,
        minimized_reason: None,
        thread_id: None,
        thread_resolved: None,
        thread_outdated: None,
        edit: None,
    };
    e
}

/// The conversation of a pull request: its comments and its reviews, in
/// display order.
pub open spec fn pr_activity_spec(comments: Seq<CommentDto>, reviews: Seq<ReviewDto>) -> Seq<ActivityEntryView> {
    sort_spec(comments_spec(comments) + reviews_spec(reviews))
}

/// The conversation of a pull request (see `pr_activity_spec`).
pub fn pr_activity(comments: Vec<CommentDto>, reviews: Vec<ReviewDto>) -> (r: Vec<ActivityEntry>)
    ensures
        views(r@) == pr_activity_spec(comments@, reviews@),
{
    let mut activity = comments_to_activity(comments);
    let ghost base = views(activity@);
    let mut rest = reviews;
    let ghost all = rest@;
    let mut k: usize = 0;
    assert(rest.len() == all.len());
    while rest.len() > 0
        invariant
            k + rest@.len() == all.len(),
            all.len() <= usize::MAX,
            rest@ == all.subrange(k as int, all.len() as int),
            views(activity@) == base + reviews_spec(all.subrange(0, k as int)),
        decreases rest.len(),
    {
        let ghost r0 = rest@[0];
        let rv = rest.remove(0);
        let ghost before = activity@;
        activity.push(review_entry(rv, k));
        proof {
            assert(r0 == all[k as int]);
            lemma_views_push(before, activity@.last());
            assert(activity@ =~= before.push(activity@.last()));
            assert(reviews_spec(all.subrange(0, k + 1)) =~= reviews_spec(all.subrange(0, k as int)).push(
                review_entry_spec(all[k as int], k as int),
            ));
            assert(base + reviews_spec(all.subrange(0, k + 1)) =~= (base + reviews_spec(all.subrange(0, k as int))).push(
                review_entry_spec(all[k as int], k as int),
            ));
            assert(rest@ =~= all.subrange(k + 1, all.len() as int));
        }
        k = k + 1;
    }
    proof {
        assert(all.subrange(0, k as int) =~= all);
    }
    sort_activity(&mut activity);
    activity
}

// ---------------------------------------------------------------- review threads

/// A comment of a review thread as a feed entry: its path and line, else the
/// thread's; the thread's id and state; `count` (the number of entries
/// before it) names it when it has no id.
pub open spec fn thread_comment_spec(t: ReviewThreadDto, c: ReviewThreadCommentDto, count: int) -> ActivityEntryView {
    ActivityEntryView {
        id: text_or(
            opt_str(c.id),
            "review-comment-"@ + text_or(opt_str(t.path), "unknown"@) + "-"@ + decimal(count as nat),
        ),
        kind: ActivityKind::ReviewComment,
        author: author_spec(c.author),
        body: c.body@,
        updated_at: text_or(or_else(opt_str(c.updated_at), opt_str(c.created_at)), "unknown"@),
        path: or_else(opt_str(c.path), opt_str(t.path)),
        line: or_else(c.line, t.line),
        url: opt_str(c.url),
        author_association: opt_str(c.author_association),
        reactions: reaction_counts_spec(c.reaction_groups@),
        includes_created_edit: c.includes_created_edit == Some(true),
        is_minimized: c.is_minimized == Some(true),
        minimized_reason: nonempty(opt_str(c.minimized_reason)),
        thread_id: opt_str(t.id),
        thread_resolved: t.is_resolved,
        thread_outdated: t.is_outdated,
        edit: None,
    }
}

/// The entries of one thread, the first numbered `base`.
pub open spec fn thread_spec(t: ReviewThreadDto, base: int) -> Seq<ActivityEntryView> {
    Seq::new(t.comments.nodes@.len(), |k: int| thread_comment_spec(t, t.comments.nodes@[k], base + k))
}

/// The entries of all threads, thread after thread.
pub open spec fn threads_spec(threads: Seq<ReviewThreadDto>) -> Seq<ActivityEntryView>
    decreases threads.len(),
{
    if threads.len() == 0 {
        Seq::empty()
    } else {
        let prior = threads_spec(threads.drop_last());
        prior + thread_spec(threads.last(), prior.len() as int)
    }
}

/// The review-thread comments of a pull request; none when the repository
/// or pull request is missing.
pub open spec fn review_thread_activity_spec(response: ReviewThreadsResponse) -> Seq<ActivityEntryView> {
    match response.data.repository {
        Some(repository) => match repository.pull_request {
            Some(pr) => threads_spec(pr.review_threads.nodes@),
            None => Seq::empty(),
        },
        None => Seq::empty(),
    }
}

fn copy_text(o: &Option<String>) -> (r: Option<String>)
    ensures
        opt_str(r) == opt_str(*o),
{
    match o {
        Some(s) => Some(s.clone()),
        None => None,
    }
}

fn thread_comment_entry(t: &ReviewThreadDto, c: ReviewThreadCommentDto, count: usize) -> (e: ActivityEntry)
    ensures
        e@ == thread_comment_spec(*t, c, count as int),
{
    let reactions = reaction_counts(&c.reaction_groups);
    let id = match c.id {
        Some(i) => i,
        None => {
            let mut s = crate::text::owned("review-comment-");
            match &t.path {
                Some(p) => push_str(&mut s, p.as_str()),
                None => push_str(&mut s, "unknown"),
            }
            push_str(&mut s, "-");
            push_u64(&mut s, count as u64);
            s
        },
    };
    let path = match c.path {
        Some(p) => Some(p),
        None => copy_text(&t.path),
    };
    let line = match c.line {
        Some(l) => Some(l),
        None => t.line,
    };
    ActivityEntry {
        id,
        kind: ActivityKind::ReviewComment,
        author: display_author(c.author),
        body: c.body,
        updated_at: text_or_first(c.updated_at, c.created_at, "unknown"),
        path,
        line,
        url: c.url,
        author_association: c.author_association,
        reactions,
        includes_created_edit: match c.includes_created_edit {
            Some(b) => b,
            None => false,
        },
        is_minimized: match c.is_minimized {
            Some(b) => b,
            None => false,
        },
        minimized_reason: nonempty_string(c.minimized_reason),
        thread_id: copy_text(&t.id),
        thread_resolved: t.is_resolved,
        thread_outdated: t.is_outdated,
        edit: None,
    }
}

/// The review-thread comments of a pull request (see `review_thread_activity_spec`).
pub fn review_thread_activity(response: ReviewThreadsResponse) -> (r: Vec<ActivityEntry>)
    ensures
        views(r@) == review_thread_activity_spec(response),
{
    let mut entries: Vec<ActivityEntry> = Vec::new();
    let threads = match response.data.repository {
        Some(repository) => match repository.pull_request {
            Some(pr) => pr.review_threads.nodes,
            None => return entries,
        },
        None => return entries,
    };
    let mut threads = threads;
    let ghost all = threads@;
    let mut i: usize = 0;
    assert(threads.len() == all.len());
    proof {
        assert(views(entries@) =~= threads_spec(all.subrange(0, 0)));
    }
    while threads.len() > 0
        invariant
            i + threads@.len() == all.len(),
            all.len() <= usize::MAX,
            threads@ == all.subrange(i as int, all.len() as int),
            views(entries@) == threads_spec(all.subrange(0, i as int)),
        decreases threads.len(),
    {
        let mut t = threads.remove(0);
        let ghost t0 = t;
        let mut cs: Vec<ReviewThreadCommentDto> = Vec::new();
        std::mem::swap(&mut cs, &mut t.comments.nodes);
        let ghost base = views(entries@);
        let ghost call = cs@;
        let mut k: usize = 0;
        assert(cs.len() == call.len());
        proof {
            assert(views(entries@) =~= base + Seq::new(0, |m: int| thread_comment_spec(t0, call[m], base.len() + m)));
        }
        while cs.len() > 0
            invariant
                k + cs@.len() == call.len(),
                call.len() <= usize::MAX,
                cs@ == call.subrange(k as int, call.len() as int),
                call == t0.comments.nodes@,
                t.id == t0.id,
                t.path == t0.path,
                t.line == t0.line,
                t.is_resolved == t0.is_resolved,
                t.is_outdated == t0.is_outdated,
                views(entries@) == base + Seq::new(k as nat, |m: int| thread_comment_spec(t0, call[m], base.len() + m)),
            decreases cs.len(),
        {
            let ghost c0 = cs@[0];
            let c = cs.remove(0);
            let count = entries.len();
            let e = thread_comment_entry(&t, c, count);
            let ghost before = entries@;
            entries.push(e);
            proof {
                assert(c0 == call[k as int]);
                assert(thread_comment_spec(t, call[k as int], count as int) == thread_comment_spec(t0, call[k as int], count as int));
                lemma_views_push(before, entries@.last());
                assert(entries@ =~= before.push(entries@.last()));
                assert(views(before).len() == before.len());
                assert(count == base.len() + k);
                assert(base + Seq::new((k + 1) as nat, |m: int| thread_comment_spec(t0, call[m], base.len() + m))
                    =~= (base + Seq::new(k as nat, |m: int| thread_comment_spec(t0, call[m], base.len() + m))).push(
                    thread_comment_spec(t0, call[k as int], base.len() + k),
                ));
                assert(cs@ =~= call.subrange(k + 1, call.len() as int));
            }
            k = k + 1;
        }
        proof {
            let prefix = all.subrange(0, i + 1);
            assert(prefix.drop_last() =~= all.subrange(0, i as int));
            assert(prefix.last() == t0);
            assert(thread_spec(t0, base.len() as int) =~= Seq::new(k as nat, |m: int| thread_comment_spec(t0, call[m], base.len() + m)));
            assert(threads@ =~= all.subrange(i + 1, all.len() as int));
        }
        i = i + 1;
    }
    proof {
        assert(all.subrange(0, i as int) =~= all);
    }
    entries
}


// ---------------------------------------------------------------- timeline

/// At most the first twelve characters of `s`.
pub open spec fn short_oid(s: Seq<char>) -> Seq<char> {
    if s.len() > 12 { s.subrange(0, 12) } else { s }
}

pub open spec fn at1(node: JsonValue, a: Seq<char>) -> Option<Seq<char>> {
    text_at(node, seq![a])
}

pub open spec fn at2(node: JsonValue, a: Seq<char>, b: Seq<char>) -> Option<Seq<char>> {
    text_at(node, seq![a, b])
}

/// Who an assignment event names: the assignee's login, else its kind.
pub open spec fn assignee_spec(node: JsonValue) -> Seq<char> {
    text_or(or_else(at2(node, "assignee"@, "login"@), at2(node, "assignee"@, "__typename"@)), "unknown"@)
}

/// What a cross reference shows: where it comes from and its title, and
/// its URL on a line of its own when there is one.
pub open spec fn cross_reference_spec(node: JsonValue) -> Seq<char> {
    let number = number_at(node, seq!["source"@, "number"@]);
    let title = text_or(at2(node, "source"@, "title"@), "untitled"@);
    let repo = text_at(node, seq!["source"@, "repository"@, "nameWithOwner"@]);
    let url = at2(node, "source"@, "url"@);
    if repo is Some && number is Some {
        let head = "cross-referenced by "@ + repo->0 + "#"@ + decimal(number->0 as nat) + ": "@ + title;
        match url {
            Some(u) => head + "\n"@ + u,
            None => head,
        }
    } else {
        match url {
            Some(u) => "cross-referenced by "@ + title + "\n"@ + u,
            None => "cross-referenced by "@ + title,
        }
    }
}

/// The sentence a timeline event of kind `typename` is shown as.
pub open spec fn timeline_body_spec(typename: Seq<char>, node: JsonValue) -> Seq<char> {
    if typename == "ClosedEvent"@ {
        match at2(node, "closer"@, "__typename"@) {
            Some(c) => "closed by "@ + c,
            None => "closed"@,
        }
    } else if typename == "ReopenedEvent"@ {
        "reopened"@
    } else if typename == "LabeledEvent"@ {
        "added label "@ + text_or(at2(node, "label"@, "name"@), "unknown"@)
    } else if typename == "UnlabeledEvent"@ {
        "removed label "@ + text_or(at2(node, "label"@, "name"@), "unknown"@)
    } else if typename == "AssignedEvent"@ {
        "assigned "@ + assignee_spec(node)
    } else if typename == "UnassignedEvent"@ {
        "unassigned "@ + assignee_spec(node)
    } else if typename == "ReferencedEvent"@ {
        "referenced commit "@ + match at2(node, "commit"@, "oid"@) {
            Some(o) => short_oid(o),
            None => "unknown"@,
        }
    } else if typename == "CrossReferencedEvent"@ {
        cross_reference_spec(node)
    } else if typename == "RenamedTitleEvent"@ {
        "renamed title from \""@ + text_or(at1(node, "previousTitle"@), "unknown"@) + "\" to \""@
            + text_or(at1(node, "currentTitle"@), "unknown"@) + "\""@
    } else if typename == "MilestonedEvent"@ {
        "added milestone "@ + text_or(at1(node, "milestoneTitle"@), "unknown"@)
    } else if typename == "DemilestonedEvent"@ {
        "removed milestone "@ + text_or(at1(node, "milestoneTitle"@), "unknown"@)
    } else {
        typename + " event"@
    }
}

/// A timeline event as a feed entry; `index` names it when it has no id.
pub open spec fn timeline_entry_spec(index: int, node: JsonValue) -> ActivityEntryView {
    let typename = text_or(at1(node, "__typename"@), "TimelineEvent"@);
    ActivityEntryView {
        id: text_or(at1(node, "id"@), "timeline-"@ + decimal(index as nat)),
        kind: ActivityKind::Timeline,
        author: text_or(at2(node, "actor"@, "login"@), "github"@),
        body: timeline_body_spec(typename, node),
        updated_at: text_or(at1(node, "createdAt"@), "unknown"@),
        path: None,
        line: None,
        url: at2(node, "source"@, "url"@),
        author_association: None,
        reactions: ReactionCounts {
            thumbs_up: 0,
            thumbs_down: 0,
            laugh: 0,
            hooray: 0,
            confused: 0,
            heart: 0,
            rocket: 0,
            eyes: 0,
        },
        includes_created_edit: false,
        is_minimized: false,
        minimized_reason: None,
        thread_id: None,
        thread_resolved: None,
        thread_outdated: None,
        edit: None,
    }
}

fn text1(node: &JsonValue, a: &str) -> (r: Option<String>)
    ensures
        opt_str(r) == at1(*node, a@),
{
    let p = path_of(&[a]);
    proof {
        assert(strs(p@) =~= seq![a@]);
    }
    text_at_path(node, &p)
}

fn text2(node: &JsonValue, a: &str, b: &str) -> (r: Option<String>)
    ensures
        opt_str(r) == at2(*node, a@, b@),
{
    let p = path_of(&[a, b]);
    proof {
        assert(strs(p@) =~= seq![a@, b@]);
    }
    text_at_path(node, &p)
}

fn push_or(s: &mut String, o: Option<String>, fallback: &str)
    ensures
        final(s)@ == old(s)@ + text_or(opt_str(o), fallback@),
{
    match o {
        Some(t) => push_str(s, t.as_str()),
        None => push_str(s, fallback),
    }
}

fn cross_reference_body(node: &JsonValue) -> (s: String)
    ensures
        s@ == cross_reference_spec(*node),
{
    let np = path_of(&["source", "number"]);
    let rp = path_of(&["source", "repository", "nameWithOwner"]);
    proof {
        assert(strs(np@) =~= seq!["source"@, "number"@]);
        assert(strs(rp@) =~= seq!["source"@, "repository"@, "nameWithOwner"@]);
    }
    let number = number_at_path(node, &np);
    let title = text2(node, "source", "title");
    let repo = text_at_path(node, &rp);
    let url = text2(node, "source", "url");
    let mut s = crate::text::owned("cross-referenced by ");
    match (repo, number) {
        (Some(r), Some(n)) => {
            push_str(&mut s, r.as_str());
            push_str(&mut s, "#");
            push_u64(&mut s, n);
            push_str(&mut s, ": ");
            push_or(&mut s, title, "untitled");
        },
        _ => {
            push_or(&mut s, title, "untitled");
        },
    }
    match url {
        Some(u) => {
            push_str(&mut s, "\n");
            push_str(&mut s, u.as_str());
        },
        None => {},
    }
    s
}

fn timeline_body(typename: &str, node: &JsonValue) -> (s: String)
    ensures
        s@ == timeline_body_spec(typename@, *node),
{
    let mut s = String::new();
    if crate::text::str_eq(typename, "ClosedEvent") {
        match text2(node, "closer", "__typename") {
            Some(c) => {
                push_str(&mut s, "closed by ");
                push_str(&mut s, c.as_str());
            },
            None => push_str(&mut s, "closed"),
        }
    } else if crate::text::str_eq(typename, "ReopenedEvent") {
        push_str(&mut s, "reopened");
    } else if crate::text::str_eq(typename, "LabeledEvent") {
        push_str(&mut s, "added label ");
        push_or(&mut s, text2(node, "label", "name"), "unknown");
    } else if crate::text::str_eq(typename, "UnlabeledEvent") {
        push_str(&mut s, "removed label ");
        push_or(&mut s, text2(node, "label", "name"), "unknown");
    } else if crate::text::str_eq(typename, "AssignedEvent") || crate::text::str_eq(typename, "UnassignedEvent") {
        if crate::text::str_eq(typename, "AssignedEvent") {
            push_str(&mut s, "assigned ");
        } else {
            push_str(&mut s, "unassigned ");
        }
        let who = match text2(node, "assignee", "login") {
            Some(l) => Some(l),
            None => text2(node, "assignee", "__typename"),
        };
        push_or(&mut s, who, "unknown");
    } else if crate::text::str_eq(typename, "ReferencedEvent") {
        push_str(&mut s, "referenced commit ");
        match text2(node, "commit", "oid") {
            Some(o) => {
                let v = crate::text::chars_of(o.as_str());
                let n = if v.len() > 12 { 12 } else { v.len() };
                crate::text::push_chars(&mut s, v.as_slice(), 0, n);
                proof {
                    assert(v@.subrange(0, v@.len() as int) =~= v@);
                }
            },
            None => push_str(&mut s, "unknown"),
        }
    } else if crate::text::str_eq(typename, "CrossReferencedEvent") {
        s = cross_reference_body(node);
    } else if crate::text::str_eq(typename, "RenamedTitleEvent") {
        push_str(&mut s, "renamed title from \"");
        push_or(&mut s, text1(node, "previousTitle"), "unknown");
        push_str(&mut s, "\" to \"");
        push_or(&mut s, text1(node, "currentTitle"), "unknown");
        push_str(&mut s, "\"");
    } else if crate::text::str_eq(typename, "MilestonedEvent") {
        push_str(&mut s, "added milestone ");
        push_or(&mut s, text1(node, "milestoneTitle"), "unknown");
    } else if crate::text::str_eq(typename, "DemilestonedEvent") {
        push_str(&mut s, "removed milestone ");
        push_or(&mut s, text1(node, "milestoneTitle"), "unknown");
    } else {
        push_str(&mut s, typename);
        push_str(&mut s, " event");
    }
    s
}

/// A timeline event as a feed entry (see `timeline_entry_spec`).
pub fn timeline_node_to_activity(index: usize, node: &JsonValue) -> (e: ActivityEntry)
    ensures
        e@ == timeline_entry_spec(index as int, *node),
{
    let typename = match text1(node, "__typename") {
        Some(t) => t,
        None => crate::text::owned("TimelineEvent"),
    };
    let body = timeline_body(typename.as_str(), node);
    let id = match text1(node, "id") {
        Some(i) => i,
        None => numbered("timeline-", index),
    };
    let author = match text2(node, "actor", "login") {
        Some(a) => a,
        None => crate::text::owned("github"),
    };
    let updated_at = match text1(node, "createdAt") {
        Some(c) => c,
        None => crate::text::owned("unknown"),
    };
    ActivityEntry {
        id,
        kind: ActivityKind::Timeline,
        author,
        body,
        updated_at,
        path: None,
        line: None,
        url: text2(node, "source", "url"),
        author_association: None,
        reactions: ReactionCounts::zero(),
        includes_created_edit: false,
        is_minimized: false,
        minimized_reason: None,
        thread_id: None,
        thread_resolved: None,
        thread_outdated: None,
        edit: None,
    }
}

/// The timeline of a pull request, else of an issue, as feed entries;
/// nothing when the repository or both are missing.
pub open spec fn timeline_activity_spec(response: TimelineResponse) -> Seq<ActivityEntryView> {
    match response.data.repository {
        Some(repository) => match or_else(repository.pull_request, repository.issue) {
            Some(r) => Seq::new(
                r.timeline_items.nodes@.len(),
                |i: int| timeline_entry_spec(i, r.timeline_items.nodes@[i]),
            ),
            None => Seq::empty(),
        },
        None => Seq::empty(),
    }
}

/// The timeline events of a resource (see `timeline_activity_spec`).
pub fn timeline_activity(response: TimelineResponse) -> (r: Vec<ActivityEntry>)
    ensures
        views(r@) == timeline_activity_spec(response),
{
    let mut r: Vec<ActivityEntry> = Vec::new();
    let resource = match response.data.repository {
        Some(repository) => match repository.pull_request {
            Some(pr) => pr,
            None => match repository.issue {
                Some(issue) => issue,
                None => {
                    proof {
                        assert(views(r@) =~= timeline_activity_spec(response));
                    }
                    return r;
                },
            },
        },
        None => {
            proof {
                assert(views(r@) =~= timeline_activity_spec(response));
            }
            return r;
        },
    };
    let nodes = &resource.timeline_items.nodes;
    let mut i: usize = 0;
    while i < nodes.len()
        invariant
            i <= nodes@.len(),
            views(r@) == Seq::new(i as nat, |k: int| timeline_entry_spec(k, nodes@[k])),
        decreases nodes.len() - i,
    {
        let ghost before = r@;
        r.push(timeline_node_to_activity(i, &nodes[i]));
        proof {
            lemma_views_push(before, r@.last());
            assert(r@ =~= before.push(r@.last()));
            assert(Seq::new((i + 1) as nat, |k: int| timeline_entry_spec(k, nodes@[k])) =~= Seq::new(
                i as nat,
                |k: int| timeline_entry_spec(k, nodes@[k]),
            ).push(timeline_entry_spec(i as int, nodes@[i as int])));
        }
        i = i + 1;
    }
    r
}

} // verus!

//! The blocks of each detail tab that a reader can expand, in display
//! order and each once.
use vstd::prelude::*;

use crate::app::state::{BlockId, BlockIdView, Tab};
use crate::domain::copy::DeepCopy;
use crate::domain::resource::{
    check_status_label, views, ActivityEntryView, ChangedFileView, CheckRunView, CommitView,
    PullRequest, PullRequestView, Resource, ResourceView,
};
use crate::text::{push_str, trim};

verus! {

/// The blocks of `s` in order, each kept at its first place only.
pub open spec fn dedup(s: Seq<BlockIdView>) -> Seq<BlockIdView>
    decreases s.len(),
{
    if s.len() == 0 {
        Seq::empty()
    } else {
        let d = dedup(s.drop_last());
        if d.contains(s.last()) {
            d
        } else {
            d.push(s.last())
        }
    }
}

proof fn lemma_contains_push(s: Seq<BlockIdView>, x: BlockIdView, b: BlockIdView)
    ensures
        s.push(x).contains(b) <==> (s.contains(b) || b == x),
{
    if s.push(x).contains(b) {
        let k = choose|k: int| 0 <= k < s.push(x).len() && s.push(x)[k] == b;
        if k < s.len() {
            assert(s[k] == b);
        }
    }
    if s.contains(b) {
        let k = choose|k: int| 0 <= k < s.len() && s[k] == b;
        assert(s.push(x)[k] == b);
    }
    if b == x {
        assert(s.push(x)[s.len() as int] == b);
    }
}

/// `dedup` keeps nothing twice and exactly the blocks of its input.
pub proof fn lemma_dedup(s: Seq<BlockIdView>)
    ensures
        dedup(s).no_duplicates(),
        forall|b: BlockIdView| dedup(s).contains(b) <==> s.contains(b),
    decreases s.len(),
{
    if s.len() > 0 {
        let p = s.drop_last();
        let l = s.last();
        lemma_dedup(p);
        let d = dedup(p);
        assert(s =~= p.push(l));
        assert forall|b: BlockIdView| dedup(s).contains(b) <==> s.contains(b) by {
            lemma_contains_push(p, l, b);
            lemma_contains_push(d, l, b);
        }
        if !d.contains(l) {
            assert forall|i: int, j: int| 0 <= i < d.push(l).len() && 0 <= j < d.push(l).len() && i != j
                implies d.push(l)[i] != d.push(l)[j] by {
                if i == d.len() {
                    assert(d[j] == d.push(l)[j]);
                } else if j == d.len() {
                    assert(d[i] == d.push(l)[i]);
                }
            }
        }
    }
}

/// Whether `v` already holds a block with view `b`.
pub fn holds_block(v: &Vec<BlockId>, b: &BlockId) -> (r: bool)
    ensures
        r == views(v@).contains(b@),
{
    let mut i: usize = 0;
    while i < v.len()
        invariant
            i <= v@.len(),
            forall|j: int| 0 <= j < i ==> v@[j]@ != b@,
        decreases v.len() - i,
    {
        if v[i].same_block(b) {
            proof {
                assert(views(v@)[i as int] == b@);
            }
            return true;
        }
        i = i + 1;
    }
    proof {
        if views(v@).contains(b@) {
            let k = choose|k: int| 0 <= k < views(v@).len() && views(v@)[k] == b@;
            assert(v@[k]@ == b@);
        }
    }
    false
}

/// The blocks of `blocks`, each at its first place only (see `dedup`).
pub fn dedupe_blocks(blocks: Vec<BlockId>) -> (r: Vec<BlockId>)
    ensures
        views(r@) == dedup(views(blocks@)),
{
    let mut r: Vec<BlockId> = Vec::new();
    let mut i: usize = 0;
    while i < blocks.len()
        invariant
            i <= blocks@.len(),
            views(r@) == dedup(views(blocks@).take(i as int)),
        decreases blocks.len() - i,
    {
        let ghost prior = views(blocks@).take(i as int);
        proof {
            assert(views(blocks@).take(i + 1).drop_last() =~= prior);
            assert(views(blocks@).take(i + 1).last() == blocks@[i as int]@);
        }
        if !holds_block(&r, &blocks[i]) {
            let ghost before = r@;
            r.push(blocks[i].deep_copy());
            proof {
                assert(views(r@) =~= views(before).push(blocks@[i as int]@));
            }
        }
        i = i + 1;
    }
    proof {
        assert(views(blocks@).take(blocks@.len() as int) =~= views(blocks@));
    }
    r
}

/// Activity blocks of a resource, one per entry.
pub open spec fn activity_blocks(r: ResourceView) -> Seq<BlockIdView> {
    dedup(r.activity.map_values(|e: ActivityEntryView| BlockIdView::Activity(e.id)))
}

/// Commit blocks of a pull request, one per commit.
pub open spec fn commit_blocks(pr: PullRequestView) -> Seq<BlockIdView> {
    dedup(pr.commits.map_values(|c: CommitView| BlockIdView::Commit(c.oid)))
}

/// The block of a check: its status label, a colon and its name.
pub open spec fn check_block(c: CheckRunView) -> BlockIdView {
    BlockIdView::Check(check_status_label(c.status) + ":"@ + c.name)
}

/// Check blocks of a pull request, one per check.
pub open spec fn check_blocks(pr: PullRequestView) -> Seq<BlockIdView> {
    dedup(pr.checks.map_values(|c: CheckRunView| check_block(c)))
}

/// For each file its block, then its patch's block when it has a patch.
pub open spec fn file_blocks_raw(files: Seq<ChangedFileView>) -> Seq<BlockIdView>
    decreases files.len(),
{
    if files.len() == 0 {
        Seq::empty()
    } else {
        let f = files.last();
        file_blocks_raw(files.drop_last()).push(BlockIdView::File(f.path)) + if f.patch is Some {
            seq![BlockIdView::Patch(f.path)]
        } else {
            Seq::empty()
        }
    }
}

pub open spec fn file_blocks(pr: PullRequestView) -> Seq<BlockIdView> {
    dedup(file_blocks_raw(pr.files))
}

/// The overview's blocks: the body when it holds more than whitespace,
/// then the commits of a pull request, then the activity.
pub open spec fn overview_blocks(r: ResourceView) -> Seq<BlockIdView> {
    dedup(
        (if trim(r.body).len() > 0 { seq![BlockIdView::Body] } else { Seq::empty() }) + match r.pull_request {
            Some(pr) => commit_blocks(pr),
            None => Seq::empty(),
        } + activity_blocks(r),
    )
}

/// The blocks a tab offers to expand; the links tab offers none, and the
/// pull-request tabs none for an issue.
pub open spec fn tab_blocks(tab: Tab, r: ResourceView) -> Seq<BlockIdView> {
    match tab {
        Tab::Overview => overview_blocks(r),
        Tab::Activity => activity_blocks(r),
        Tab::Commits => match r.pull_request {
            Some(pr) => commit_blocks(pr),
            None => Seq::empty(),
        },
        Tab::Checks => match r.pull_request {
            Some(pr) => check_blocks(pr),
            None => Seq::empty(),
        },
        Tab::Files => match r.pull_request {
            Some(pr) => file_blocks(pr),
            None => Seq::empty(),
        },
        Tab::Links => Seq::empty(),
    }
}

fn activity_expandable_blocks(resource: &Resource) -> (v: Vec<BlockId>)
    ensures
        views(v@) == activity_blocks(resource@),
{
    let mut raw: Vec<BlockId> = Vec::new();
    let mut i: usize = 0;
    while i < resource.activity.len()
        invariant
            i <= resource.activity@.len(),
            views(raw@) == views(resource.activity@).take(i as int).map_values(|e: ActivityEntryView| BlockIdView::Activity(e.id)),
        decreases resource.activity.len() - i,
    {
        let ghost before = views(raw@);
        raw.push(BlockId::Activity(resource.activity[i].id.clone()));
        proof {
            assert(views(raw@) =~= before.push(BlockIdView::Activity(resource.activity@[i as int]@.id)));
            assert(views(raw@) =~= views(resource.activity@).take(i + 1).map_values(|e: ActivityEntryView| BlockIdView::Activity(e.id)));
        }
        i = i + 1;
    }
    proof {
        assert(views(resource.activity@).take(resource.activity@.len() as int) =~= views(resource.activity@));
    }
    dedupe_blocks(raw)
}

fn commit_expandable_blocks(pr: &PullRequest) -> (v: Vec<BlockId>)
    ensures
        views(v@) == commit_blocks(pr@),
{
    let mut raw: Vec<BlockId> = Vec::new();
    let mut i: usize = 0;
    while i < pr.commits.len()
        invariant
            i <= pr.commits@.len(),
            views(raw@) == views(pr.commits@).take(i as int).map_values(|c: CommitView| BlockIdView::Commit(c.oid)),
        decreases pr.commits.len() - i,
    {
        let ghost before = views(raw@);
        raw.push(BlockId::Commit(pr.commits[i].oid.clone()));
        proof {
            assert(views(raw@) =~= before.push(BlockIdView::Commit(pr.commits@[i as int]@.oid)));
            assert(views(raw@) =~= views(pr.commits@).take(i + 1).map_values(|c: CommitView| BlockIdView::Commit(c.oid)));
        }
        i = i + 1;
    }
    proof {
        assert(views(pr.commits@).take(pr.commits@.len() as int) =~= views(pr.commits@));
    }
    dedupe_blocks(raw)
}

fn check_expandable_blocks(pr: &PullRequest) -> (v: Vec<BlockId>)
    ensures
        views(v@) == check_blocks(pr@),
{
    let mut raw: Vec<BlockId> = Vec::new();
    let mut i: usize = 0;
    while i < pr.checks.len()
        invariant
            i <= pr.checks@.len(),
            views(raw@) == views(pr.checks@).take(i as int).map_values(|c: CheckRunView| check_block(c)),
        decreases pr.checks.len() - i,
    {
        let check = &pr.checks[i];
        let mut label = crate::text::owned(check.status.label());
        push_str(&mut label, ":");
        push_str(&mut label, check.name.as_str());
        let ghost before = views(raw@);
        raw.push(BlockId::Check(label));
        proof {
            assert(views(raw@) =~= before.push(check_block(pr.checks@[i as int]@)));
            assert(views(raw@) =~= views(pr.checks@).take(i + 1).map_values(|c: CheckRunView| check_block(c)));
        }
        i = i + 1;
    }
    proof {
        assert(views(pr.checks@).take(pr.checks@.len() as int) =~= views(pr.checks@));
    }
    dedupe_blocks(raw)
}

fn file_expandable_blocks(pr: &PullRequest) -> (v: Vec<BlockId>)
    ensures
        views(v@) == file_blocks(pr@),
{
    let mut raw: Vec<BlockId> = Vec::new();
    let mut i: usize = 0;
    while i < pr.files.len()
        invariant
            i <= pr.files@.len(),
            views(raw@) == file_blocks_raw(views(pr.files@).take(i as int)),
        decreases pr.files.len() - i,
    {
        let file = &pr.files[i];
        let ghost before = views(raw@);
        raw.push(BlockId::File(file.path.clone()));
        if file.patch.is_some() {
            raw.push(BlockId::Patch(file.path.clone()));
        }
        proof {
            let t = views(pr.files@).take(i + 1);
            assert(t.drop_last() =~= views(pr.files@).take(i as int));
            assert(t.last() == file@);
            assert(views(raw@) =~= file_blocks_raw(t));
        }
        i = i + 1;
    }
    proof {
        assert(views(pr.files@).take(pr.files@.len() as int) =~= views(pr.files@));
    }
    dedupe_blocks(raw)
}

fn append_blocks(out: &mut Vec<BlockId>, more: Vec<BlockId>)
    ensures
        views(final(out)@) == views(old(out)@) + views(more@),
{
    let ghost start = views(out@);
    let mut i: usize = 0;
    while i < more.len()
        invariant
            i <= more@.len(),
            views(out@) == start + views(more@).take(i as int),
        decreases more.len() - i,
    {
        let ghost before = views(out@);
        out.push(more[i].deep_copy());
        proof {
            assert(views(out@) =~= before.push(more@[i as int]@));
            assert(views(out@) =~= start + views(more@).take(i + 1));
        }
        i = i + 1;
    }
    proof {
        assert(views(more@).take(more@.len() as int) =~= views(more@));
    }
}

fn overview_expandable_blocks(resource: &Resource) -> (v: Vec<BlockId>)
    ensures
        views(v@) == overview_blocks(resource@),
{
    let mut blocks: Vec<BlockId> = Vec::new();
    let body = crate::text::trim_str(resource.body.as_str());
    let body_chars = crate::text::chars_of(body.as_str());
    if body_chars.len() > 0 {
        blocks.push(BlockId::Body);
    }
    proof {
        assert(views(blocks@) =~= if trim(resource@.body).len() > 0 { seq![BlockIdView::Body] } else { Seq::empty() });
    }
    let ghost head = views(blocks@);
    match &resource.pull_request {
        Some(pr) => append_blocks(&mut blocks, commit_expandable_blocks(pr)),
        None => {
            proof {
                assert(views(blocks@) =~= head + Seq::<BlockIdView>::empty());
            }
        },
    }
    append_blocks(&mut blocks, activity_expandable_blocks(resource));
    dedupe_blocks(blocks)
}

/// The blocks `tab` offers to expand for `resource` (see `tab_blocks`).
pub fn expandable_blocks_for_tab(tab: Tab, resource: &Resource) -> (v: Vec<BlockId>)
    ensures
        views(v@) == tab_blocks(tab, resource@),
{
    match tab {
        Tab::Overview => overview_expandable_blocks(resource),
        Tab::Activity => activity_expandable_blocks(resource),
        Tab::Commits => match &resource.pull_request {
            Some(pr) => commit_expandable_blocks(pr),
            None => {
                let v: Vec<BlockId> = Vec::new();
                proof {
                    assert(views(v@) =~= Seq::<BlockIdView>::empty());
                }
                v
            },
        },
        Tab::Checks => match &resource.pull_request {
            Some(pr) => check_expandable_blocks(pr),
            None => {
                let v: Vec<BlockId> = Vec::new();
                proof {
                    assert(views(v@) =~= Seq::<BlockIdView>::empty());
                }
                v
            },
        },
        Tab::Files => match &resource.pull_request {
            Some(pr) => file_expandable_blocks(pr),
            None => {
                let v: Vec<BlockId> = Vec::new();
                proof {
                    assert(views(v@) =~= Seq::<BlockIdView>::empty());
                }
                v
            },
        },
        Tab::Links => {
            let v: Vec<BlockId> = Vec::new();
            proof {
                assert(views(v@) =~= Seq::<BlockIdView>::empty());
            }
            v
        },
    }
}

} // verus!

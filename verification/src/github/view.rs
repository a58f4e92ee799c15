//! A pull request or issue as `gh ... view --json` prints it, turned into a
//! resource: its fields, its people, its conversation and the extra facts
//! shown as metadata.
use vstd::prelude::*;

use crate::domain::resource::{
    opt_str, strs, views, ActionContext, ActionContextView, CheckRun, CheckRunView, Commit,
    CommitView, MetadataItem, MetadataItemView, PullRequest, PullRequestView, Resource,
    ResourceView,
};
use crate::domain::resource_id::{IdView, ResourceId, ResourceKind};
use crate::github::activity::{comments_spec, comments_to_activity, pr_activity, pr_activity_spec};
use crate::github::dto::{CheckDto, CommitDto, IssueView, JsonValue, LabelDto, PrView, UserDto};
use crate::github::gh_cli::{
    author_spec, check_from_dto, check_view_spec, commit_from_dto, commit_view_spec,
    display_author, display_name_spec, files_from_dtos, files_view_spec, known_names,
    names_from_users, nonempty, reaction_counts, reaction_counts_spec, related_resource_ids,
    related_spec,
};
use crate::github::json::{
    review_request_names, review_request_names_spec, text_at, value_oid, value_title,
    value_title_spec, value_titles, value_titles_spec,
};
use crate::text::{decimal, join, push_str, trim};

verus! {

// ---------------------------------------------------------------- metadata

/// A yes/no fact.
pub open spec fn meta_bool(label: Seq<char>, value: bool) -> Seq<MetadataItemView> {
    seq![MetadataItemView { label, value: if value { "yes"@ } else { "no"@ } }]
}

/// A fact shown trimmed, and only when there is something to show.
pub open spec fn meta_nonempty(label: Seq<char>, value: Option<Seq<char>>) -> Seq<MetadataItemView> {
    match value {
        Some(v) => if trim(v).len() > 0 {
            seq![MetadataItemView { label, value: trim(v) }]
        } else {
            Seq::empty()
        },
        None => Seq::empty(),
    }
}

/// A list of names shown comma-separated, and only when there is one.
pub open spec fn meta_list(label: Seq<char>, values: Seq<Seq<char>>) -> Seq<MetadataItemView> {
    if values.len() == 0 {
        Seq::empty()
    } else {
        seq![MetadataItemView { label, value: join(values, ", "@) }]
    }
}

pub open spec fn opt_title(v: Option<JsonValue>) -> Option<Seq<char>> {
    match v {
        Some(x) => value_title_spec(x),
        None => None,
    }
}

pub open spec fn opt_oid(v: Option<JsonValue>) -> Option<Seq<char>> {
    match v {
        Some(x) => text_at(x, seq!["oid"@]),
        None => None,
    }
}

pub fn push_bool_metadata(items: &mut Vec<MetadataItem>, label: &str, value: bool)
    ensures
        views(final(items)@) == views(old(items)@) + meta_bool(label@, value),
{
    let ghost before = items@;
    items.push(
        MetadataItem {
            label: crate::text::owned(label),
            value: crate::text::owned(if value { "yes" } else { "no" }),
        },
    );
    proof {
        assert(views(items@) =~= views(before) + meta_bool(label@, value));
    }
}

pub fn push_nonempty_metadata(items: &mut Vec<MetadataItem>, label: &str, value: Option<&str>)
    ensures
        views(final(items)@) == views(old(items)@) + meta_nonempty(
            label@,
            match value {
                Some(v) => Some(v@),
                None => None,
            },
        ),
{
    let ghost before = items@;
    match value {
        Some(v) => {
            let t = crate::text::trim_str(v);
            if t.as_str().is_empty() {
                proof {
                    assert(views(items@) =~= views(before) + Seq::<MetadataItemView>::empty());
                }
            } else {
                items.push(MetadataItem { label: crate::text::owned(label), value: t });
                proof {
                    assert(views(items@) =~= views(before) + meta_nonempty(label@, Some(v@)));
                }
            }
        },
        None => {
            proof {
                assert(views(items@) =~= views(before) + Seq::<MetadataItemView>::empty());
            }
        },
    }
}

/// `values` joined by `, `.
fn joined(values: &Vec<String>) -> (s: String)
    ensures
        s@ == join(strs(values@), ", "@),
{
    let mut s = String::new();
    let mut i: usize = 0;
    while i < values.len()
        invariant
            i <= values@.len(),
            s@ == join(strs(values@.subrange(0, i as int)), ", "@),
        decreases values.len() - i,
    {
        let ghost prior = strs(values@.subrange(0, i as int));
        if i > 0 {
            push_str(&mut s, ", ");
        }
        push_str(&mut s, values[i].as_str());
        proof {
            assert(strs(values@.subrange(0, i + 1)) =~= prior.push(values@[i as int]@));
            crate::text::lemma_join_push(prior, ", "@, values@[i as int]@);
            if i == 0 {
                assert(s@ =~= values@[i as int]@);
            }
        }
        i = i + 1;
    }
    proof {
        assert(values@.subrange(0, i as int) =~= values@);
    }
    s
}

fn push_vec_metadata(items: &mut Vec<MetadataItem>, label: &str, values: Vec<String>)
    ensures
        views(final(items)@) == views(old(items)@) + meta_list(label@, strs(values@)),
{
    let ghost before = items@;
    if values.len() == 0 {
        proof {
            assert(views(items@) =~= views(before) + Seq::<MetadataItemView>::empty());
        }
        return;
    }
    items.push(MetadataItem { label: crate::text::owned(label), value: joined(&values) });
    proof {
        assert(views(items@) =~= views(before) + meta_list(label@, strs(values@)));
    }
}

pub fn as_text(o: &Option<String>) -> (r: Option<&str>)
    ensures
        match r {
            Some(v) => Some(v@),
            None => None,
        } == opt_str(*o),
{
    match o {
        Some(s) => Some(s.as_str()),
        None => None,
    }
}

fn as_text_owned(o: &Option<String>) -> (r: Option<&str>)
    ensures
        match r {
            Some(v) => Some(v@),
            None => None,
        } == opt_str(*o),
{
    as_text(o)
}

/// The facts an issue shows besides its fields.
pub open spec fn issue_metadata_spec(i: IssueView) -> Seq<MetadataItemView> {
    meta_bool("Closed"@, i.closed) + meta_bool("Pinned"@, i.is_pinned) + meta_nonempty(
        "State reason"@,
        opt_str(i.state_reason),
    ) + meta_nonempty("Closed at"@, opt_str(i.closed_at)) + meta_nonempty("Milestone"@, opt_title(i.milestone))
        + meta_list("Projects"@, value_titles_spec(i.project_items@))
}

fn issue_metadata(issue: &IssueView) -> (items: Vec<MetadataItem>)
    ensures
        views(items@) == issue_metadata_spec(*issue),
{
    let mut items: Vec<MetadataItem> = Vec::new();
    proof {
        assert(views(items@) =~= Seq::<MetadataItemView>::empty());
    }
    push_bool_metadata(&mut items, "Closed", issue.closed);
    push_bool_metadata(&mut items, "Pinned", issue.is_pinned);
    push_nonempty_metadata(&mut items, "State reason", as_text(&issue.state_reason));
    push_nonempty_metadata(&mut items, "Closed at", as_text(&issue.closed_at));
    let milestone = value_title(match &issue.milestone {
        Some(m) => Some(m),
        None => None,
    });
    push_nonempty_metadata(&mut items, "Milestone", as_text_owned(&milestone));
    push_vec_metadata(&mut items, "Projects", value_titles(&issue.project_items));
    proof {
        assert(views(items@) =~= issue_metadata_spec(*issue));
    }
    items
}

/// The facts a pull request shows besides its fields.
pub open spec fn pr_resource_metadata_spec(p: PrView) -> Seq<MetadataItemView> {
    meta_bool("Closed"@, p.closed) + meta_bool("Draft"@, p.is_draft) + meta_bool("Cross repository"@, p.is_cross_repository)
        + meta_bool("Maintainer can modify"@, p.maintainer_can_modify) + meta_nonempty("Mergeable"@, opt_str(p.mergeable))
        + meta_nonempty(
        "Changed files"@,
        match p.changed_files {
            Some(n) => Some(decimal(n as nat)),
            None => None,
        },
    ) + meta_nonempty("Milestone"@, opt_title(p.milestone)) + meta_list("Projects"@, value_titles_spec(p.project_items@))
}

fn pr_resource_metadata(pr: &PrView) -> (items: Vec<MetadataItem>)
    ensures
        views(items@) == pr_resource_metadata_spec(*pr),
{
    let mut items: Vec<MetadataItem> = Vec::new();
    proof {
        assert(views(items@) =~= Seq::<MetadataItemView>::empty());
    }
    push_bool_metadata(&mut items, "Closed", pr.closed);
    push_bool_metadata(&mut items, "Draft", pr.is_draft);
    push_bool_metadata(&mut items, "Cross repository", pr.is_cross_repository);
    push_bool_metadata(&mut items, "Maintainer can modify", pr.maintainer_can_modify);
    push_nonempty_metadata(&mut items, "Mergeable", as_text(&pr.mergeable));
    let changed = match pr.changed_files {
        Some(n) => Some(crate::text::u64_to_string(n)),
        None => None,
    };
    push_nonempty_metadata(&mut items, "Changed files", as_text_owned(&changed));
    let milestone = value_title(match &pr.milestone {
        Some(m) => Some(m),
        None => None,
    });
    push_nonempty_metadata(&mut items, "Milestone", as_text_owned(&milestone));
    push_vec_metadata(&mut items, "Projects", value_titles(&pr.project_items));
    proof {
        assert(views(items@) =~= pr_resource_metadata_spec(*pr));
    }
    items
}

/// The facts about a pull request's branches and merge.
pub open spec fn pr_metadata_spec(p: PrView) -> Seq<MetadataItemView> {
    meta_nonempty("Base ref OID"@, opt_str(p.base_ref_oid)) + meta_nonempty("Head ref OID"@, opt_str(p.head_ref_oid))
        + meta_nonempty("Head repository"@, opt_title(p.head_repository)) + meta_nonempty(
        "Head repository owner"@,
        opt_title(p.head_repository_owner),
    ) + meta_nonempty("Closed at"@, opt_str(p.closed_at)) + meta_nonempty("Merged at"@, opt_str(p.merged_at))
        + meta_nonempty(
        "Merged by"@,
        match p.merged_by {
            Some(u) => Some(display_name_spec(u)),
            None => None,
        },
    ) + meta_nonempty("Auto-merge"@, if p.auto_merge_request is Some { Some("enabled"@) } else { None })
        + meta_nonempty("Merge commit"@, opt_oid(p.merge_commit)) + meta_nonempty(
        "Potential merge commit"@,
        opt_oid(p.potential_merge_commit),
    )
}

pub fn opt_ref(o: &Option<JsonValue>) -> (r: Option<&JsonValue>)
    ensures
        match r {
            Some(v) => Some(*v),
            None => None,
        } == *o,
{
    match o {
        Some(v) => Some(v),
        None => None,
    }
}

fn pr_metadata(pr: &PrView) -> (items: Vec<MetadataItem>)
    ensures
        views(items@) == pr_metadata_spec(*pr),
{
    let mut items: Vec<MetadataItem> = Vec::new();
    proof {
        assert(views(items@) =~= Seq::<MetadataItemView>::empty());
    }
    push_nonempty_metadata(&mut items, "Base ref OID", as_text(&pr.base_ref_oid));
    push_nonempty_metadata(&mut items, "Head ref OID", as_text(&pr.head_ref_oid));
    let head_repository = value_title(opt_ref(&pr.head_repository));
    push_nonempty_metadata(&mut items, "Head repository", as_text_owned(&head_repository));
    let head_owner = value_title(opt_ref(&pr.head_repository_owner));
    push_nonempty_metadata(&mut items, "Head repository owner", as_text_owned(&head_owner));
    push_nonempty_metadata(&mut items, "Closed at", as_text(&pr.closed_at));
    push_nonempty_metadata(&mut items, "Merged at", as_text(&pr.merged_at));
    let merged_by = match &pr.merged_by {
        Some(u) => Some(u.display_name()),
        None => None,
    };
    push_nonempty_metadata(&mut items, "Merged by", as_text_owned(&merged_by));
    let auto_merge: Option<&str> = if pr.auto_merge_request.is_some() { Some("enabled") } else { None };
    push_nonempty_metadata(&mut items, "Auto-merge", auto_merge);
    let merge_commit = value_oid(opt_ref(&pr.merge_commit));
    push_nonempty_metadata(&mut items, "Merge commit", as_text_owned(&merge_commit));
    let potential = value_oid(opt_ref(&pr.potential_merge_commit));
    push_nonempty_metadata(&mut items, "Potential merge commit", as_text_owned(&potential));
    proof {
        assert(views(items@) =~= pr_metadata_spec(*pr));
    }
    items
}

// ---------------------------------------------------------------- resources

pub open spec fn label_names(labels: Seq<LabelDto>) -> Seq<Seq<char>> {
    labels.map_values(|l: LabelDto| l.name@)
}

fn label_names_of(labels: Vec<LabelDto>) -> (r: Vec<String>)
    ensures
        strs(r@) == label_names(labels@),
{
    let mut r: Vec<String> = Vec::new();
    let mut i: usize = 0;
    while i < labels.len()
        invariant
            i <= labels@.len(),
            strs(r@) == label_names(labels@.subrange(0, i as int)),
        decreases labels.len() - i,
    {
        let ghost before = r@;
        r.push(labels[i].name.clone());
        proof {
            assert(strs(r@) =~= strs(before).push(labels@[i as int].name@));
            assert(label_names(labels@.subrange(0, i + 1)) =~= label_names(labels@.subrange(0, i as int)).push(
                labels@[i as int].name@,
            ));
        }
        i = i + 1;
    }
    proof {
        assert(labels@.subrange(0, i as int) =~= labels@);
    }
    r
}

pub open spec fn commits_view_spec(commits: Seq<CommitDto>) -> Seq<CommitView> {
    commits.map_values(|c: CommitDto| commit_view_spec(c))
}

fn commits_from_dtos(commits: Vec<CommitDto>) -> (r: Vec<Commit>)
    ensures
        views(r@) == commits_view_spec(commits@),
{
    let mut r: Vec<Commit> = Vec::new();
    let mut rest = commits;
    let ghost all = rest@;
    let mut k: usize = 0;
    assert(rest.len() == all.len());
    while rest.len() > 0
        invariant
            k + rest@.len() == all.len(),
            all.len() <= usize::MAX,
            rest@ == all.subrange(k as int, all.len() as int),
            views(r@) == commits_view_spec(all.subrange(0, k as int)),
        decreases rest.len(),
    {
        let ghost c0 = rest@[0];
        let c = rest.remove(0);
        let ghost before = r@;
        r.push(commit_from_dto(c));
        proof {
            assert(c0 == all[k as int]);
            assert(views(r@) =~= views(before).push(commit_view_spec(c0)));
            assert(commits_view_spec(all.subrange(0, k + 1)) =~= commits_view_spec(all.subrange(0, k as int)).push(
                commit_view_spec(c0),
            ));
            assert(rest@ =~= all.subrange(k + 1, all.len() as int));
        }
        k = k + 1;
    }
    proof {
        assert(all.subrange(0, k as int) =~= all);
    }
    r
}

pub open spec fn checks_view_spec(checks: Seq<CheckDto>) -> Seq<CheckRunView> {
    checks.map_values(|c: CheckDto| check_view_spec(c))
}

fn checks_from_dtos(checks: Vec<CheckDto>) -> (r: Vec<CheckRun>)
    ensures
        views(r@) == checks_view_spec(checks@),
{
    let mut r: Vec<CheckRun> = Vec::new();
    let mut rest = checks;
    let ghost all = rest@;
    let mut k: usize = 0;
    assert(rest.len() == all.len());
    while rest.len() > 0
        invariant
            k + rest@.len() == all.len(),
            all.len() <= usize::MAX,
            rest@ == all.subrange(k as int, all.len() as int),
            views(r@) == checks_view_spec(all.subrange(0, k as int)),
        decreases rest.len(),
    {
        let ghost c0 = rest@[0];
        let c = rest.remove(0);
        let ghost before = r@;
        r.push(check_from_dto(c));
        proof {
            assert(c0 == all[k as int]);
            assert(views(r@) =~= views(before).push(check_view_spec(c0)));
            assert(checks_view_spec(all.subrange(0, k + 1)) =~= checks_view_spec(all.subrange(0, k as int)).push(
                check_view_spec(c0),
            ));
            assert(rest@ =~= all.subrange(k + 1, all.len() as int));
        }
        k = k + 1;
    }
    proof {
        assert(all.subrange(0, k as int) =~= all);
    }
    r
}

/// No node id and no permissions: what a resource read from `gh ... view`
/// may do is not part of that output.
pub open spec fn no_actions() -> ActionContextView {
    ActionContextView { node_id: Seq::empty(), viewer_can_update: false, locked: false }
}

/// The pull request `gh pr view` printed, under the owner and repository
/// that were asked for: its people by display name, its conversation in
/// display order, its closing issues, and the extra facts as metadata.
pub open spec fn pr_resource_spec(p: PrView, requested: IdView) -> ResourceView {
    ResourceView {
        id: IdView { owner: requested.owner, repo: requested.repo, number: p.number, kind_hint: Some(ResourceKind::PullRequest) },
        title: p.title@,
        url: p.url@,
        state: p.state@,
        author: author_spec(p.author),
        created_at: p.created_at@,
        updated_at: p.updated_at@,
        labels: label_names(p.labels@),
        assignees: known_names(p.assignees@),
        reactions: reaction_counts_spec(p.reaction_groups@),
        body: p.body@,
        activity: pr_activity_spec(p.comments@, p.reviews@),
        related_resources: related_spec(p.closing_issues_references@, ResourceKind::Issue, requested),
        metadata: pr_resource_metadata_spec(p),
        warnings: Seq::empty(),
        pull_request: Some(PullRequestView {
            base_ref: p.base_ref_name@,
            head_ref: p.head_ref_name@,
            requested_reviewers: review_request_names_spec(p.review_requests@),
            review_decision: nonempty(opt_str(p.review_decision)),
            merge_state: nonempty(opt_str(p.merge_state_status)),
            additions: p.additions,
            deletions: p.deletions,
            commits: commits_view_spec(p.commits@),
            checks: checks_view_spec(p.status_check_rollup@),
            files: files_view_spec(p.files@),
            metadata: pr_metadata_spec(p),
            allowed_merge_methods: Seq::empty(),
        }),
        actions: no_actions(),
    }
}

fn drop_empty_text(o: Option<String>) -> (r: Option<String>)
    ensures
        opt_str(r) == nonempty(opt_str(o)),
{
    match o {
        Some(s) => if s.as_str().is_empty() { None } else { Some(s) },
        None => None,
    }
}

impl PrView {
    /// The resource this output describes (see `pr_resource_spec`).
    pub fn into_resource(self, requested: &ResourceId) -> (r: Resource)
        ensures
            r@ == pr_resource_spec(self, requested@),
    {
        let ghost spec = pr_resource_spec(self, requested@);
        let resource_metadata = pr_resource_metadata(&self);
        let pull_request_metadata = pr_metadata(&self);
        let requested_reviewers = review_request_names(&self.review_requests);
        let reactions = reaction_counts(&self.reaction_groups);
        let id = ResourceId {
            owner: requested.owner.clone(),
            repo: requested.repo.clone(),
            number: self.number,
            kind_hint: Some(ResourceKind::PullRequest),
        };
        let pull_request = PullRequest {
            base_ref: self.base_ref_name,
            head_ref: self.head_ref_name,
            requested_reviewers,
            review_decision: drop_empty_text(self.review_decision),
            merge_state: drop_empty_text(self.merge_state_status),
            additions: self.additions,
            deletions: self.deletions,
            commits: commits_from_dtos(self.commits),
            checks: checks_from_dtos(self.status_check_rollup),
            files: files_from_dtos(self.files),
            metadata: pull_request_metadata,
            allowed_merge_methods: Vec::new(),
        };
        let r = Resource {
            id,
            title: self.title,
            url: self.url,
            state: self.state,
            author: display_author(self.author),
            created_at: self.created_at,
            updated_at: self.updated_at,
            labels: label_names_of(self.labels),
            assignees: names_from_users(self.assignees),
            reactions,
            body: self.body,
            activity: pr_activity(self.comments, self.reviews),
            related_resources: related_resource_ids(self.closing_issues_references, ResourceKind::Issue, requested),
            metadata: resource_metadata,
            warnings: Vec::new(),
            pull_request: Some(pull_request),
            actions: ActionContext::empty(),
        };
        proof {
            assert(r@.warnings =~= spec.warnings);
            assert(r@.actions.node_id =~= spec.actions.node_id);
            assert(r@.pull_request->0.allowed_merge_methods =~= Seq::<crate::domain::action::MergeMethod>::empty());
        }
        r
    }
}

/// The issue `gh issue view` printed, under the owner and repository that
/// were asked for: its people by display name, its comments, the pull
/// requests that close it, and the extra facts as metadata.
pub open spec fn issue_resource_spec(i: IssueView, requested: IdView) -> ResourceView {
    ResourceView {
        id: IdView { owner: requested.owner, repo: requested.repo, number: i.number, kind_hint: Some(ResourceKind::Issue) },
        title: i.title@,
        url: i.url@,
        state: i.state@,
        author: author_spec(i.author),
        created_at: i.created_at@,
        updated_at: i.updated_at@,
        labels: label_names(i.labels@),
        assignees: known_names(i.assignees@),
        reactions: reaction_counts_spec(i.reaction_groups@),
        body: i.body@,
        activity: comments_spec(i.comments@),
        related_resources: related_spec(i.closed_by_pull_requests_references@, ResourceKind::PullRequest, requested),
        metadata: issue_metadata_spec(i),
        warnings: Seq::empty(),
        pull_request: None,
        actions: no_actions(),
    }
}

impl IssueView {
    /// The resource this output describes (see `issue_resource_spec`).
    pub fn into_resource(self, requested: &ResourceId) -> (r: Resource)
        ensures
            r@ == issue_resource_spec(self, requested@),
    {
        let ghost spec = issue_resource_spec(self, requested@);
        let metadata = issue_metadata(&self);
        let reactions = reaction_counts(&self.reaction_groups);
        let r = Resource {
            id: ResourceId {
                owner: requested.owner.clone(),
                repo: requested.repo.clone(),
                number: self.number,
                kind_hint: Some(ResourceKind::Issue),
            },
            title: self.title,
            url: self.url,
            state: self.state,
            author: display_author(self.author),
            created_at: self.created_at,
            updated_at: self.updated_at,
            labels: label_names_of(self.labels),
            assignees: names_from_users(self.assignees),
            reactions,
            body: self.body,
            activity: comments_to_activity(self.comments),
            related_resources: related_resource_ids(
                self.closed_by_pull_requests_references,
                ResourceKind::PullRequest,
                requested,
            ),
            metadata,
            warnings: Vec::new(),
            pull_request: None,
            actions: ActionContext::empty(),
        };
        proof {
            assert(r@.warnings =~= spec.warnings);
            assert(r@.actions.node_id =~= spec.actions.node_id);
        }
        r
    }
}

} // verus!

//! The public REST API, used when no token works: the paths it is asked
//! for, how its pages are walked, and how its answers become a resource
//! that says what it lacks.
use vstd::prelude::*;

use crate::domain::resource::{
    opt_str, strs, views, ActionContext, ActivityEntry, ActivityEntryView, ActivityKind,
    ChangedFile, ChangedFileView, CheckStatus, Commit, CommitView, MetadataItem,
    MetadataItemView, PullRequest, PullRequestView, ReactionCounts, Resource, ResourceView,
};
use crate::domain::resource_id::{IdView, ResourceId, ResourceKind};
use crate::github::dto::JsonValue;
use crate::github::gh_cli::{or_else, text_or};
use crate::github::json::value_title;
use crate::github::view::{
    as_text, meta_bool, meta_nonempty, no_actions, opt_ref, opt_title, push_bool_metadata,
    push_nonempty_metadata,
};
use crate::text::{contains, decimal, join, lines, push_str, push_u64, trim, upper_seq};

verus! {

/// How many items a page of the REST API is asked for.
pub const REST_PAGE_SIZE: u64 = 100;

#[derive(Debug, Clone, PartialEq, Eq)]
pub struct RestUserDto {
    pub login: Option<String>,
}

#[derive(Debug, Clone, PartialEq, Eq)]
pub struct RestLabelDto {
    pub name: String,
}

/// Reaction counts as the REST API names them (`+1` and `-1` for thumbs).
#[derive(Debug, Clone, Copy, PartialEq, Eq, Default)]
pub struct RestReactionsDto {
    pub thumbs_up: u64,
    pub thumbs_down: u64,
    pub laugh: u64,
    pub hooray: u64,
    pub confused: u64,
    pub heart: u64,
    pub rocket: u64,
    pub eyes: u64,
}

#[derive(Debug, Clone, PartialEq, Eq)]
pub struct RestIssueDto {
    pub number: u64,
    pub title: String,
    pub html_url: String,
    pub state: String,
    pub user: Option<RestUserDto>,
    pub created_at: String,
    pub updated_at: String,
    pub labels: Vec<RestLabelDto>,
    pub assignees: Vec<RestUserDto>,
    pub reactions: RestReactionsDto,
    pub body: Option<String>,
    pub closed_at: Option<String>,
    pub state_reason: Option<String>,
    pub locked: bool,
    pub active_lock_reason: Option<String>,
    pub milestone: Option<JsonValue>,
}

#[derive(Debug, Clone, PartialEq, Eq)]
pub struct RestRefDto {
    pub reference: String,
}

#[derive(Debug, Clone, PartialEq, Eq)]
pub struct RestPullDto {
    pub title: String,
    pub html_url: String,
    pub state: String,
    pub user: Option<RestUserDto>,
    pub created_at: String,
    pub updated_at: String,
    pub base: Option<RestRefDto>,
    pub head: Option<RestRefDto>,
    pub requested_reviewers: Vec<RestUserDto>,
    pub mergeable: Option<bool>,
    pub additions: Option<u64>,
    pub deletions: Option<u64>,
    pub changed_files: Option<u64>,
    pub draft: bool,
    pub merged_at: Option<String>,
    pub merge_commit_sha: Option<String>,
}

#[derive(Debug, Clone, PartialEq, Eq)]
pub struct RestCommentDto {
    pub id: u64,
    pub user: Option<RestUserDto>,
    pub body: Option<String>,
    pub created_at: String,
    pub updated_at: String,
    pub html_url: Option<String>,
    pub author_association: Option<String>,
    pub reactions: RestReactionsDto,
}

#[derive(Debug, Clone, PartialEq, Eq)]
pub struct RestCommitDto {
    pub sha: String,
    pub commit: RestCommitInnerDto,
    pub author: Option<RestUserDto>,
}

#[derive(Debug, Clone, PartialEq, Eq)]
pub struct RestCommitInnerDto {
    pub message: String,
    pub author: Option<RestCommitPersonDto>,
    pub committer: Option<RestCommitPersonDto>,
}

#[derive(Debug, Clone, PartialEq, Eq)]
pub struct RestCommitPersonDto {
    pub name: Option<String>,
    pub date: Option<String>,
}

#[derive(Debug, Clone, PartialEq, Eq)]
pub struct RestFileDto {
    pub filename: String,
    pub additions: u64,
    pub deletions: u64,
    pub status: String,
    pub patch: Option<String>,
}

// ---------------------------------------------------------------- paths and pages

/// `base` asked for page `page` of `REST_PAGE_SIZE` items.
pub open spec fn page_path_spec(base: Seq<char>, page: u64) -> Seq<char> {
    base + seq![if base.contains('?') { '&' } else { '?' }] + "per_page="@ + decimal(REST_PAGE_SIZE as nat)
        + "&page="@ + decimal(page as nat)
}

/// The path of one page of a listing (see `page_path_spec`).
pub fn public_rest_page_path(base_path: &str, page: u64) -> (p: String)
    ensures
        p@ == page_path_spec(base_path@, page),
{
    let v = crate::text::chars_of(base_path);
    let q = crate::text::find_char(v.as_slice(), 0, v.len(), '?');
    proof {
        assert(v@.subrange(0, v@.len() as int) =~= v@);
        crate::text::lemma_index_of_props(v@, '?');
    }
    let mut p = crate::text::owned(base_path);
    p.push(if q.is_some() { '&' } else { '?' });
    push_str(&mut p, "per_page=");
    push_u64(&mut p, REST_PAGE_SIZE);
    push_str(&mut p, "&page=");
    push_u64(&mut p, page);
    p
}

/// The page to ask for after page `page` brought `received` items: none
/// once a page comes back short.
pub fn next_page(page: u64, received: usize) -> (r: Option<u64>)
    ensures
        r == if (received as int) < REST_PAGE_SIZE || page == u64::MAX { None } else { Some((page + 1) as u64) },
{
    if (received as u64) < REST_PAGE_SIZE || page == u64::MAX {
        None
    } else {
        Some(page + 1)
    }
}

/// `/repos/<owner>/<repo>/<collection>/<number><tail>`.
pub open spec fn repo_path_spec(id: IdView, collection: Seq<char>, tail: Seq<char>) -> Seq<char> {
    "/repos/"@ + id.owner + seq!['/'] + id.repo + seq!['/'] + collection + seq!['/'] + decimal(id.number as nat) + tail
}

/// The REST path of `collection` entry `id`, followed by `tail`.
pub fn rest_path(id: &ResourceId, collection: &str, tail: &str) -> (p: String)
    ensures
        p@ == repo_path_spec(id@, collection@, tail@),
{
    let mut p = crate::text::owned("/repos/");
    push_str(&mut p, id.owner.as_str());
    p.push('/');
    push_str(&mut p, id.repo.as_str());
    p.push('/');
    push_str(&mut p, collection);
    p.push('/');
    push_u64(&mut p, id.number);
    push_str(&mut p, tail);
    p
}

// ---------------------------------------------------------------- conversion

/// The name shown for a REST user: the login when not empty, else `unknown`.
pub open spec fn rest_author_spec(u: Option<RestUserDto>) -> Seq<char> {
    match u {
        Some(x) => match x.login {
            Some(l) => if l@.len() > 0 { l@ } else { "unknown"@ },
            None => "unknown"@,
        },
        None => "unknown"@,
    }
}

/// The name shown for a REST user (see `rest_author_spec`).
pub fn display_rest_author(author: Option<RestUserDto>) -> (s: String)
    ensures
        s@ == rest_author_spec(author),
{
    match author {
        Some(x) => match x.login {
            Some(l) => if l.as_str().is_empty() { crate::text::owned("unknown") } else { l },
            None => crate::text::owned("unknown"),
        },
        None => crate::text::owned("unknown"),
    }
}

pub open spec fn rest_reactions_spec(r: RestReactionsDto) -> ReactionCounts {
    ReactionCounts {
        thumbs_up: r.thumbs_up,
        thumbs_down: r.thumbs_down,
        laugh: r.laugh,
        hooray: r.hooray,
        confused: r.confused,
        heart: r.heart,
        rocket: r.rocket,
        eyes: r.eyes,
    }
}

fn rest_reaction_counts(r: RestReactionsDto) -> (c: ReactionCounts)
    ensures
        c == rest_reactions_spec(r),
{
    ReactionCounts {
        thumbs_up: r.thumbs_up,
        thumbs_down: r.thumbs_down,
        laugh: r.laugh,
        hooray: r.hooray,
        confused: r.confused,
        heart: r.heart,
        rocket: r.rocket,
        eyes: r.eyes,
    }
}

/// The known names of REST users, in order.
pub open spec fn rest_names(users: Seq<RestUserDto>) -> Seq<Seq<char>>
    decreases users.len(),
{
    if users.len() == 0 {
        Seq::empty()
    } else {
        let prior = rest_names(users.drop_last());
        let n = rest_author_spec(Some(users.last()));
        if n == "unknown"@ { prior } else { prior.push(n) }
    }
}

fn rest_names_of(users: Vec<RestUserDto>) -> (r: Vec<String>)
    ensures
        strs(r@) == rest_names(users@),
{
    let mut r: Vec<String> = Vec::new();
    let mut rest = users;
    let ghost all = rest@;
    let mut k: usize = 0;
    assert(rest.len() == all.len());
    while rest.len() > 0
        invariant
            k + rest@.len() == all.len(),
            all.len() <= usize::MAX,
            rest@ == all.subrange(k as int, all.len() as int),
            strs(r@) == rest_names(all.subrange(0, k as int)),
        decreases rest.len(),
    {
        let ghost u0 = rest@[0];
        let u = rest.remove(0);
        let n = display_rest_author(Some(u));
        proof {
            assert(u0 == all[k as int]);
            assert(all.subrange(0, k + 1).drop_last() =~= all.subrange(0, k as int));
        }
        if !crate::text::str_eq(n.as_str(), "unknown") {
            let ghost before = r@;
            r.push(n);
            proof {
                assert(strs(r@) =~= strs(before).push(r@.last()@));
            }
        }
        proof {
            assert(rest@ =~= all.subrange(k + 1, all.len() as int));
        }
        k = k + 1;
    }
    proof {
        assert(all.subrange(0, k as int) =~= all);
    }
    r
}

pub open spec fn rest_label_names(labels: Seq<RestLabelDto>) -> Seq<Seq<char>> {
    labels.map_values(|l: RestLabelDto| l.name@)
}

fn rest_label_names_of(labels: &Vec<RestLabelDto>) -> (r: Vec<String>)
    ensures
        strs(r@) == rest_label_names(labels@),
{
    let mut r: Vec<String> = Vec::new();
    let mut i: usize = 0;
    while i < labels.len()
        invariant
            i <= labels@.len(),
            strs(r@) == rest_label_names(labels@.subrange(0, i as int)),
        decreases labels.len() - i,
    {
        let ghost before = r@;
        r.push(labels[i].name.clone());
        proof {
            assert(strs(r@) =~= strs(before).push(labels@[i as int].name@));
            assert(rest_label_names(labels@.subrange(0, i + 1)) =~= rest_label_names(labels@.subrange(0, i as int)).push(
                labels@[i as int].name@,
            ));
        }
        i = i + 1;
    }
    proof {
        assert(labels@.subrange(0, i as int) =~= labels@);
    }
    r
}

/// The facts a REST issue shows besides its fields.
pub open spec fn rest_issue_metadata_spec(i: RestIssueDto) -> Seq<MetadataItemView> {
    meta_nonempty("State reason"@, opt_str(i.state_reason)) + meta_nonempty("Closed at"@, opt_str(i.closed_at))
        + meta_bool("Locked"@, i.locked) + meta_nonempty("Lock reason"@, opt_str(i.active_lock_reason))
        + meta_nonempty("Milestone"@, opt_title(i.milestone))
}

fn rest_issue_metadata(issue: &RestIssueDto) -> (items: Vec<MetadataItem>)
    ensures
        views(items@) == rest_issue_metadata_spec(*issue),
{
    let mut items: Vec<MetadataItem> = Vec::new();
    proof {
        assert(views(items@) =~= Seq::<MetadataItemView>::empty());
    }
    push_nonempty_metadata(&mut items, "State reason", as_text(&issue.state_reason));
    push_nonempty_metadata(&mut items, "Closed at", as_text(&issue.closed_at));
    push_bool_metadata(&mut items, "Locked", issue.locked);
    push_nonempty_metadata(&mut items, "Lock reason", as_text(&issue.active_lock_reason));
    let milestone = value_title(opt_ref(&issue.milestone));
    push_nonempty_metadata(&mut items, "Milestone", as_text(&milestone));
    proof {
        assert(views(items@) =~= rest_issue_metadata_spec(*issue));
    }
    items
}

/// The facts a REST pull request shows besides its fields.
pub open spec fn rest_pr_metadata_spec(p: RestPullDto) -> Seq<MetadataItemView> {
    meta_bool("Draft"@, p.draft) + meta_nonempty(
        "Changed files"@,
        match p.changed_files {
            Some(n) => Some(decimal(n as nat)),
            None => None,
        },
    ) + meta_nonempty("Merged at"@, opt_str(p.merged_at)) + meta_nonempty("Merge commit"@, opt_str(p.merge_commit_sha))
}

/// The facts a REST pull request shows (see `rest_pr_metadata_spec`).
pub fn rest_pr_metadata(pr: &RestPullDto) -> (items: Vec<MetadataItem>)
    ensures
        views(items@) == rest_pr_metadata_spec(*pr),
{
    let mut items: Vec<MetadataItem> = Vec::new();
    proof {
        assert(views(items@) =~= Seq::<MetadataItemView>::empty());
    }
    push_bool_metadata(&mut items, "Draft", pr.draft);
    let changed = match pr.changed_files {
        Some(n) => Some(crate::text::u64_to_string(n)),
        None => None,
    };
    push_nonempty_metadata(&mut items, "Changed files", as_text(&changed));
    push_nonempty_metadata(&mut items, "Merged at", as_text(&pr.merged_at));
    push_nonempty_metadata(&mut items, "Merge commit", as_text(&pr.merge_commit_sha));
    proof {
        assert(views(items@) =~= rest_pr_metadata_spec(*pr));
    }
    items
}

/// A REST issue as a resource, under the owner and repository asked for,
/// with the given conversation.
pub open spec fn rest_issue_resource_spec(issue: RestIssueDto, requested: IdView, activity: Seq<ActivityEntryView>) -> ResourceView {
    ResourceView {
        id: IdView { owner: requested.owner, repo: requested.repo, number: issue.number, kind_hint: Some(ResourceKind::Issue) },
        title: issue.title@,
        url: issue.html_url@,
        state: upper_seq(issue.state@),
        author: rest_author_spec(issue.user),
        created_at: issue.created_at@,
        updated_at: issue.updated_at@,
        labels: rest_label_names(issue.labels@),
        assignees: rest_names(issue.assignees@),
        reactions: rest_reactions_spec(issue.reactions),
        body: text_or(opt_str(issue.body), Seq::empty()),
        activity,
        related_resources: Seq::empty(),
        metadata: rest_issue_metadata_spec(issue),
        warnings: Seq::empty(),
        pull_request: None,
        actions: no_actions(),
    }
}

fn upper_string(s: &str) -> (r: String)
    ensures
        r@ == upper_seq(s@),
{
    let v = crate::text::uppercase_chars(s);
    crate::text::string_from(v.as_slice())
}

/// A REST issue as a resource (see `rest_issue_resource_spec`).
pub fn rest_issue_resource(issue: RestIssueDto, requested: &ResourceId, activity: Vec<ActivityEntry>) -> (r: Resource)
    ensures
        r@ == rest_issue_resource_spec(issue, requested@, views(activity@)),
{
    let ghost spec = rest_issue_resource_spec(issue, requested@, views(activity@));
    let metadata = rest_issue_metadata(&issue);
    let labels = rest_label_names_of(&issue.labels);
    let state = upper_string(issue.state.as_str());
    let body = match issue.body {
        Some(b) => b,
        None => String::new(),
    };
    let r = Resource {
        id: ResourceId {
            owner: requested.owner.clone(),
            repo: requested.repo.clone(),
            number: issue.number,
            kind_hint: Some(ResourceKind::Issue),
        },
        title: issue.title,
        url: issue.html_url,
        state,
        author: display_rest_author(issue.user),
        created_at: issue.created_at,
        updated_at: issue.updated_at,
        labels,
        assignees: rest_names_of(issue.assignees),
        reactions: rest_reaction_counts(issue.reactions),
        body,
        activity,
        related_resources: Vec::new(),
        metadata,
        warnings: Vec::new(),
        pull_request: None,
        actions: ActionContext::empty(),
    };
    proof {
        assert(r@.related_resources =~= spec.related_resources);
        assert(r@.warnings =~= spec.warnings);
        assert(r@.actions.node_id =~= spec.actions.node_id);
    }
    r
}

/// A REST issue comment as a feed entry; its position `index` names its
/// thread, and it counts as edited when its update time differs from its
/// creation time.
pub open spec fn rest_comment_spec(index: int, c: RestCommentDto) -> ActivityEntryView {
    ActivityEntryView {
        id: "rest-comment-"@ + decimal(c.id as nat),
        kind: ActivityKind::Comment,
        author: rest_author_spec(c.user),
        body: text_or(opt_str(c.body), Seq::empty()),
        updated_at: c.updated_at@,
        path: None,
        line: None,
        url: opt_str(c.html_url),
        author_association: opt_str(c.author_association),
        reactions: rest_reactions_spec(c.reactions),
        includes_created_edit: c.updated_at@ != c.created_at@,
        is_minimized: false,
        minimized_reason: None,
        thread_id: Some("public-rest-comment-"@ + decimal(index as nat)),
        thread_resolved: None,
        thread_outdated: None,
        edit: None,
    }
}

/// A REST issue comment as a feed entry (see `rest_comment_spec`).
pub fn rest_comment_activity(index: usize, comment: RestCommentDto) -> (e: ActivityEntry)
    ensures
        e@ == rest_comment_spec(index as int, comment),
{
    let includes_created_edit = !crate::text::str_eq(comment.updated_at.as_str(), comment.created_at.as_str());
    let mut id = crate::text::owned("rest-comment-");
    push_u64(&mut id, comment.id);
    let mut thread = crate::text::owned("public-rest-comment-");
    push_u64(&mut thread, index as u64);
    ActivityEntry {
        id,
        kind: ActivityKind::Comment,
        author: display_rest_author(comment.user),
        body: match comment.body {
            Some(b) => b,
            None => String::new(),
        },
        updated_at: comment.updated_at,
        path: None,
        line: None,
        url: comment.html_url,
        author_association: comment.author_association,
        reactions: rest_reaction_counts(comment.reactions),
        includes_created_edit,
        is_minimized: false,
        minimized_reason: None,
        thread_id: Some(thread),
        thread_resolved: None,
        thread_outdated: None,
        edit: None,
    }
}

/// A REST commit: the first line of its message as the headline, the rest
/// trimmed as the body; its login, else its author's name, else `unknown`.
pub open spec fn rest_commit_spec(c: RestCommitDto) -> CommitView {
    let ls = lines(c.commit.message@);
    let login = rest_author_spec(c.author);
    let author = if login == "unknown"@ {
        match c.commit.author {
            Some(p) => text_or(opt_str(p.name), "unknown"@),
            None => "unknown"@,
        }
    } else {
        login
    };
    let authored_at = match c.commit.author {
        Some(p) => opt_str(p.date),
        None => None,
    };
    let committer_date = match c.commit.committer {
        Some(p) => opt_str(p.date),
        None => None,
    };
    CommitView {
        oid: c.sha@,
        message: if ls.len() > 0 { ls[0] } else { Seq::empty() },
        body: if ls.len() > 0 { trim(join(ls.subrange(1, ls.len() as int), seq!['\n'])) } else { Seq::empty() },
        author,
        authors: if author == "unknown"@ { Seq::empty() } else { seq![author] },
        authored_at,
        committed_at: text_or(or_else(committer_date, authored_at), "unknown"@),
        status: CheckStatus::Unknown,
        deployments: Seq::empty(),
    }
}

/// A REST commit (see `rest_commit_spec`).
pub fn rest_commit(commit: RestCommitDto) -> (r: Commit)
    ensures
        r@ == rest_commit_spec(commit),
{
    let ghost spec = rest_commit_spec(commit);
    let ls = crate::text::lines_of(commit.commit.message.as_str());
    let headline = if ls.len() > 0 { ls[0].clone() } else { String::new() };
    let mut joined = String::new();
    let mut i: usize = 1;
    proof {
        if ls@.len() > 0 {
            assert(strs(ls@).subrange(1, 1) =~= Seq::<Seq<char>>::empty());
        }
    }
    while i < ls.len()
        invariant
            1 <= i,
            i <= ls@.len() || ls@.len() == 0,
            ls@.len() > 0 ==> joined@ == join(strs(ls@).subrange(1, i as int), seq!['\n']),
            ls@.len() == 0 ==> joined@ == Seq::<char>::empty(),
        decreases ls.len() - i,
    {
        let ghost prior = strs(ls@).subrange(1, i as int);
        if i > 1 {
            joined.push('\n');
        }
        crate::text::push_str(&mut joined, ls[i].as_str());
        proof {
            assert(strs(ls@).subrange(1, i + 1) =~= prior.push(ls@[i as int]@));
            crate::text::lemma_join_push(prior, seq!['\n'], ls@[i as int]@);
            if i == 1 {
                assert(joined@ =~= ls@[i as int]@);
            }
        }
        i = i + 1;
    }
    proof {
        if ls@.len() > 0 {
            assert(strs(ls@).subrange(1, i as int) =~= strs(ls@).subrange(1, ls@.len() as int));
        }
    }
    let body = crate::text::trim_str(joined.as_str());
    let login = display_rest_author(commit.author);
    let author = if crate::text::str_eq(login.as_str(), "unknown") {
        match &commit.commit.author {
            Some(p) => match &p.name {
                Some(n) => n.clone(),
                None => crate::text::owned("unknown"),
            },
            None => crate::text::owned("unknown"),
        }
    } else {
        login
    };
    let authored_at = match &commit.commit.author {
        Some(p) => crate::domain::copy::copy_opt_string(&p.date),
        None => None,
    };
    let committer_date = match commit.commit.committer {
        Some(p) => p.date,
        None => None,
    };
    let committed_at = match committer_date {
        Some(d) => d,
        None => match &authored_at {
            Some(a) => a.clone(),
            None => crate::text::owned("unknown"),
        },
    };
    let authors = if crate::text::str_eq(author.as_str(), "unknown") {
        Vec::new()
    } else {
        let mut v: Vec<String> = Vec::new();
        v.push(author.clone());
        v
    };
    let r = Commit {
        oid: commit.sha,
        message: headline,
        body,
        author,
        authors,
        authored_at,
        committed_at,
        status: CheckStatus::Unknown,
        deployments: Vec::new(),
    };
    proof {
        assert(r@.authors =~= spec.authors);
        assert(r@.deployments =~= spec.deployments);
        if ls@.len() == 0 {
            assert(r@.message =~= spec.message);
        }
    }
    r
}

pub open spec fn rest_file_spec(f: RestFileDto) -> ChangedFileView {
    ChangedFileView {
        path: f.filename@,
        additions: f.additions,
        deletions: f.deletions,
        change_type: upper_seq(f.status@),
        patch: opt_str(f.patch),
    }
}

/// A REST changed file: its status upper-cased as the change type.
pub fn rest_file(file: RestFileDto) -> (r: ChangedFile)
    ensures
        r@ == rest_file_spec(file),
{
    let change_type = upper_string(file.status.as_str());
    ChangedFile {
        path: file.filename,
        additions: file.additions,
        deletions: file.deletions,
        change_type,
        patch: file.patch,
    }
}

// ---------------------------------------------------------------- assembled resources

/// The warning that opens a resource read from the public REST API.
pub open spec fn fallback_warning(auth_error: Seq<char>) -> Seq<char> {
    "using public REST fallback because no GitHub token is available: "@ + auth_error
}

/// What the public REST API cannot show of a pull request.
pub open spec fn pr_omission_note() -> Seq<char> {
    "public REST fallback omits GraphQL-only enrichment such as reviews, review threads, rich timeline events, projects, participants, relationship links, and check suites"@
}

/// What the public REST API cannot show of an issue.
pub open spec fn issue_omission_note() -> Seq<char> {
    "public REST fallback omits GraphQL-only enrichment such as rich timeline events, projects, participants, issue relationships, duplicate issue targets, linked branches, relationship links, and review data"@
}

/// The warning for a listing that could not be loaded, if it could not.
pub open spec fn listing_warning<T>(label: Seq<char>, r: Result<T, String>) -> Seq<Seq<char>> {
    match r {
        Ok(_) => Seq::empty(),
        Err(e) => seq![label + ": "@ + e@],
    }
}

pub open spec fn listing_or_empty<T: View>(r: Result<Vec<T>, String>) -> Seq<T::V> {
    match r {
        Ok(v) => views(v@),
        Err(_) => Seq::empty(),
    }
}

/// The issue the public REST API shows: its comments when they loaded, and
/// warnings that say it came from the fallback, what failed to load, and
/// what the fallback cannot show.
pub open spec fn public_rest_issue_spec(id: IdView, issue: RestIssueDto, comments: Result<Vec<ActivityEntry>, String>, auth_error: Seq<char>) -> ResourceView {
    let base = rest_issue_resource_spec(issue, id, listing_or_empty(comments));
    ResourceView {
        warnings: seq![fallback_warning(auth_error)] + listing_warning("public comments unavailable"@, comments)
            + seq![issue_omission_note()],
        ..base
    }
}

fn fallback_warning_text(auth_error: &str) -> (s: String)
    ensures
        s@ == fallback_warning(auth_error@),
{
    let mut s = crate::text::owned("using public REST fallback because no GitHub token is available: ");
    push_str(&mut s, auth_error);
    s
}

fn push_listing_warning<T>(warnings: &mut Vec<String>, label: &str, r: &Result<Vec<T>, String>)
    ensures
        strs(final(warnings)@) == strs(old(warnings)@) + listing_warning(label@, *r),
{
    let ghost before = warnings@;
    match r {
        Ok(_) => {
            proof {
                assert(strs(warnings@) =~= strs(before) + listing_warning(label@, *r));
            }
        },
        Err(e) => {
            let mut w = crate::text::owned(label);
            push_str(&mut w, ": ");
            push_str(&mut w, e.as_str());
            warnings.push(w);
            proof {
                assert(strs(warnings@) =~= strs(before) + listing_warning(label@, *r));
            }
        },
    }
}

fn listing_items<T: View>(r: Result<Vec<T>, String>) -> (v: Vec<T>)
    ensures
        views(v@) == listing_or_empty(r),
{
    match r {
        Ok(v) => v,
        Err(_) => {
            let v: Vec<T> = Vec::new();
            proof {
                assert(views(v@) =~= Seq::<T::V>::empty());
            }
            v
        },
    }
}

/// The issue the public REST API shows (see `public_rest_issue_spec`).
pub fn public_rest_issue_resource(id: &ResourceId, issue: RestIssueDto, comments: Result<Vec<ActivityEntry>, String>, auth_error: &str) -> (r: Resource)
    ensures
        r@ == public_rest_issue_spec(id@, issue, comments, auth_error@),
{
    let mut warnings: Vec<String> = Vec::new();
    warnings.push(fallback_warning_text(auth_error));
    proof {
        assert(strs(warnings@) =~= seq![fallback_warning(auth_error@)]);
    }
    push_listing_warning(&mut warnings, "public comments unavailable", &comments);
    let ghost w0 = strs(warnings@);
    let note = crate::text::owned(
        "public REST fallback omits GraphQL-only enrichment such as rich timeline events, projects, participants, issue relationships, duplicate issue targets, linked branches, relationship links, and review data",
    );
    warnings.push(note);
    let ghost w = strs(warnings@);
    proof {
        assert(w =~= w0.push(issue_omission_note()));
    }
    let mut resource = rest_issue_resource(issue, id, listing_items(comments));
    resource.warnings = warnings;
    proof {
        assert(w =~= seq![fallback_warning(auth_error@)] + listing_warning("public comments unavailable"@, comments)
            + seq![issue_omission_note()]);
    }
    resource
}

pub open spec fn merge_state_spec(mergeable: Option<bool>) -> Option<Seq<char>> {
    match mergeable {
        Some(true) => Some("MERGEABLE"@),
        Some(false) => Some("CONFLICTING"@),
        None => None,
    }
}

/// The pull request the public REST API shows: the pull request's own
/// fields over those of its issue, its commits and files when they loaded,
/// no checks, and warnings that say it came from the fallback, what failed
/// to load, and what the fallback cannot show.
pub open spec fn public_rest_pr_spec(
    id: IdView,
    pull: RestPullDto,
    issue: RestIssueDto,
    comments: Result<Vec<ActivityEntry>, String>,
    commits: Result<Vec<Commit>, String>,
    files: Result<Vec<ChangedFile>, String>,
    auth_error: Seq<char>,
) -> ResourceView {
    let base = rest_issue_resource_spec(issue, id, listing_or_empty(comments));
    ResourceView {
        id: IdView { kind_hint: Some(ResourceKind::PullRequest), ..base.id },
        url: pull.html_url@,
        title: pull.title@,
        state: upper_seq(pull.state@),
        author: rest_author_spec(pull.user),
        created_at: pull.created_at@,
        updated_at: pull.updated_at@,
        pull_request: Some(PullRequestView {
            base_ref: match pull.base {
                Some(r) => r.reference@,
                None => Seq::empty(),
            },
            head_ref: match pull.head {
                Some(r) => r.reference@,
                None => Seq::empty(),
            },
            requested_reviewers: rest_names(pull.requested_reviewers@),
            review_decision: None,
            merge_state: merge_state_spec(pull.mergeable),
            additions: match pull.additions {
                Some(n) => n,
                None => 0,
            },
            deletions: match pull.deletions {
                Some(n) => n,
                None => 0,
            },
            commits: listing_or_empty(commits),
            checks: Seq::empty(),
            files: listing_or_empty(files),
            metadata: rest_pr_metadata_spec(pull),
            allowed_merge_methods: Seq::empty(),
        }),
        warnings: seq![fallback_warning(auth_error)] + listing_warning("public comments unavailable"@, comments)
            + listing_warning("public commit list unavailable"@, commits) + listing_warning(
            "public file list unavailable"@,
            files,
        ) + seq![pr_omission_note()],
        ..base
    }
}

/// The pull request the public REST API shows (see `public_rest_pr_spec`).
pub fn public_rest_pr_resource(
    id: &ResourceId,
    pull: RestPullDto,
    issue: RestIssueDto,
    comments: Result<Vec<ActivityEntry>, String>,
    commits: Result<Vec<Commit>, String>,
    files: Result<Vec<ChangedFile>, String>,
    auth_error: &str,
) -> (r: Resource)
    ensures
        r@ == public_rest_pr_spec(id@, pull, issue, comments, commits, files, auth_error@),
{
    let ghost spec = public_rest_pr_spec(id@, pull, issue, comments, commits, files, auth_error@);
    let mut warnings: Vec<String> = Vec::new();
    warnings.push(fallback_warning_text(auth_error));
    proof {
        assert(strs(warnings@) =~= seq![fallback_warning(auth_error@)]);
    }
    push_listing_warning(&mut warnings, "public comments unavailable", &comments);
    push_listing_warning(&mut warnings, "public commit list unavailable", &commits);
    push_listing_warning(&mut warnings, "public file list unavailable", &files);
    let ghost w0 = strs(warnings@);
    let note = crate::text::owned(
        "public REST fallback omits GraphQL-only enrichment such as reviews, review threads, rich timeline events, projects, participants, relationship links, and check suites",
    );
    warnings.push(note);
    let ghost w = strs(warnings@);
    proof {
        assert(w =~= w0.push(pr_omission_note()));
    }
    let metadata = rest_pr_metadata(&pull);
    let mut resource = rest_issue_resource(issue, id, listing_items(comments));
    resource.id.kind_hint = Some(ResourceKind::PullRequest);
    resource.url = pull.html_url;
    resource.title = pull.title;
    resource.state = upper_string(pull.state.as_str());
    resource.author = display_rest_author(pull.user);
    resource.created_at = pull.created_at;
    resource.updated_at = pull.updated_at;
    let merge_state = match pull.mergeable {
        Some(true) => Some(crate::text::owned("MERGEABLE")),
        Some(false) => Some(crate::text::owned("CONFLICTING")),
        None => None,
    };
    let pr = PullRequest {
        base_ref: match pull.base {
            Some(r) => r.reference,
            None => String::new(),
        },
        head_ref: match pull.head {
            Some(r) => r.reference,
            None => String::new(),
        },
        requested_reviewers: rest_names_of(pull.requested_reviewers),
        review_decision: None,
        merge_state,
        additions: match pull.additions {
            Some(n) => n,
            None => 0,
        },
        deletions: match pull.deletions {
            Some(n) => n,
            None => 0,
        },
        commits: listing_items(commits),
        checks: Vec::new(),
        files: listing_items(files),
        metadata,
        allowed_merge_methods: Vec::new(),
    };
    resource.pull_request = Some(pr);
    resource.warnings = warnings;
    proof {
        assert(w =~= spec.warnings);
        assert(resource@.pull_request->0.checks =~= spec.pull_request->0.checks);
        assert(resource@.pull_request->0.allowed_merge_methods =~= spec.pull_request->0.allowed_merge_methods);
        assert(resource@.pull_request->0.base_ref =~= spec.pull_request->0.base_ref);
        assert(resource@.pull_request->0.head_ref =~= spec.pull_request->0.head_ref);
    }
    resource
}

} // verus!

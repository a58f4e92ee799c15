//! Reading what the GitHub CLI (`gh`) reports into the domain model: the
//! commands it is run with, the messages its failures become, and the
//! conversion of each JSON document it prints.
use vstd::prelude::*;

use crate::domain::resource::{
    opt_str, strs, views, ChangedFile, ChangedFileView, CheckRun, CheckRunView, CheckStatus,
    Commit, CommitView, Deployment, DeploymentView, ReactionCounts, Resource, ResourceView,
};
use crate::domain::resource_id::{repo_name_spec, IdView, ResourceId, ResourceKind};
use crate::github::dto::{
    ChangedFilesResponse, CheckDto, CommitDeploymentsResponse, CommitDto, DeploymentDto, FileDto,
    ReactionGroupDto, UserDto,
};
use crate::text::{contains, decimal, lower_seq, push_str, push_u64, trim};

verus! {

/// The fields `gh pr view` is asked for.
pub const PR_FIELDS: &'static str = "number,title,url,state,author,createdAt,updatedAt,labels,assignees,reactionGroups,body,baseRefName,headRefName,baseRefOid,headRefOid,headRepository,headRepositoryOwner,reviewDecision,reviewRequests,closingIssuesReferences,mergeStateStatus,mergeable,isDraft,isCrossRepository,maintainerCanModify,changedFiles,closed,closedAt,mergedAt,mergedBy,milestone,projectItems,autoMergeRequest,mergeCommit,potentialMergeCommit,additions,deletions,commits,statusCheckRollup,files,comments,reviews";

/// The fields `gh issue view` is asked for.
pub const ISSUE_FIELDS: &'static str = "number,title,url,state,author,createdAt,updatedAt,labels,assignees,reactionGroups,body,closed,isPinned,stateReason,closedAt,milestone,projectItems,closedByPullRequestsReferences,comments";

// ---------------------------------------------------------------- small views

/// `a`, or `b` where `a` is absent.
pub open spec fn or_else<T>(a: Option<T>, b: Option<T>) -> Option<T> {
    if a is Some { a } else { b }
}

/// `o` unless it holds the empty text.
pub open spec fn nonempty(o: Option<Seq<char>>) -> Option<Seq<char>> {
    match o {
        Some(s) => if s.len() > 0 { Some(s) } else { None },
        None => None,
    }
}

/// The text held, or `fallback`.
pub open spec fn text_or(o: Option<Seq<char>>, fallback: Seq<char>) -> Seq<char> {
    match o {
        Some(s) => s,
        None => fallback,
    }
}

/// The text of an optional string, or `fallback`.
fn string_or(o: Option<String>, fallback: &str) -> (s: String)
    ensures
        s@ == text_or(opt_str(o), fallback@),
{
    match o {
        Some(s) => s,
        None => crate::text::owned(fallback),
    }
}

/// The first of two optional strings that is present.
fn first_present(a: Option<String>, b: Option<String>) -> (r: Option<String>)
    ensures
        opt_str(r) == or_else(opt_str(a), opt_str(b)),
{
    match a {
        Some(s) => Some(s),
        None => b,
    }
}

/// An optional string, dropped when empty.
fn drop_empty(o: Option<String>) -> (r: Option<String>)
    ensures
        opt_str(r) == nonempty(opt_str(o)),
{
    match o {
        Some(s) => if s.as_str().is_empty() { None } else { Some(s) },
        None => None,
    }
}

/// A copy of an optional string.
fn copy_opt(o: &Option<String>) -> (r: Option<String>)
    ensures
        opt_str(r) == opt_str(*o),
{
    match o {
        Some(s) => Some(s.clone()),
        None => None,
    }
}

// ---------------------------------------------------------------- commands

/// The `gh <kind> view` command for `id`, asking for `fields`.
pub open spec fn view_command_spec(kind: Seq<char>, id: IdView, fields: Seq<char>) -> Seq<Seq<char>> {
    seq!["gh"@, kind, "view"@, decimal(id.number as nat), "-R"@, repo_name_spec(id), "--json"@, fields]
}

fn view_command(kind: &str, id: &ResourceId, fields: &str) -> (v: Vec<String>)
    ensures
        strs(v@) == view_command_spec(kind@, id@, fields@),
{
    let mut v: Vec<String> = Vec::new();
    v.push(crate::text::owned("gh"));
    v.push(crate::text::owned(kind));
    v.push(crate::text::owned("view"));
    v.push(crate::text::u64_to_string(id.number));
    v.push(crate::text::owned("-R"));
    v.push(id.repo_name_with_owner());
    v.push(crate::text::owned("--json"));
    v.push(crate::text::owned(fields));
    proof {
        assert(strs(v@) =~= view_command_spec(kind@, id@, fields@));
    }
    v
}

/// The command that loads the pull request `id`.
pub fn command_preview_for_pr(id: &ResourceId) -> (v: Vec<String>)
    ensures
        strs(v@) == view_command_spec("pr"@, id@, PR_FIELDS@),
{
    view_command("pr", id, PR_FIELDS)
}

/// The command that loads the issue `id`.
pub fn command_preview_for_issue(id: &ResourceId) -> (v: Vec<String>)
    ensures
        strs(v@) == view_command_spec("issue"@, id@, ISSUE_FIELDS@),
{
    view_command("issue", id, ISSUE_FIELDS)
}

// ---------------------------------------------------------------- gateway

/// The source of resources that runs `gh`.
#[derive(Debug, Clone, Copy)]
pub struct GhCliGateway;

/// Where fetching a resource through `gh` stands.
#[derive(Debug)]
pub enum FetchStep {
    /// Fetch the resource as this kind next; when that fails, report the
    /// given message in place of that attempt's own error, if there is one.
    Fetch(ResourceKind, Option<String>),
    /// The fetch is over, with this result.
    Done(Result<Resource, String>),
}

impl GhCliGateway {
    /// How fetching `id` begins: as the kind its reference names, else as a
    /// pull request.
    pub fn first_step(&self, id: &ResourceId) -> (s: FetchStep)
        ensures
            s == FetchStep::Fetch(
                match id.kind_hint {
                    Some(k) => k,
                    None => ResourceKind::PullRequest,
                },
                None,
            ),
    {
        match id.kind_hint {
            Some(k) => FetchStep::Fetch(k, None),
            None => FetchStep::Fetch(ResourceKind::PullRequest, None),
        }
    }

    /// What follows fetching `id` as `kind` with `result`, `on_failure`
    /// being the message the step carried: a success ends the fetch; a
    /// failed guess that the reference is a pull request goes on as an
    /// issue, to report `failed as PR first: ` and the first error if that
    /// fails too; any other failure ends the fetch with `on_failure`, else
    /// its own error.
    pub fn next_step(&self, id: &ResourceId, kind: ResourceKind, on_failure: Option<String>, result: Result<Resource, String>) -> (s: FetchStep)
        ensures
            match result {
                Ok(r) => s == FetchStep::Done(Ok::<Resource, String>(r)),
                Err(e) => if id.kind_hint is None && kind == ResourceKind::PullRequest && on_failure is None {
                    s matches FetchStep::Fetch(k, Some(m)) && k == ResourceKind::Issue && m@ == "failed as PR first: "@ + e@
                } else {
                    s matches FetchStep::Done(Err(m)) && m == match on_failure {
                        Some(f) => f,
                        None => e,
                    }
                },
            },
    {
        match result {
            Ok(r) => FetchStep::Done(Ok(r)),
            Err(e) => {
                let guessed = id.kind_hint.is_none() && on_failure.is_none() && match kind {
                    ResourceKind::PullRequest => true,
                    ResourceKind::Issue => false,
                };
                if guessed {
                    let mut m = crate::text::owned("failed as PR first: ");
                    push_str(&mut m, e.as_str());
                    proof {
                        reveal_strlit("failed as PR first: ");
                    }
                    FetchStep::Fetch(ResourceKind::Issue, Some(m))
                } else {
                    match on_failure {
                        Some(f) => FetchStep::Done(Err(f)),
                        None => FetchStep::Done(Err(e)),
                    }
                }
            },
        }
    }
}

// ---------------------------------------------------------------- failures

/// What a failure to start `command` reads as: a missing `gh` is named as
/// such, with what to do about it; any other failure carries its details.
pub open spec fn execute_error_spec(command: Seq<char>, not_found: bool, detail: Seq<char>) -> Seq<char> {
    if not_found {
        "GitHub CLI executable `gh` was not found while running `"@ + command
            + "`. Install GitHub CLI and run `gh auth status`."@
    } else {
        "failed to execute `"@ + command + "`: "@ + detail
    }
}

/// The message for a failure to start `command` (see `execute_error_spec`);
/// `not_found` tells whether the executable was missing.
pub fn gh_execute_error(command: &str, not_found: bool, detail: &str) -> (s: String)
    ensures
        s@ == execute_error_spec(command@, not_found, detail@),
{
    let mut s = String::new();
    if not_found {
        push_str(&mut s, "GitHub CLI executable `gh` was not found while running `");
        push_str(&mut s, command);
        push_str(&mut s, "`. Install GitHub CLI and run `gh auth status`.");
    } else {
        push_str(&mut s, "failed to execute `");
        push_str(&mut s, command);
        push_str(&mut s, "`: ");
        push_str(&mut s, detail);
    }
    s
}

/// Whether `gh`'s error output says, in any case, that it is not logged in.
pub open spec fn auth_failure_spec(stderr: Seq<char>) -> bool {
    let l = lower_seq(stderr);
    ||| contains(l, "gh auth login"@)
    ||| contains(l, "not logged"@)
    ||| contains(l, "not authenticated"@)
    ||| contains(l, "authentication required"@)
    ||| contains(l, "must authenticate"@)
    ||| contains(l, "bad credentials"@)
    ||| contains(l, "http 401"@)
}

fn lower_contains(hay: &Vec<char>, needle: &str) -> (b: bool)
    ensures
        b == contains(hay@, needle@),
{
    let n = crate::text::chars_of(needle);
    crate::text::chars_contain(hay.as_slice(), n.as_slice())
}

/// Whether `gh`'s error output reports missing authentication (see `auth_failure_spec`).
pub fn looks_like_auth_failure(stderr: &str) -> (b: bool)
    ensures
        b == auth_failure_spec(stderr@),
{
    let l = crate::text::lowercase_chars(stderr);
    lower_contains(&l, "gh auth login") || lower_contains(&l, "not logged") || lower_contains(
        &l,
        "not authenticated",
    ) || lower_contains(&l, "authentication required") || lower_contains(&l, "must authenticate")
        || lower_contains(&l, "bad credentials") || lower_contains(&l, "http 401")
}

/// What a failed `command` reads as, from its trimmed error output: missing
/// authentication with what to run, an empty output as such, or the output.
pub open spec fn failure_message_spec(command: Seq<char>, stderr: Seq<char>) -> Seq<char> {
    let t = trim(stderr);
    if auth_failure_spec(t) {
        "GitHub CLI is not authenticated for `"@ + command
            + "`. Run `gh auth status` and `gh auth login` if needed. Details: "@ + t
    } else if t.len() == 0 {
        "`"@ + command + "` failed without an error message"@
    } else {
        "`"@ + command + "` failed: "@ + t
    }
}

/// The message for a `command` that exited with an error (see `failure_message_spec`).
pub fn gh_failure_message(command: &str, stderr: &str) -> (s: String)
    ensures
        s@ == failure_message_spec(command@, stderr@),
{
    let t = crate::text::trim_str(stderr);
    let mut s = String::new();
    if looks_like_auth_failure(t.as_str()) {
        push_str(&mut s, "GitHub CLI is not authenticated for `");
        push_str(&mut s, command);
        push_str(&mut s, "`. Run `gh auth status` and `gh auth login` if needed. Details: ");
        push_str(&mut s, t.as_str());
    } else if t.as_str().is_empty() {
        push_str(&mut s, "`");
        push_str(&mut s, command);
        push_str(&mut s, "` failed without an error message");
    } else {
        push_str(&mut s, "`");
        push_str(&mut s, command);
        push_str(&mut s, "` failed: ");
        push_str(&mut s, t.as_str());
    }
    s
}

/// Records that loading some part of `resource` failed: `label: error` is
/// added to its warnings, and nothing else changes.
pub fn push_enrichment_warning(resource: &mut Resource, label: &str, error: &str)
    ensures
        final(resource)@ == (ResourceView {
            warnings: old(resource)@.warnings.push(label@ + ": "@ + error@),
            ..old(resource)@
        }),
{
    let mut w = crate::text::owned(label);
    push_str(&mut w, ": ");
    push_str(&mut w, error);
    resource.warnings.push(w);
    proof {
        assert(final(resource)@.warnings =~= old(resource)@.warnings.push(label@ + ": "@ + error@));
    }
}

// ---------------------------------------------------------------- people

/// The name shown for a user: the login, else the name, else `unknown`.
pub open spec fn display_name_spec(u: UserDto) -> Seq<char> {
    text_or(or_else(opt_str(u.login), opt_str(u.name)), "unknown"@)
}

pub open spec fn author_spec(author: Option<UserDto>) -> Seq<char> {
    match author {
        Some(u) => display_name_spec(u),
        None => "unknown"@,
    }
}

impl UserDto {
    /// The name shown for this user (see `display_name_spec`).
    pub fn display_name(&self) -> (s: String)
        ensures
            s@ == display_name_spec(*self),
    {
        match &self.login {
            Some(l) => l.clone(),
            None => match &self.name {
                Some(n) => n.clone(),
                None => crate::text::owned("unknown"),
            },
        }
    }
}

/// The name shown for an author, `unknown` when there is none.
pub fn display_author(author: Option<UserDto>) -> (s: String)
    ensures
        s@ == author_spec(author),
{
    match author {
        Some(u) => u.display_name(),
        None => crate::text::owned("unknown"),
    }
}

/// The names of `users` that are known, in order.
pub open spec fn known_names(users: Seq<UserDto>) -> Seq<Seq<char>>
    decreases users.len(),
{
    if users.len() == 0 {
        Seq::empty()
    } else {
        let prior = known_names(users.drop_last());
        let n = display_name_spec(users.last());
        if n == "unknown"@ { prior } else { prior.push(n) }
    }
}

/// The display names of `users`, leaving out those that are unknown.
pub fn names_from_users(users: Vec<UserDto>) -> (names: Vec<String>)
    ensures
        strs(names@) == known_names(users@),
{
    let mut names: Vec<String> = Vec::new();
    let mut i: usize = 0;
    while i < users.len()
        invariant
            i <= users@.len(),
            strs(names@) == known_names(users@.subrange(0, i as int)),
        decreases users.len() - i,
    {
        let n = users[i].display_name();
        proof {
            assert(users@.subrange(0, i + 1).drop_last() =~= users@.subrange(0, i as int));
        }
        if !crate::text::str_eq(n.as_str(), "unknown") {
            names.push(n);
            proof {
                assert(strs(names@) =~= known_names(users@.subrange(0, i as int)).push(n@));
            }
        }
        i = i + 1;
    }
    proof {
        assert(users@.subrange(0, i as int) =~= users@);
    }
    names
}

// ---------------------------------------------------------------- reactions

/// `counts` with the count of one reaction group set, by its content name;
/// an unknown content changes nothing.
pub open spec fn apply_reaction_group(counts: ReactionCounts, g: ReactionGroupDto) -> ReactionCounts {
    let n = g.users.total_count;
    let c = g.content@;
    if c == "THUMBS_UP"@ {
        ReactionCounts { thumbs_up: n, ..counts }
    } else if c == "THUMBS_DOWN"@ {
        ReactionCounts { thumbs_down: n, ..counts }
    } else if c == "LAUGH"@ {
        ReactionCounts { laugh: n, ..counts }
    } else if c == "HOORAY"@ {
        ReactionCounts { hooray: n, ..counts }
    } else if c == "CONFUSED"@ {
        ReactionCounts { confused: n, ..counts }
    } else if c == "HEART"@ {
        ReactionCounts { heart: n, ..counts }
    } else if c == "ROCKET"@ {
        ReactionCounts { rocket: n, ..counts }
    } else if c == "EYES"@ {
        ReactionCounts { eyes: n, ..counts }
    } else {
        counts
    }
}

proof fn lemma_reaction_words()
    ensures
        "THUMBS_UP"@.len() == 9 && "THUMBS_UP"@[0] == 'T',
        "THUMBS_DOWN"@.len() == 11 && "THUMBS_DOWN"@[0] == 'T',
        "LAUGH"@.len() == 5 && "LAUGH"@[0] == 'L',
        "HOORAY"@.len() == 6 && "HOORAY"@[0] == 'H',
        "CONFUSED"@.len() == 8 && "CONFUSED"@[0] == 'C',
        "HEART"@.len() == 5 && "HEART"@[0] == 'H',
        "ROCKET"@.len() == 6 && "ROCKET"@[0] == 'R',
        "EYES"@.len() == 4 && "EYES"@[0] == 'E',
{
    reveal_strlit("THUMBS_UP");
    reveal_strlit("THUMBS_DOWN");
    reveal_strlit("LAUGH");
    reveal_strlit("HOORAY");
    reveal_strlit("CONFUSED");
    reveal_strlit("HEART");
    reveal_strlit("ROCKET");
    reveal_strlit("EYES");
}

/// Each reaction group sets the count of the reaction it names, from its
/// users' total, and no other count: THUMBS_UP, THUMBS_DOWN, LAUGH, HOORAY,
/// CONFUSED, HEART, ROCKET and EYES.
pub proof fn law_reaction_group_sets_its_count(counts: ReactionCounts, g: ReactionGroupDto)
    ensures
        g.content@ == "THUMBS_UP"@ ==> apply_reaction_group(counts, g) == (ReactionCounts { thumbs_up: g.users.total_count, ..counts }),
        g.content@ == "THUMBS_DOWN"@ ==> apply_reaction_group(counts, g) == (ReactionCounts { thumbs_down: g.users.total_count, ..counts }),
        g.content@ == "LAUGH"@ ==> apply_reaction_group(counts, g) == (ReactionCounts { laugh: g.users.total_count, ..counts }),
        g.content@ == "HOORAY"@ ==> apply_reaction_group(counts, g) == (ReactionCounts { hooray: g.users.total_count, ..counts }),
        g.content@ == "CONFUSED"@ ==> apply_reaction_group(counts, g) == (ReactionCounts { confused: g.users.total_count, ..counts }),
        g.content@ == "HEART"@ ==> apply_reaction_group(counts, g) == (ReactionCounts { heart: g.users.total_count, ..counts }),
        g.content@ == "ROCKET"@ ==> apply_reaction_group(counts, g) == (ReactionCounts { rocket: g.users.total_count, ..counts }),
        g.content@ == "EYES"@ ==> apply_reaction_group(counts, g) == (ReactionCounts { eyes: g.users.total_count, ..counts }),
{
    lemma_reaction_words();
}

/// The counts of `groups` applied in order to all-zero counts.
pub open spec fn reaction_counts_spec(groups: Seq<ReactionGroupDto>) -> ReactionCounts
    decreases groups.len(),
{
    if groups.len() == 0 {
        ReactionCounts {
            thumbs_up: 0,
            thumbs_down: 0,
            laugh: 0,
            hooray: 0,
            confused: 0,
            heart: 0,
            rocket: 0,
            eyes: 0,
        }
    } else {
        apply_reaction_group(reaction_counts_spec(groups.drop_last()), groups.last())
    }
}

/// The reaction counts that `groups` report (see `reaction_counts_spec`).
pub fn reaction_counts(groups: &Vec<ReactionGroupDto>) -> (counts: ReactionCounts)
    ensures
        counts == reaction_counts_spec(groups@),
{
    let mut counts = ReactionCounts::zero();
    let mut i: usize = 0;
    while i < groups.len()
        invariant
            i <= groups@.len(),
            counts == reaction_counts_spec(groups@.subrange(0, i as int)),
        decreases groups.len() - i,
    {
        let g = &groups[i];
        let n = g.users.total_count;
        let c = g.content.as_str();
        proof {
            assert(groups@.subrange(0, i + 1).drop_last() =~= groups@.subrange(0, i as int));
        }
        if crate::text::str_eq(c, "THUMBS_UP") {
            counts.thumbs_up = n;
        } else if crate::text::str_eq(c, "THUMBS_DOWN") {
            counts.thumbs_down = n;
        } else if crate::text::str_eq(c, "LAUGH") {
            counts.laugh = n;
        } else if crate::text::str_eq(c, "HOORAY") {
            counts.hooray = n;
        } else if crate::text::str_eq(c, "CONFUSED") {
            counts.confused = n;
        } else if crate::text::str_eq(c, "HEART") {
            counts.heart = n;
        } else if crate::text::str_eq(c, "ROCKET") {
            counts.rocket = n;
        } else if crate::text::str_eq(c, "EYES") {
            counts.eyes = n;
        }
        i = i + 1;
    }
    proof {
        assert(groups@.subrange(0, i as int) =~= groups@);
    }
    counts
}

// ---------------------------------------------------------------- checks

/// How a check's status (or state) and conclusion, as GitHub writes them,
/// map to a status.
pub open spec fn classify_check_spec(status: Option<Seq<char>>, conclusion: Option<Seq<char>>) -> CheckStatus {
    let s = status;
    let c = conclusion;
    if (s == Some("COMPLETED"@) && c == Some("SUCCESS"@)) || s == Some("SUCCESS"@) {
        CheckStatus::Success
    } else if s == Some("COMPLETED"@) && (c == Some("FAILURE"@) || c == Some("TIMED_OUT"@) || c
        == Some("ACTION_REQUIRED"@) || c == Some("STARTUP_FAILURE"@)) {
        CheckStatus::Failure
    } else if s == Some("COMPLETED"@) && (c == Some("SKIPPED"@) || c == Some("CANCELLED"@) || c
        == Some("STALE"@)) {
        CheckStatus::Skipped
    } else if s == Some("COMPLETED"@) && c == Some("NEUTRAL"@) {
        CheckStatus::Neutral
    } else if s == Some("COMPLETED"@) {
        CheckStatus::Unknown
    } else if s == Some("ERROR"@) || s == Some("FAILURE"@) {
        CheckStatus::Failure
    } else if s == Some("EXPECTED"@) {
        CheckStatus::Pending
    } else if s == Some("QUEUED"@) || s == Some("IN_PROGRESS"@) || s == Some("PENDING"@) || s
        == Some("WAITING"@) || s == Some("REQUESTED"@) {
        CheckStatus::Pending
    } else {
        CheckStatus::Unknown
    }
}

proof fn lemma_check_words()
    ensures
        "COMPLETED"@.len() == 9 && "COMPLETED"@[0] == 'C',
        "SUCCESS"@.len() == 7 && "SUCCESS"@[0] == 'S' && "SUCCESS"@[1] == 'U',
        "FAILURE"@.len() == 7 && "FAILURE"@[0] == 'F',
        "TIMED_OUT"@.len() == 9 && "TIMED_OUT"@[0] == 'T',
        "ACTION_REQUIRED"@.len() == 15 && "ACTION_REQUIRED"@[0] == 'A',
        "STARTUP_FAILURE"@.len() == 15 && "STARTUP_FAILURE"@[0] == 'S',
        "SKIPPED"@.len() == 7 && "SKIPPED"@[0] == 'S' && "SKIPPED"@[1] == 'K',
        "CANCELLED"@.len() == 9 && "CANCELLED"@[0] == 'C',
        "STALE"@.len() == 5 && "STALE"@[0] == 'S',
        "NEUTRAL"@.len() == 7 && "NEUTRAL"@[0] == 'N',
        "ERROR"@.len() == 5 && "ERROR"@[0] == 'E',
        "EXPECTED"@.len() == 8 && "EXPECTED"@[0] == 'E',
        "QUEUED"@.len() == 6 && "QUEUED"@[0] == 'Q',
        "IN_PROGRESS"@.len() == 11 && "IN_PROGRESS"@[0] == 'I',
        "PENDING"@.len() == 7 && "PENDING"@[0] == 'P',
        "WAITING"@.len() == 7 && "WAITING"@[0] == 'W',
        "REQUESTED"@.len() == 9 && "REQUESTED"@[0] == 'R',
{
    reveal_strlit("COMPLETED");
    reveal_strlit("SUCCESS");
    reveal_strlit("FAILURE");
    reveal_strlit("TIMED_OUT");
    reveal_strlit("ACTION_REQUIRED");
    reveal_strlit("STARTUP_FAILURE");
    reveal_strlit("SKIPPED");
    reveal_strlit("CANCELLED");
    reveal_strlit("STALE");
    reveal_strlit("NEUTRAL");
    reveal_strlit("ERROR");
    reveal_strlit("EXPECTED");
    reveal_strlit("QUEUED");
    reveal_strlit("IN_PROGRESS");
    reveal_strlit("PENDING");
    reveal_strlit("WAITING");
    reveal_strlit("REQUESTED");
}

/// How GitHub's check states read, whatever the conclusion: queued, in
/// progress, pending, waiting, requested and expected checks are pending; a
/// success state is a success; error and failure states are failures; a
/// check with no state is unknown. A completed check goes by its
/// conclusion: success; failure, timed out, action required and startup
/// failure are failures; skipped, cancelled and stale are skipped; neutral
/// is neutral; none is unknown.
pub proof fn law_check_states_read_as_github_writes_them(conclusion: Option<Seq<char>>)
    ensures
        classify_check_spec(Some("QUEUED"@), conclusion) == CheckStatus::Pending,
        classify_check_spec(Some("IN_PROGRESS"@), conclusion) == CheckStatus::Pending,
        classify_check_spec(Some("PENDING"@), conclusion) == CheckStatus::Pending,
        classify_check_spec(Some("WAITING"@), conclusion) == CheckStatus::Pending,
        classify_check_spec(Some("REQUESTED"@), conclusion) == CheckStatus::Pending,
        classify_check_spec(Some("EXPECTED"@), conclusion) == CheckStatus::Pending,
        classify_check_spec(Some("SUCCESS"@), conclusion) == CheckStatus::Success,
        classify_check_spec(Some("ERROR"@), conclusion) == CheckStatus::Failure,
        classify_check_spec(Some("FAILURE"@), conclusion) == CheckStatus::Failure,
        classify_check_spec(None, conclusion) == CheckStatus::Unknown,
        classify_check_spec(Some("COMPLETED"@), Some("SUCCESS"@)) == CheckStatus::Success,
        classify_check_spec(Some("COMPLETED"@), Some("FAILURE"@)) == CheckStatus::Failure,
        classify_check_spec(Some("COMPLETED"@), Some("TIMED_OUT"@)) == CheckStatus::Failure,
        classify_check_spec(Some("COMPLETED"@), Some("ACTION_REQUIRED"@)) == CheckStatus::Failure,
        classify_check_spec(Some("COMPLETED"@), Some("STARTUP_FAILURE"@)) == CheckStatus::Failure,
        classify_check_spec(Some("COMPLETED"@), Some("SKIPPED"@)) == CheckStatus::Skipped,
        classify_check_spec(Some("COMPLETED"@), Some("CANCELLED"@)) == CheckStatus::Skipped,
        classify_check_spec(Some("COMPLETED"@), Some("STALE"@)) == CheckStatus::Skipped,
        classify_check_spec(Some("COMPLETED"@), Some("NEUTRAL"@)) == CheckStatus::Neutral,
        classify_check_spec(Some("COMPLETED"@), None) == CheckStatus::Unknown,
{
    assert(classify_check_spec(Some("QUEUED"@), conclusion) == CheckStatus::Pending) by {
        lemma_check_words();
    }
    assert(classify_check_spec(Some("IN_PROGRESS"@), conclusion) == CheckStatus::Pending) by {
        lemma_check_words();
    }
    assert(classify_check_spec(Some("PENDING"@), conclusion) == CheckStatus::Pending) by {
        lemma_check_words();
    }
    assert(classify_check_spec(Some("WAITING"@), conclusion) == CheckStatus::Pending) by {
        lemma_check_words();
    }
    assert(classify_check_spec(Some("REQUESTED"@), conclusion) == CheckStatus::Pending) by {
        lemma_check_words();
    }
    assert(classify_check_spec(Some("EXPECTED"@), conclusion) == CheckStatus::Pending) by {
        lemma_check_words();
    }
    assert(classify_check_spec(Some("SUCCESS"@), conclusion) == CheckStatus::Success) by {
        lemma_check_words();
    }
    assert(classify_check_spec(Some("ERROR"@), conclusion) == CheckStatus::Failure) by {
        lemma_check_words();
    }
    assert(classify_check_spec(Some("FAILURE"@), conclusion) == CheckStatus::Failure) by {
        lemma_check_words();
    }
    assert(classify_check_spec(None, conclusion) == CheckStatus::Unknown) by {
        lemma_check_words();
    }
    assert(classify_check_spec(Some("COMPLETED"@), Some("SUCCESS"@)) == CheckStatus::Success) by {
        lemma_check_words();
    }
    assert(classify_check_spec(Some("COMPLETED"@), Some("FAILURE"@)) == CheckStatus::Failure) by {
        lemma_check_words();
    }
    assert(classify_check_spec(Some("COMPLETED"@), Some("TIMED_OUT"@)) == CheckStatus::Failure) by {
        lemma_check_words();
    }
    assert(classify_check_spec(Some("COMPLETED"@), Some("ACTION_REQUIRED"@)) == CheckStatus::Failure) by {
        lemma_check_words();
    }
    assert(classify_check_spec(Some("COMPLETED"@), Some("STARTUP_FAILURE"@)) == CheckStatus::Failure) by {
        lemma_check_words();
    }
    assert(classify_check_spec(Some("COMPLETED"@), Some("SKIPPED"@)) == CheckStatus::Skipped) by {
        lemma_check_words();
    }
    assert(classify_check_spec(Some("COMPLETED"@), Some("CANCELLED"@)) == CheckStatus::Skipped) by {
        lemma_check_words();
    }
    assert(classify_check_spec(Some("COMPLETED"@), Some("STALE"@)) == CheckStatus::Skipped) by {
        lemma_check_words();
    }
    assert(classify_check_spec(Some("COMPLETED"@), Some("NEUTRAL"@)) == CheckStatus::Neutral) by {
        lemma_check_words();
    }
    assert(classify_check_spec(Some("COMPLETED"@), None) == CheckStatus::Unknown) by {
        lemma_check_words();
    }
}

fn opt_eq(o: Option<&str>, lit: &str) -> (b: bool)
    ensures
        b == (match o {
            Some(s) => Some(s@),
            None => None,
        } == Some(lit@)),
{
    match o {
        Some(s) => crate::text::str_eq(s, lit),
        None => false,
    }
}

/// The status of a check (see `classify_check_spec`).
pub fn classify_check(status: Option<&str>, conclusion: Option<&str>) -> (r: CheckStatus)
    ensures
        r == classify_check_spec(
            match status {
                Some(s) => Some(s@),
                None => None,
            },
            match conclusion {
                Some(c) => Some(c@),
                None => None,
            },
        ),
{
    let completed = opt_eq(status, "COMPLETED");
    if (completed && opt_eq(conclusion, "SUCCESS")) || opt_eq(status, "SUCCESS") {
        CheckStatus::Success
    } else if completed && (opt_eq(conclusion, "FAILURE") || opt_eq(conclusion, "TIMED_OUT")
        || opt_eq(conclusion, "ACTION_REQUIRED") || opt_eq(conclusion, "STARTUP_FAILURE")) {
        CheckStatus::Failure
    } else if completed && (opt_eq(conclusion, "SKIPPED") || opt_eq(conclusion, "CANCELLED")
        || opt_eq(conclusion, "STALE")) {
        CheckStatus::Skipped
    } else if completed && opt_eq(conclusion, "NEUTRAL") {
        CheckStatus::Neutral
    } else if completed {
        CheckStatus::Unknown
    } else if opt_eq(status, "ERROR") || opt_eq(status, "FAILURE") {
        CheckStatus::Failure
    } else if opt_eq(status, "EXPECTED") {
        CheckStatus::Pending
    } else if opt_eq(status, "QUEUED") || opt_eq(status, "IN_PROGRESS") || opt_eq(
        status,
        "PENDING",
    ) || opt_eq(status, "WAITING") || opt_eq(status, "REQUESTED") {
        CheckStatus::Pending
    } else {
        CheckStatus::Unknown
    }
}

/// The name a check is shown under: `workflow/name` when both are given and
/// differ, else the workflow, the name, the status context, or `check`.
pub open spec fn check_name_spec(workflow: Option<Seq<char>>, name: Option<Seq<char>>, context: Option<Seq<char>>) -> Seq<char> {
    match workflow {
        Some(w) => match name {
            Some(n) => if w != n { w + seq!['/'] + n } else { w },
            None => w,
        },
        None => match name {
            Some(n) => n,
            None => match context {
                Some(c) => c,
                None => "check"@,
            },
        },
    }
}

/// How a check is named: `workflow/name` when both are given and differ,
/// the workflow alone when they agree or the name is missing; without a
/// workflow, the name, else the status context, else `check`.
pub proof fn law_check_names(w: Seq<char>, n: Seq<char>, c: Option<Seq<char>>, ctx: Seq<char>)
    ensures
        w != n ==> check_name_spec(Some(w), Some(n), c) == w + "/"@ + n,
        check_name_spec(Some(w), Some(w), c) == w,
        check_name_spec(Some(w), None, c) == w,
        check_name_spec(None, Some(n), c) == n,
        check_name_spec(None, None, Some(ctx)) == ctx,
        check_name_spec(None, None, None) == "check"@,
{
    reveal_strlit("/");
    assert("/"@ =~= seq!['/']);
}

/// The check run a status-check rollup entry describes: a check run's
/// status or a status context's state, kept raw as well as classified.
pub open spec fn check_view_spec(c: CheckDto) -> CheckRunView {
    let raw = or_else(opt_str(c.status), opt_str(c.state));
    CheckRunView {
        name: check_name_spec(opt_str(c.workflow_name), opt_str(c.name), opt_str(c.context)),
        status: classify_check_spec(raw, opt_str(c.conclusion)),
        summary: None,
        details_url: nonempty(or_else(opt_str(c.details_url), opt_str(c.target_url))),
        started_at: nonempty(opt_str(c.started_at)),
        completed_at: nonempty(opt_str(c.completed_at)),
        raw_status: nonempty(raw),
        raw_conclusion: nonempty(opt_str(c.conclusion)),
    }
}

/// Reads a status-check rollup entry (see `check_view_spec`).
pub fn check_from_dto(check: CheckDto) -> (r: CheckRun)
    ensures
        r@ == check_view_spec(check),
{
    let status = {
        let s = match &check.status {
            Some(s) => Some(s.as_str()),
            None => match &check.state {
                Some(s) => Some(s.as_str()),
                None => None,
            },
        };
        let c = match &check.conclusion {
            Some(c) => Some(c.as_str()),
            None => None,
        };
        classify_check(s, c)
    };
    let raw_status = drop_empty(first_present(check.status, check.state));
    let raw_conclusion = drop_empty(check.conclusion);
    let name = match check.workflow_name {
        Some(w) => match check.name {
            Some(n) => if crate::text::str_eq(w.as_str(), n.as_str()) {
                w
            } else {
                let mut s = w;
                s.push('/');
                push_str(&mut s, n.as_str());
                s
            },
            None => w,
        },
        None => match check.name {
            Some(n) => n,
            None => match check.context {
                Some(c) => c,
                None => crate::text::owned("check"),
            },
        },
    };
    let ghost spec = check_view_spec(check);
    assert(name@ == spec.name);
    assert(status == spec.status);
    let details_url = drop_empty(first_present(check.details_url, check.target_url));
    let started_at = drop_empty(check.started_at);
    let completed_at = drop_empty(check.completed_at);
    assert(opt_str(raw_status) == spec.raw_status);
    assert(opt_str(raw_conclusion) == spec.raw_conclusion);
    CheckRun { name, status, summary: None, details_url, started_at, completed_at, raw_status, raw_conclusion }
}

// ---------------------------------------------------------------- files

pub open spec fn file_view_spec(f: FileDto) -> ChangedFileView {
    ChangedFileView {
        path: f.path@,
        additions: f.additions,
        deletions: f.deletions,
        change_type: text_or(opt_str(f.change_type), "MODIFIED"@),
        patch: None,
    }
}

/// A changed file as listed, its change type `MODIFIED` when not given.
pub fn file_from_dto(file: FileDto) -> (r: ChangedFile)
    ensures
        r@ == file_view_spec(file),
{
    ChangedFile {
        path: file.path,
        additions: file.additions,
        deletions: file.deletions,
        change_type: string_or(file.change_type, "MODIFIED"),
        patch: None,
    }
}

/// The files of a list of file entries, in order.
pub open spec fn files_view_spec(files: Seq<FileDto>) -> Seq<ChangedFileView> {
    files.map_values(|f: FileDto| file_view_spec(f))
}

/// Reads a list of file entries (see `file_from_dto`).
pub fn files_from_dtos(files: Vec<FileDto>) -> (r: Vec<ChangedFile>)
    ensures
        views(r@) == files_view_spec(files@),
{
    let mut r: Vec<ChangedFile> = Vec::new();
    let mut rest = files;
    let ghost all = rest@;
    let mut taken: usize = 0;
    while taken < rest.len()
        invariant
            rest@ == all,
            taken <= all.len(),
            views(r@) == files_view_spec(all.subrange(0, taken as int)),
        decreases all.len() - taken,
    {
        let f = rest[taken].clone_dto();
        let c = file_from_dto(f);
        let ghost before = r@;
        r.push(c);
        proof {
            assert(views(r@) =~= views(before).push(c@));
            assert(files_view_spec(all.subrange(0, taken + 1)) =~= files_view_spec(
                all.subrange(0, taken as int),
            ).push(file_view_spec(all[taken as int])));
        }
        taken = taken + 1;
    }
    proof {
        assert(all.subrange(0, taken as int) =~= all);
    }
    r
}

impl FileDto {
    /// A copy of this entry.
    pub fn clone_dto(&self) -> (r: Self)
        ensures
            r.path@ == self.path@,
            r.additions == self.additions,
            r.deletions == self.deletions,
            opt_str(r.change_type) == opt_str(self.change_type),
            file_view_spec(r) == file_view_spec(*self),
    {
        FileDto {
            path: self.path.clone(),
            additions: self.additions,
            deletions: self.deletions,
            change_type: copy_opt(&self.change_type),
        }
    }
}

/// The files a changed-files page lists; none when the repository or pull
/// request is missing.
pub open spec fn changed_files_spec(response: ChangedFilesResponse) -> Seq<ChangedFileView> {
    match response.data.repository {
        Some(repository) => match repository.pull_request {
            Some(pr) => files_view_spec(pr.files.nodes@),
            None => Seq::empty(),
        },
        None => Seq::empty(),
    }
}

/// Reads a changed-files page (see `changed_files_spec`).
pub fn changed_files_from_response(response: ChangedFilesResponse) -> (r: Vec<ChangedFile>)
    ensures
        views(r@) == changed_files_spec(response),
{
    match response.data.repository {
        Some(repository) => match repository.pull_request {
            Some(pr) => files_from_dtos(pr.files.nodes),
            None => {
                let r: Vec<ChangedFile> = Vec::new();
                proof {
                    assert(views(r@) =~= Seq::<ChangedFileView>::empty());
                }
                r
            },
        },
        None => {
            let r: Vec<ChangedFile> = Vec::new();
            proof {
                assert(views(r@) =~= Seq::<ChangedFileView>::empty());
            }
            r
        },
    }
}


// ---------------------------------------------------------------- deployments

pub open spec fn status_text(st: Option<crate::github::dto::DeploymentStatusDto>, pick: spec_fn(crate::github::dto::DeploymentStatusDto) -> Option<String>) -> Option<Seq<char>> {
    match st {
        Some(x) => opt_str(pick(x)),
        None => None,
    }
}

/// A deployment as the commit list shows it: state, description, URLs and
/// times from its latest status where it has them, else from the
/// deployment; its environment, else its task, else `deployment`.
pub open spec fn deployment_view_spec(d: DeploymentDto) -> DeploymentView {
    let st = d.latest_status;
    DeploymentView {
        environment: text_or(or_else(nonempty(opt_str(d.environment)), opt_str(d.task)), "deployment"@),
        state: text_or(status_text(st, |x: crate::github::dto::DeploymentStatusDto| x.state), "UNKNOWN"@),
        description: or_else(status_text(st, |x: crate::github::dto::DeploymentStatusDto| x.description), opt_str(d.description)),
        environment_url: status_text(st, |x: crate::github::dto::DeploymentStatusDto| x.environment_url),
        log_url: status_text(st, |x: crate::github::dto::DeploymentStatusDto| x.log_url),
        created_at: or_else(opt_str(d.created_at), status_text(st, |x: crate::github::dto::DeploymentStatusDto| x.created_at)),
        updated_at: text_or(
            or_else(opt_str(d.updated_at), status_text(st, |x: crate::github::dto::DeploymentStatusDto| x.created_at)),
            "unknown"@,
        ),
    }
}

/// Reads a deployment (see `deployment_view_spec`).
pub fn deployment_from_dto(deployment: DeploymentDto) -> (r: Deployment)
    ensures
        r@ == deployment_view_spec(deployment),
{
    let ghost spec = deployment_view_spec(deployment);
    let (st_state, st_description, st_environment_url, st_log_url, st_created_at) = match deployment.latest_status {
        Some(st) => (st.state, st.description, st.environment_url, st.log_url, st.created_at),
        None => (None, None, None, None, None),
    };
    let updated_source = copy_opt(&st_created_at);
    let r = Deployment {
        environment: string_or(first_present(drop_empty(deployment.environment), deployment.task), "deployment"),
        state: string_or(st_state, "UNKNOWN"),
        description: first_present(st_description, deployment.description),
        environment_url: st_environment_url,
        log_url: st_log_url,
        created_at: first_present(copy_opt(&deployment.created_at), st_created_at),
        updated_at: string_or(first_present(deployment.updated_at, updated_source), "unknown"),
    };
    r
}

/// The deployments of each commit a commit-deployments page lists, by
/// commit id, in page order; nothing when the repository or pull request
/// is missing.
pub open spec fn commit_deployments_spec(response: CommitDeploymentsResponse) -> Seq<(Seq<char>, Seq<DeploymentView>)> {
    match response.data.repository {
        Some(repository) => match repository.pull_request {
            Some(pr) => pr.commits.nodes@.map_values(
                |n: crate::github::dto::CommitDeploymentNode| (
                    n.commit.oid@,
                    n.commit.deployments.nodes@.map_values(|d: DeploymentDto| deployment_view_spec(d)),
                ),
            ),
            None => Seq::empty(),
        },
        None => Seq::empty(),
    }
}

/// The views of a list of (commit id, deployments) entries.
pub open spec fn deployment_entries_view(v: Seq<(String, Vec<Deployment>)>) -> Seq<(Seq<char>, Seq<DeploymentView>)> {
    v.map_values(|e: (String, Vec<Deployment>)| (e.0@, views(e.1@)))
}

fn deployments_from_dtos(nodes: Vec<DeploymentDto>) -> (r: Vec<Deployment>)
    ensures
        views(r@) == nodes@.map_values(|d: DeploymentDto| deployment_view_spec(d)),
{
    let mut r: Vec<Deployment> = Vec::new();
    let mut rest = nodes;
    let ghost all = rest@;
    let mut k: usize = 0;
    assert(rest.len() == all.len());
    while rest.len() > 0
        invariant
            k + rest@.len() == all.len(),
            all.len() <= usize::MAX,
            rest@ == all.subrange(k as int, all.len() as int),
            views(r@) == all.subrange(0, k as int).map_values(|d: DeploymentDto| deployment_view_spec(d)),
        decreases rest.len(),
    {
        let d = rest.remove(0);
        let ghost before = r@;
        r.push(deployment_from_dto(d));
        proof {
            assert(views(r@) =~= views(before).push(r@.last()@));
            assert(all.subrange(0, k + 1).map_values(|d: DeploymentDto| deployment_view_spec(d)) =~= all.subrange(
                0,
                k as int,
            ).map_values(|d: DeploymentDto| deployment_view_spec(d)).push(deployment_view_spec(all[k as int])));
            assert(rest@ =~= all.subrange(k + 1, all.len() as int));
        }
        k = k + 1;
    }
    proof {
        assert(all.subrange(0, k as int) =~= all);
    }
    r
}

/// Reads a commit-deployments page (see `commit_deployments_spec`).
pub fn commit_deployments_from_response(response: CommitDeploymentsResponse) -> (r: Vec<(String, Vec<Deployment>)>)
    ensures
        deployment_entries_view(r@) == commit_deployments_spec(response),
{
    let mut r: Vec<(String, Vec<Deployment>)> = Vec::new();
    let ghost spec = commit_deployments_spec(response);
    match response.data.repository {
        Some(repository) => match repository.pull_request {
            Some(pr) => {
                let mut rest = pr.commits.nodes;
                let ghost all = rest@;
                let mut k: usize = 0;
                assert(rest.len() == all.len());
                while rest.len() > 0
                    invariant
                        k + rest@.len() == all.len(),
                        all.len() <= usize::MAX,
                        rest@ == all.subrange(k as int, all.len() as int),
                        deployment_entries_view(r@) == all.subrange(0, k as int).map_values(
                            |n: crate::github::dto::CommitDeploymentNode| (
                                n.commit.oid@,
                                n.commit.deployments.nodes@.map_values(|d: DeploymentDto| deployment_view_spec(d)),
                            ),
                        ),
                    decreases rest.len(),
                {
                    let node = rest.remove(0);
                    let ghost before = r@;
                    let ghost n0 = node;
                    let ds = deployments_from_dtos(node.commit.deployments.nodes);
                    r.push((node.commit.oid, ds));
                    proof {
                        assert(deployment_entries_view(r@) =~= deployment_entries_view(before).push(
                            (n0.commit.oid@, n0.commit.deployments.nodes@.map_values(|d: DeploymentDto| deployment_view_spec(d))),
                        ));
                        assert(all.subrange(0, k + 1) =~= all.subrange(0, k as int).push(all[k as int]));
                        assert(rest@ =~= all.subrange(k + 1, all.len() as int));
                    }
                    k = k + 1;
                }
                proof {
                    assert(all.subrange(0, k as int) =~= all);
                }
            },
            None => {},
        },
        None => {},
    }
    proof {
        assert(deployment_entries_view(r@) =~= spec);
    }
    r
}

/// The value of the last entry of `entries` under `key`, as a map built from
/// them in order holds it.
pub open spec fn last_entry<V>(entries: Seq<(Seq<char>, V)>, key: Seq<char>) -> Option<V>
    decreases entries.len(),
{
    if entries.len() == 0 {
        None
    } else if entries.last().0 == key {
        Some(entries.last().1)
    } else {
        last_entry(entries.drop_last(), key)
    }
}

pub proof fn lemma_last_entry_at<V>(entries: Seq<(Seq<char>, V)>, key: Seq<char>, j: int)
    requires
        0 <= j < entries.len(),
        entries[j].0 == key,
        forall|m: int| j < m < entries.len() ==> (#[trigger] entries[m]).0 != key,
    ensures
        last_entry(entries, key) == Some(entries[j].1),
    decreases entries.len(),
{
    if j < entries.len() - 1 {
        let d = entries.drop_last();
        assert forall|m: int| j < m < d.len() implies (#[trigger] d[m]).0 != key by {
            assert(d[m] == entries[m]);
        }
        lemma_last_entry_at(d, key, j);
    }
}

pub proof fn lemma_last_entry_none<V>(entries: Seq<(Seq<char>, V)>, key: Seq<char>)
    requires
        forall|m: int| 0 <= m < entries.len() ==> (#[trigger] entries[m]).0 != key,
    ensures
        last_entry(entries, key) is None,
    decreases entries.len(),
{
    if entries.len() > 0 {
        let d = entries.drop_last();
        assert forall|m: int| 0 <= m < d.len() implies (#[trigger] d[m]).0 != key by {
            assert(d[m] == entries[m]);
        }
        lemma_last_entry_none(d, key);
    }
}

/// The index of the last entry under `key`, if any.
fn find_last<V>(entries: &Vec<(String, V)>, key: &str) -> (r: Option<usize>)
    ensures
        match r {
            Some(j) => j < entries@.len() && entries@[j as int].0@ == key@ && forall|m: int|
                j < m < entries@.len() ==> (#[trigger] entries@[m]).0@ != key@,
            None => forall|m: int| 0 <= m < entries@.len() ==> (#[trigger] entries@[m]).0@ != key@,
        },
{
    let mut j = entries.len();
    while j > 0
        invariant
            j <= entries@.len(),
            forall|m: int| j <= m < entries@.len() ==> (#[trigger] entries@[m]).0@ != key@,
        decreases j,
    {
        if crate::text::str_eq(entries[j - 1].0.as_str(), key) {
            return Some(j - 1);
        }
        j = j - 1;
    }
    None
}

/// A commit with the deployments `entries` list for its id, if any.
pub open spec fn with_deployments(c: CommitView, entries: Seq<(Seq<char>, Seq<DeploymentView>)>) -> CommitView {
    match last_entry(entries, c.oid) {
        Some(ds) => CommitView { deployments: ds, ..c },
        None => c,
    }
}

/// Gives each commit the deployments listed for its id (the last listing
/// when there are several); other commits are left alone.
pub fn apply_commit_deployments(commits: &mut Vec<Commit>, deployments_by_commit: Vec<(String, Vec<Deployment>)>)
    ensures
        final(commits)@.len() == old(commits)@.len(),
        forall|i: int| 0 <= i < old(commits)@.len() ==> (#[trigger] final(commits)@[i])@ == with_deployments(
            old(commits)@[i]@,
            deployment_entries_view(deployments_by_commit@),
        ),
{
    let ghost entries = deployment_entries_view(deployments_by_commit@);
    let mut i: usize = 0;
    while i < commits.len()
        invariant
            i <= commits@.len() == old(commits)@.len(),
            entries == deployment_entries_view(deployments_by_commit@),
            forall|k: int| 0 <= k < i ==> (#[trigger] commits@[k])@ == with_deployments(old(commits)@[k]@, entries),
            forall|k: int| i <= k < commits@.len() ==> (#[trigger] commits@[k]) == old(commits)@[k],
        decreases commits.len() - i,
    {
        match find_last(&deployments_by_commit, commits[i].oid.as_str()) {
            Some(j) => {
                let ds = crate::domain::copy::copy_vec(&deployments_by_commit[j].1);
                let mut c = commits.remove(i);
                let ghost c0 = c;
                c.deployments = ds;
                commits.insert(i, c);
                proof {
                    assert(entries[j as int] == (deployments_by_commit@[j as int].0@, views(deployments_by_commit@[j as int].1@)));
                    assert forall|m: int| j < m < entries.len() implies (#[trigger] entries[m]).0 != c0.oid@ by {
                        assert(entries[m].0 == deployments_by_commit@[m].0@);
                    }
                    lemma_last_entry_at(entries, c0.oid@, j as int);
                    assert(commits@[i as int]@ == with_deployments(old(commits)@[i as int]@, entries));
                }
            },
            None => {
                proof {
                    assert forall|m: int| 0 <= m < entries.len() implies (#[trigger] entries[m]).0 != commits@[i as int].oid@ by {
                        assert(entries[m].0 == deployments_by_commit@[m].0@);
                    }
                    lemma_last_entry_none(entries, commits@[i as int].oid@);
                }
            },
        }
        i = i + 1;
    }
}

/// A file with the patch `patches` lists for its path, if any.
pub open spec fn with_patch(f: ChangedFileView, patches: Seq<(Seq<char>, Seq<char>)>) -> ChangedFileView {
    match last_entry(patches, f.path) {
        Some(p) => ChangedFileView { patch: Some(p), ..f },
        None => f,
    }
}

pub open spec fn patch_entries_view(v: Seq<(String, String)>) -> Seq<(Seq<char>, Seq<char>)> {
    v.map_values(|e: (String, String)| (e.0@, e.1@))
}

/// Gives each file the patch listed for its path (the last listing when
/// there are several); other files are left alone.
pub fn apply_file_patches(files: &mut Vec<ChangedFile>, patches: Vec<(String, String)>)
    ensures
        final(files)@.len() == old(files)@.len(),
        forall|i: int| 0 <= i < old(files)@.len() ==> (#[trigger] final(files)@[i])@ == with_patch(
            old(files)@[i]@,
            patch_entries_view(patches@),
        ),
{
    let ghost entries = patch_entries_view(patches@);
    let mut i: usize = 0;
    while i < files.len()
        invariant
            i <= files@.len() == old(files)@.len(),
            entries == patch_entries_view(patches@),
            forall|k: int| 0 <= k < i ==> (#[trigger] files@[k])@ == with_patch(old(files)@[k]@, entries),
            forall|k: int| i <= k < files@.len() ==> (#[trigger] files@[k]) == old(files)@[k],
        decreases files.len() - i,
    {
        match find_last(&patches, files[i].path.as_str()) {
            Some(j) => {
                let p = patches[j].1.clone();
                let mut f = files.remove(i);
                let ghost f0 = f;
                f.patch = Some(p);
                files.insert(i, f);
                proof {
                    assert forall|m: int| j < m < entries.len() implies (#[trigger] entries[m]).0 != f0.path@ by {
                        assert(entries[m].0 == patches@[m].0@);
                    }
                    lemma_last_entry_at(entries, f0.path@, j as int);
                }
            },
            None => {
                proof {
                    assert forall|m: int| 0 <= m < entries.len() implies (#[trigger] entries[m]).0 != files@[i as int].path@ by {
                        assert(entries[m].0 == patches@[m].0@);
                    }
                    lemma_last_entry_none(entries, files@[i as int].path@);
                }
            },
        }
        i = i + 1;
    }
}

// ---------------------------------------------------------------- commits

/// The known author names of a commit.
pub open spec fn commit_authors_spec(c: CommitDto) -> Seq<Seq<char>> {
    match c.authors {
        Some(a) => known_names(a@),
        None => Seq::empty(),
    }
}

/// A commit as listed: its first known author, its authored date when not
/// empty, its commit date else its authored date; status unknown and no
/// deployments until they are loaded.
pub open spec fn commit_view_spec(c: CommitDto) -> CommitView {
    let authors = commit_authors_spec(c);
    let authored = nonempty(opt_str(c.authored_date));
    CommitView {
        oid: c.oid@,
        message: c.message_headline@,
        body: text_or(opt_str(c.message_body), Seq::empty()),
        author: if authors.len() > 0 { authors[0] } else { "unknown"@ },
        authors: authors,
        authored_at: authored,
        committed_at: text_or(or_else(opt_str(c.committed_date), authored), "unknown"@),
        status: CheckStatus::Unknown,
        deployments: Seq::empty(),
    }
}

/// Reads a commit (see `commit_view_spec`).
pub fn commit_from_dto(commit: CommitDto) -> (r: Commit)
    ensures
        r@ == commit_view_spec(commit),
{
    let ghost spec = commit_view_spec(commit);
    let authors = match commit.authors {
        Some(a) => names_from_users(a),
        None => {
            let v: Vec<String> = Vec::new();
            proof {
                assert(strs(v@) =~= Seq::<Seq<char>>::empty());
            }
            v
        },
    };
    let author = if authors.len() > 0 {
        authors[0].clone()
    } else {
        crate::text::owned("unknown")
    };
    let authored_at = drop_empty(commit.authored_date);
    let committed_at = string_or(first_present(commit.committed_date, copy_opt(&authored_at)), "unknown");
    let r = Commit {
        oid: commit.oid,
        message: commit.message_headline,
        body: string_or(commit.message_body, ""),
        author,
        authors,
        authored_at,
        committed_at,
        status: CheckStatus::Unknown,
        deployments: Vec::new(),
    };
    proof {
        assert(r@.deployments =~= spec.deployments);
        assert(""@ =~= Seq::<char>::empty()) by {
            reveal_strlit("");
        }
    }
    r
}

// ---------------------------------------------------------------- related resources

/// The resources a list of references names: a reference with a URL that
/// parses names what it parses to; else one with a number names that
/// number in the requested repository, of kind `fallback_kind`; else it is
/// skipped.
pub open spec fn related_spec(refs: Seq<crate::github::dto::RelatedResourceDto>, fallback_kind: crate::domain::resource_id::ResourceKind, requested: IdView) -> Seq<IdView>
    decreases refs.len(),
{
    if refs.len() == 0 {
        Seq::empty()
    } else {
        let prior = related_spec(refs.drop_last(), fallback_kind, requested);
        let r = refs.last();
        let parsed = match r.url {
            Some(u) => match crate::domain::resource_id::parse_spec(u@, None) {
                Ok(id) => Some(id),
                Err(_) => None,
            },
            None => None,
        };
        match parsed {
            Some(id) => prior.push(id),
            None => match r.number {
                Some(n) => prior.push(IdView { owner: requested.owner, repo: requested.repo, number: n, kind_hint: Some(fallback_kind) }),
                None => prior,
            },
        }
    }
}

/// The resources `references` name (see `related_spec`).
pub fn related_resource_ids(references: Vec<crate::github::dto::RelatedResourceDto>, fallback_kind: crate::domain::resource_id::ResourceKind, requested: &ResourceId) -> (r: Vec<ResourceId>)
    ensures
        views(r@) == related_spec(references@, fallback_kind, requested@),
{
    let mut r: Vec<ResourceId> = Vec::new();
    let mut i: usize = 0;
    while i < references.len()
        invariant
            i <= references@.len(),
            views(r@) == related_spec(references@.subrange(0, i as int), fallback_kind, requested@),
        decreases references.len() - i,
    {
        let ghost before = r@;
        proof {
            assert(references@.subrange(0, i + 1).drop_last() =~= references@.subrange(0, i as int));
        }
        let parsed = match &references[i].url {
            Some(u) => match ResourceId::parse(u.as_str()) {
                Ok(id) => Some(id),
                Err(_) => None,
            },
            None => None,
        };
        match parsed {
            Some(id) => {
                r.push(id);
                proof {
                    assert(views(r@) =~= views(before).push(r@.last()@));
                }
            },
            None => match references[i].number {
                Some(n) => {
                    r.push(ResourceId {
                        owner: requested.owner.clone(),
                        repo: requested.repo.clone(),
                        number: n,
                        kind_hint: Some(fallback_kind),
                    });
                    proof {
                        assert(views(r@) =~= views(before).push(r@.last()@));
                    }
                },
                None => {},
            },
        }
        i = i + 1;
    }
    proof {
        assert(references@.subrange(0, i as int) =~= references@);
    }
    r
}

} // verus!

//! The normalized pull request / issue model that the fetchers fill and the
//! views read, with its change detection.
use vstd::prelude::*;

use crate::domain::action::{EditTarget, EditTargetView, MergeMethod};
use crate::domain::resource_id::{IdView, ResourceId, ResourceKind};
use crate::text::contains;

verus! {

pub const FULL_DEPTH_WARNING_HINT: &'static str = "set --api-depth full or GZG_API_DEPTH=full";

pub const FILE_PATCH_CONTEXT_UNAVAILABLE_WARNING: &'static str = "file patch context unavailable";

pub const PUBLIC_REST_FALLBACK_WARNING_PREFIX: &'static str = "using public REST fallback ";

/// The views of the items of a sequence.
pub open spec fn views<T: View>(v: Seq<T>) -> Seq<T::V> {
    v.map_values(|x: T| x@)
}

/// The views of a sequence of strings.
pub open spec fn strs(v: Seq<String>) -> Seq<Seq<char>> {
    views(v)
}

/// Values that can be compared by their views.
pub trait SameAs: View + Sized {
    /// Whether `self` and `other` have the same view.
    fn same_as(&self, other: &Self) -> (r: bool)
        ensures
            r == (self@ == other@),
    ;
}

impl SameAs for String {
    fn same_as(&self, other: &Self) -> (r: bool) {
        *self == *other
    }
}

/// Whether two vectors hold items with the same views, in the same order.
pub fn same_vec<T: SameAs>(a: &Vec<T>, b: &Vec<T>) -> (r: bool)
    ensures
        r == (views(a@) == views(b@)),
{
    if a.len() != b.len() {
        proof {
            assert(views(a@).len() != views(b@).len());
        }
        return false;
    }
    let mut i: usize = 0;
    while i < a.len()
        invariant
            a@.len() == b@.len(),
            i <= a@.len(),
            forall|j: int| 0 <= j < i ==> a@[j]@ == b@[j]@,
        decreases a.len() - i,
    {
        if !a[i].same_as(&b[i]) {
            proof {
                assert(views(a@)[i as int] != views(b@)[i as int]);
            }
            return false;
        }
        i = i + 1;
    }
    proof {
        assert(views(a@) =~= views(b@));
    }
    true
}

/// Whether two optional strings are both absent or hold the same text.
pub fn same_opt_str(a: &Option<String>, b: &Option<String>) -> (r: bool)
    ensures
        r == (opt_str(*a) == opt_str(*b)),
{
    match (a, b) {
        (Some(x), Some(y)) => *x == *y,
        (None, None) => true,
        _ => false,
    }
}

/// The view of an optional string.
pub open spec fn opt_str(o: Option<String>) -> Option<Seq<char>> {
    match o {
        Some(s) => Some(s@),
        None => None,
    }
}

#[derive(Debug, Clone, Copy, PartialEq, Eq, Default, Structural)]
pub struct ReactionCounts {
    pub thumbs_up: u64,
    pub thumbs_down: u64,
    pub laugh: u64,
    pub hooray: u64,
    pub confused: u64,
    pub heart: u64,
    pub rocket: u64,
    pub eyes: u64,
}

pub open spec fn reaction_total(r: ReactionCounts) -> int {
    r.thumbs_up + r.thumbs_down + r.laugh + r.hooray + r.confused + r.heart + r.rocket + r.eyes
}

impl ReactionCounts {
    /// Every count zero.
    pub fn zero() -> (r: Self)
        ensures
            reaction_total(r) == 0,
            r == (ReactionCounts {
                thumbs_up: 0,
                thumbs_down: 0,
                laugh: 0,
                hooray: 0,
                confused: 0,
                heart: 0,
                rocket: 0,
                eyes: 0,
            }),
    {
        ReactionCounts {
            thumbs_up: 0,
            thumbs_down: 0,
            laugh: 0,
            hooray: 0,
            confused: 0,
            heart: 0,
            rocket: 0,
            eyes: 0,
        }
    }

    /// The number of reactions of every kind together.
    pub fn total(&self) -> (t: u64)
        requires
            reaction_total(*self) <= u64::MAX,
        ensures
            t == reaction_total(*self),
    {
        self.thumbs_up + self.thumbs_down + self.laugh + self.hooray + self.confused + self.heart
            + self.rocket + self.eyes
    }
}

/// What the viewer may do with a resource, as the server reports it.
#[derive(Debug, Clone, PartialEq, Eq, Default)]
pub struct ActionContext {
    pub node_id: String,
    pub viewer_can_update: bool,
    pub locked: bool,
}

pub struct ActionContextView {
    pub node_id: Seq<char>,
    pub viewer_can_update: bool,
    pub locked: bool,
}

impl View for ActionContext {
    type V = ActionContextView;

    open spec fn view(&self) -> ActionContextView {
        ActionContextView {
            node_id: self.node_id@,
            viewer_can_update: self.viewer_can_update,
            locked: self.locked,
        }
    }
}

impl ActionContext {
    /// No node id, no permissions.
    pub fn empty() -> (a: Self)
        ensures
            a@.node_id.len() == 0,
            !a.viewer_can_update,
            !a.locked,
    {
        ActionContext { node_id: String::new(), viewer_can_update: false, locked: false }
    }
}

#[derive(Debug, Clone, PartialEq, Eq)]
pub struct MetadataItem {
    pub label: String,
    pub value: String,
}

pub struct MetadataItemView {
    pub label: Seq<char>,
    pub value: Seq<char>,
}

impl View for MetadataItem {
    type V = MetadataItemView;

    open spec fn view(&self) -> MetadataItemView {
        MetadataItemView { label: self.label@, value: self.value@ }
    }
}

#[derive(Debug, Clone, Copy, PartialEq, Eq, Default, Structural)]
pub enum ActivityKind {
    #[default]
    Comment,
    Review,
    ReviewComment,
    CommitComment,
    Timeline,
}

pub open spec fn activity_kind_label(k: ActivityKind) -> Seq<char> {
    match k {
        ActivityKind::Comment => "Comment"@,
        ActivityKind::Review => "Review"@,
        ActivityKind::ReviewComment => "Review comment"@,
        ActivityKind::CommitComment => "Commit comment"@,
        ActivityKind::Timeline => "Timeline"@,
    }
}

impl ActivityKind {
    /// The label shown for entries of this kind.
    pub fn label(self) -> (s: &'static str)
        ensures
            s@ == activity_kind_label(self),
    {
        match self {
            ActivityKind::Comment => "Comment",
            ActivityKind::Review => "Review",
            ActivityKind::ReviewComment => "Review comment",
            ActivityKind::CommitComment => "Commit comment",
            ActivityKind::Timeline => "Timeline",
        }
    }
}

#[derive(Debug, Clone, PartialEq, Eq)]
pub struct ActivityEntry {
    pub id: String,
    pub kind: ActivityKind,
    pub author: String,
    pub body: String,
    pub updated_at: String,
    pub path: Option<String>,
    pub line: Option<u64>,
    pub url: Option<String>,
    pub author_association: Option<String>,
    pub reactions: ReactionCounts,
    pub includes_created_edit: bool,
    pub is_minimized: bool,
    pub minimized_reason: Option<String>,
    pub thread_id: Option<String>,
    pub thread_resolved: Option<bool>,
    pub thread_outdated: Option<bool>,
    /// The entry as an edit target, when the viewer may edit it.
    pub edit: Option<EditTarget>,
}

pub struct ActivityEntryView {
    pub id: Seq<char>,
    pub kind: ActivityKind,
    pub author: Seq<char>,
    pub body: Seq<char>,
    pub updated_at: Seq<char>,
    pub path: Option<Seq<char>>,
    pub line: Option<u64>,
    pub url: Option<Seq<char>>,
    pub author_association: Option<Seq<char>>,
    pub reactions: ReactionCounts,
    pub includes_created_edit: bool,
    pub is_minimized: bool,
    pub minimized_reason: Option<Seq<char>>,
    pub thread_id: Option<Seq<char>>,
    pub thread_resolved: Option<bool>,
    pub thread_outdated: Option<bool>,
    pub edit: Option<EditTargetView>,
}

impl View for ActivityEntry {
    type V = ActivityEntryView;

    open spec fn view(&self) -> ActivityEntryView {
        ActivityEntryView {
            id: self.id@,
            kind: self.kind,
            author: self.author@,
            body: self.body@,
            updated_at: self.updated_at@,
            path: opt_str(self.path),
            line: self.line,
            url: opt_str(self.url),
            author_association: opt_str(self.author_association),
            reactions: self.reactions,
            includes_created_edit: self.includes_created_edit,
            is_minimized: self.is_minimized,
            minimized_reason: opt_str(self.minimized_reason),
            thread_id: opt_str(self.thread_id),
            thread_resolved: self.thread_resolved,
            thread_outdated: self.thread_outdated,
            edit: match self.edit {
                Some(e) => Some(e@),
                None => None,
            },
        }
    }
}

#[derive(Debug, Clone, Copy, PartialEq, Eq, Structural)]
pub enum CheckStatus {
    Success,
    Failure,
    Pending,
    Skipped,
    Neutral,
    Unknown,
}

pub open spec fn check_status_label(s: CheckStatus) -> Seq<char> {
    match s {
        CheckStatus::Success => "PASS"@,
        CheckStatus::Failure => "FAIL"@,
        CheckStatus::Pending => "PENDING"@,
        CheckStatus::Skipped => "SKIP"@,
        CheckStatus::Neutral => "NEUTRAL"@,
        CheckStatus::Unknown => "UNKNOWN"@,
    }
}

impl CheckStatus {
    /// The short label of a status.
    pub fn label(self) -> (s: &'static str)
        ensures
            s@ == check_status_label(self),
    {
        match self {
            CheckStatus::Success => "PASS",
            CheckStatus::Failure => "FAIL",
            CheckStatus::Pending => "PENDING",
            CheckStatus::Skipped => "SKIP",
            CheckStatus::Neutral => "NEUTRAL",
            CheckStatus::Unknown => "UNKNOWN",
        }
    }
}

#[derive(Debug, Clone, PartialEq, Eq)]
pub struct Deployment {
    pub environment: String,
    pub state: String,
    pub description: Option<String>,
    pub environment_url: Option<String>,
    pub log_url: Option<String>,
    pub created_at: Option<String>,
    pub updated_at: String,
}

pub struct DeploymentView {
    pub environment: Seq<char>,
    pub state: Seq<char>,
    pub description: Option<Seq<char>>,
    pub environment_url: Option<Seq<char>>,
    pub log_url: Option<Seq<char>>,
    pub created_at: Option<Seq<char>>,
    pub updated_at: Seq<char>,
}

impl View for Deployment {
    type V = DeploymentView;

    open spec fn view(&self) -> DeploymentView {
        DeploymentView {
            environment: self.environment@,
            state: self.state@,
            description: opt_str(self.description),
            environment_url: opt_str(self.environment_url),
            log_url: opt_str(self.log_url),
            created_at: opt_str(self.created_at),
            updated_at: self.updated_at@,
        }
    }
}

pub open spec fn deployments_view(v: Seq<Deployment>) -> Seq<DeploymentView> {
    views(v)
}

#[derive(Debug, Clone, PartialEq, Eq)]
pub struct Commit {
    pub oid: String,
    pub message: String,
    pub body: String,
    pub author: String,
    pub authors: Vec<String>,
    pub authored_at: Option<String>,
    pub committed_at: String,
    pub status: CheckStatus,
    pub deployments: Vec<Deployment>,
}

pub struct CommitView {
    pub oid: Seq<char>,
    pub message: Seq<char>,
    pub body: Seq<char>,
    pub author: Seq<char>,
    pub authors: Seq<Seq<char>>,
    pub authored_at: Option<Seq<char>>,
    pub committed_at: Seq<char>,
    pub status: CheckStatus,
    pub deployments: Seq<DeploymentView>,
}

impl View for Commit {
    type V = CommitView;

    open spec fn view(&self) -> CommitView {
        CommitView {
            oid: self.oid@,
            message: self.message@,
            body: self.body@,
            author: self.author@,
            authors: strs(self.authors@),
            authored_at: opt_str(self.authored_at),
            committed_at: self.committed_at@,
            status: self.status,
            deployments: deployments_view(self.deployments@),
        }
    }
}

#[derive(Debug, Clone, PartialEq, Eq)]
pub struct CheckRun {
    pub name: String,
    pub status: CheckStatus,
    pub summary: Option<String>,
    pub details_url: Option<String>,
    pub started_at: Option<String>,
    pub completed_at: Option<String>,
    pub raw_status: Option<String>,
    pub raw_conclusion: Option<String>,
}

pub struct CheckRunView {
    pub name: Seq<char>,
    pub status: CheckStatus,
    pub summary: Option<Seq<char>>,
    pub details_url: Option<Seq<char>>,
    pub started_at: Option<Seq<char>>,
    pub completed_at: Option<Seq<char>>,
    pub raw_status: Option<Seq<char>>,
    pub raw_conclusion: Option<Seq<char>>,
}

impl View for CheckRun {
    type V = CheckRunView;

    open spec fn view(&self) -> CheckRunView {
        CheckRunView {
            name: self.name@,
            status: self.status,
            summary: opt_str(self.summary),
            details_url: opt_str(self.details_url),
            started_at: opt_str(self.started_at),
            completed_at: opt_str(self.completed_at),
            raw_status: opt_str(self.raw_status),
            raw_conclusion: opt_str(self.raw_conclusion),
        }
    }
}

#[derive(Debug, Clone, Copy, PartialEq, Eq, Default, Structural)]
pub struct CheckCounts {
    pub success: usize,
    pub failure: usize,
    pub pending: usize,
    pub skipped: usize,
    pub neutral: usize,
    pub unknown: usize,
}

pub open spec fn check_counts_total(c: CheckCounts) -> int {
    c.success + c.failure + c.pending + c.skipped + c.neutral + c.unknown
}

impl CheckCounts {
    /// The number of checks of every status together.
    pub fn total(self) -> (t: usize)
        requires
            check_counts_total(self) <= usize::MAX,
        ensures
            t == check_counts_total(self),
    {
        self.success + self.failure + self.pending + self.skipped + self.neutral + self.unknown
    }
}

#[derive(Debug, Clone, PartialEq, Eq)]
pub struct ChangedFile {
    pub path: String,
    pub additions: u64,
    pub deletions: u64,
    pub change_type: String,
    pub patch: Option<String>,
}

pub struct ChangedFileView {
    pub path: Seq<char>,
    pub additions: u64,
    pub deletions: u64,
    pub change_type: Seq<char>,
    pub patch: Option<Seq<char>>,
}

impl View for ChangedFile {
    type V = ChangedFileView;

    open spec fn view(&self) -> ChangedFileView {
        ChangedFileView {
            path: self.path@,
            additions: self.additions,
            deletions: self.deletions,
            change_type: self.change_type@,
            patch: opt_str(self.patch),
        }
    }
}

#[derive(Debug, Clone, PartialEq, Eq)]
pub struct PullRequest {
    pub base_ref: String,
    pub head_ref: String,
    pub requested_reviewers: Vec<String>,
    pub review_decision: Option<String>,
    pub merge_state: Option<String>,
    pub additions: u64,
    pub deletions: u64,
    pub commits: Vec<Commit>,
    pub checks: Vec<CheckRun>,
    pub files: Vec<ChangedFile>,
    pub metadata: Vec<MetadataItem>,
    /// The merge methods the repository allows.
    pub allowed_merge_methods: Vec<MergeMethod>,
}

pub struct PullRequestView {
    pub base_ref: Seq<char>,
    pub head_ref: Seq<char>,
    pub requested_reviewers: Seq<Seq<char>>,
    pub review_decision: Option<Seq<char>>,
    pub merge_state: Option<Seq<char>>,
    pub additions: u64,
    pub deletions: u64,
    pub commits: Seq<CommitView>,
    pub checks: Seq<CheckRunView>,
    pub files: Seq<ChangedFileView>,
    pub metadata: Seq<MetadataItemView>,
    pub allowed_merge_methods: Seq<MergeMethod>,
}

impl View for PullRequest {
    type V = PullRequestView;

    open spec fn view(&self) -> PullRequestView {
        PullRequestView {
            base_ref: self.base_ref@,
            head_ref: self.head_ref@,
            requested_reviewers: strs(self.requested_reviewers@),
            review_decision: opt_str(self.review_decision),
            merge_state: opt_str(self.merge_state),
            additions: self.additions,
            deletions: self.deletions,
            commits: views(self.commits@),
            checks: views(self.checks@),
            files: views(self.files@),
            metadata: views(self.metadata@),
            allowed_merge_methods: self.allowed_merge_methods@,
        }
    }
}

#[derive(Debug, Clone, PartialEq, Eq)]
pub struct Resource {
    pub id: ResourceId,
    pub title: String,
    pub url: String,
    pub state: String,
    pub author: String,
    pub created_at: String,
    pub updated_at: String,
    pub labels: Vec<String>,
    pub assignees: Vec<String>,
    pub reactions: ReactionCounts,
    pub body: String,
    pub activity: Vec<ActivityEntry>,
    pub related_resources: Vec<ResourceId>,
    pub metadata: Vec<MetadataItem>,
    pub warnings: Vec<String>,
    pub pull_request: Option<PullRequest>,
    /// What the viewer may do with the resource.
    pub actions: ActionContext,
}

pub struct ResourceView {
    pub id: IdView,
    pub title: Seq<char>,
    pub url: Seq<char>,
    pub state: Seq<char>,
    pub author: Seq<char>,
    pub created_at: Seq<char>,
    pub updated_at: Seq<char>,
    pub labels: Seq<Seq<char>>,
    pub assignees: Seq<Seq<char>>,
    pub reactions: ReactionCounts,
    pub body: Seq<char>,
    pub activity: Seq<ActivityEntryView>,
    pub related_resources: Seq<IdView>,
    pub metadata: Seq<MetadataItemView>,
    pub warnings: Seq<Seq<char>>,
    pub pull_request: Option<PullRequestView>,
    pub actions: ActionContextView,
}

impl View for Resource {
    type V = ResourceView;

    open spec fn view(&self) -> ResourceView {
        ResourceView {
            id: self.id@,
            title: self.title@,
            url: self.url@,
            state: self.state@,
            author: self.author@,
            created_at: self.created_at@,
            updated_at: self.updated_at@,
            labels: strs(self.labels@),
            assignees: strs(self.assignees@),
            reactions: self.reactions,
            body: self.body@,
            activity: views(self.activity@),
            related_resources: views(self.related_resources@),
            metadata: views(self.metadata@),
            warnings: strs(self.warnings@),
            pull_request: match self.pull_request {
                Some(pr) => Some(pr@),
                None => None,
            },
            actions: self.actions@,
        }
    }
}

pub open spec fn resource_kind(r: Resource) -> ResourceKind {
    if r.pull_request is Some {
        ResourceKind::PullRequest
    } else {
        ResourceKind::Issue
    }
}


impl SameAs for ResourceId {
    fn same_as(&self, other: &Self) -> (r: bool) {
        self.owner == other.owner && self.repo == other.repo && self.number == other.number
            && self.kind_hint == other.kind_hint
    }
}

impl SameAs for MetadataItem {
    fn same_as(&self, other: &Self) -> (r: bool) {
        self.label == other.label && self.value == other.value
    }
}

impl SameAs for EditTarget {
    fn same_as(&self, other: &Self) -> (r: bool) {
        self.node_id == other.node_id && self.kind == other.kind && self.current_body
            == other.current_body
    }
}

impl SameAs for ActivityEntry {
    fn same_as(&self, other: &Self) -> (r: bool) {
        let edit_same = match (&self.edit, &other.edit) {
            (Some(a), Some(b)) => a.same_as(b),
            (None, None) => true,
            _ => false,
        };
        self.id == other.id && self.kind == other.kind && self.author == other.author && self.body
            == other.body && self.updated_at == other.updated_at && same_opt_str(
            &self.path,
            &other.path,
        ) && self.line == other.line && same_opt_str(&self.url, &other.url) && same_opt_str(
            &self.author_association,
            &other.author_association,
        ) && self.reactions == other.reactions && self.includes_created_edit
            == other.includes_created_edit && self.is_minimized == other.is_minimized
            && same_opt_str(&self.minimized_reason, &other.minimized_reason) && same_opt_str(
            &self.thread_id,
            &other.thread_id,
        ) && self.thread_resolved == other.thread_resolved && self.thread_outdated
            == other.thread_outdated && edit_same
    }
}

impl SameAs for Deployment {
    fn same_as(&self, other: &Self) -> (r: bool) {
        self.environment == other.environment && self.state == other.state && same_opt_str(
            &self.description,
            &other.description,
        ) && same_opt_str(&self.environment_url, &other.environment_url) && same_opt_str(
            &self.log_url,
            &other.log_url,
        ) && same_opt_str(&self.created_at, &other.created_at) && self.updated_at
            == other.updated_at
    }
}

impl SameAs for Commit {
    fn same_as(&self, other: &Self) -> (r: bool) {
        self.oid == other.oid && self.message == other.message && self.body == other.body
            && self.author == other.author && same_vec(&self.authors, &other.authors)
            && same_opt_str(&self.authored_at, &other.authored_at) && self.committed_at
            == other.committed_at && self.status == other.status && same_vec(
            &self.deployments,
            &other.deployments,
        )
    }
}

impl SameAs for CheckRun {
    fn same_as(&self, other: &Self) -> (r: bool) {
        self.name == other.name && self.status == other.status && same_opt_str(
            &self.summary,
            &other.summary,
        ) && same_opt_str(&self.details_url, &other.details_url) && same_opt_str(
            &self.started_at,
            &other.started_at,
        ) && same_opt_str(&self.completed_at, &other.completed_at) && same_opt_str(
            &self.raw_status,
            &other.raw_status,
        ) && same_opt_str(&self.raw_conclusion, &other.raw_conclusion)
    }
}

impl SameAs for ChangedFile {
    fn same_as(&self, other: &Self) -> (r: bool) {
        self.path == other.path && self.additions == other.additions && self.deletions
            == other.deletions && self.change_type == other.change_type && same_opt_str(
            &self.patch,
            &other.patch,
        )
    }
}

/// The sections of a refreshed resource that differ from the shown one, in
/// display order: identity, summary, metadata, warnings, activity, then for
/// pull requests review, merge, diff, commits, checks, files and PR
/// metadata, or `kind` when one side is a pull request and the other not.
pub open spec fn changed_sections_spec(a: ResourceView, b: ResourceView) -> Seq<Seq<char>> {
    let base = Seq::<Seq<char>>::empty()
        .add(if a.id != b.id { seq!["identity"@] } else { Seq::empty() })
        .add(if a.title != b.title || a.state != b.state || a.body != b.body { seq!["summary"@] } else { Seq::empty() })
        .add(if a.labels != b.labels || a.assignees != b.assignees || a.reactions != b.reactions
            || a.related_resources != b.related_resources || a.metadata != b.metadata { seq!["metadata"@] } else { Seq::empty() })
        .add(if a.warnings != b.warnings { seq!["warnings"@] } else { Seq::empty() })
        .add(if a.activity != b.activity { seq!["activity"@] } else { Seq::empty() });
    match (a.pull_request, b.pull_request) {
        (Some(l), Some(r)) => base
            .add(if l.requested_reviewers != r.requested_reviewers || l.review_decision != r.review_decision { seq!["review"@] } else { Seq::empty() })
            .add(if l.base_ref != r.base_ref || l.head_ref != r.head_ref || l.merge_state != r.merge_state { seq!["merge"@] } else { Seq::empty() })
            .add(if l.additions != r.additions || l.deletions != r.deletions { seq!["diff"@] } else { Seq::empty() })
            .add(if l.commits != r.commits { seq!["commits"@] } else { Seq::empty() })
            .add(if l.checks != r.checks { seq!["checks"@] } else { Seq::empty() })
            .add(if l.files != r.files { seq!["files"@] } else { Seq::empty() })
            .add(if l.metadata != r.metadata { seq!["pr metadata"@] } else { Seq::empty() }),
        (None, None) => base,
        _ => base.push("kind"@),
    }
}

proof fn lemma_contains_added(x: Seq<Seq<char>>, b: bool, l: Seq<char>, y: Seq<char>)
    ensures
        x.add(if b { seq![l] } else { Seq::empty() }).contains(y) <==> (x.contains(y) || (b && y == l)),
        x.push(l).contains(y) <==> (x.contains(y) || y == l),
{
    let z = x.add(if b { seq![l] } else { Seq::empty() });
    if x.contains(y) {
        let i = choose|i: int| 0 <= i < x.len() && x[i] == y;
        assert(z[i] == y);
        assert(x.push(l)[i] == y);
    }
    if b && y == l {
        assert(z[x.len() as int] == y);
    }
    if z.contains(y) {
        let i = choose|i: int| 0 <= i < z.len() && z[i] == y;
        if i < x.len() {
            assert(x[i] == y);
        }
    }
    assert(x.push(l)[x.len() as int] == l);
    if x.push(l).contains(y) {
        let i = choose|i: int| 0 <= i < x.push(l).len() && x.push(l)[i] == y;
        if i < x.len() {
            assert(x[i] == y);
        }
    }
}

/// The labels of the general sections of `a` against `b` (see
/// `changed_sections_spec`).
spec fn base_sections(a: ResourceView, b: ResourceView) -> Seq<Seq<char>> {
    Seq::<Seq<char>>::empty()
        .add(if a.id != b.id { seq!["identity"@] } else { Seq::empty() })
        .add(if a.title != b.title || a.state != b.state || a.body != b.body { seq!["summary"@] } else { Seq::empty() })
        .add(if a.labels != b.labels || a.assignees != b.assignees || a.reactions != b.reactions
            || a.related_resources != b.related_resources || a.metadata != b.metadata { seq!["metadata"@] } else { Seq::empty() })
        .add(if a.warnings != b.warnings { seq!["warnings"@] } else { Seq::empty() })
        .add(if a.activity != b.activity { seq!["activity"@] } else { Seq::empty() })
}

#[verifier::rlimit(40)]
proof fn lemma_base_sections_contain(a: ResourceView, b: ResourceView, y: Seq<char>)
    ensures
        base_sections(a, b).contains(y) <==> (
            (y == "identity"@ && a.id != b.id)
            || (y == "summary"@ && (a.title != b.title || a.state != b.state || a.body != b.body))
            || (y == "metadata"@ && (a.labels != b.labels || a.assignees != b.assignees || a.reactions != b.reactions
                || a.related_resources != b.related_resources || a.metadata != b.metadata))
            || (y == "warnings"@ && a.warnings != b.warnings)
            || (y == "activity"@ && a.activity != b.activity)
        ),
{
    let e0 = Seq::<Seq<char>>::empty();
    let c1 = a.id != b.id;
    let c2 = a.title != b.title || a.state != b.state || a.body != b.body;
    let c3 = a.labels != b.labels || a.assignees != b.assignees || a.reactions != b.reactions
        || a.related_resources != b.related_resources || a.metadata != b.metadata;
    let c4 = a.warnings != b.warnings;
    let c5 = a.activity != b.activity;
    let p1 = e0.add(if c1 { seq!["identity"@] } else { Seq::empty() });
    let p2 = p1.add(if c2 { seq!["summary"@] } else { Seq::empty() });
    let p3 = p2.add(if c3 { seq!["metadata"@] } else { Seq::empty() });
    let p4 = p3.add(if c4 { seq!["warnings"@] } else { Seq::empty() });
    assert(!e0.contains(y));
    lemma_contains_added(e0, c1, "identity"@, y);
    lemma_contains_added(p1, c2, "summary"@, y);
    lemma_contains_added(p2, c3, "metadata"@, y);
    lemma_contains_added(p3, c4, "warnings"@, y);
    lemma_contains_added(p4, c5, "activity"@, y);
}

#[verifier::rlimit(40)]
proof fn lemma_pr_sections_contain(base: Seq<Seq<char>>, l: PullRequestView, r: PullRequestView, y: Seq<char>)
    ensures
        base.add(if l.requested_reviewers != r.requested_reviewers || l.review_decision != r.review_decision { seq!["review"@] } else { Seq::empty() })
            .add(if l.base_ref != r.base_ref || l.head_ref != r.head_ref || l.merge_state != r.merge_state { seq!["merge"@] } else { Seq::empty() })
            .add(if l.additions != r.additions || l.deletions != r.deletions { seq!["diff"@] } else { Seq::empty() })
            .add(if l.commits != r.commits { seq!["commits"@] } else { Seq::empty() })
            .add(if l.checks != r.checks { seq!["checks"@] } else { Seq::empty() })
            .add(if l.files != r.files { seq!["files"@] } else { Seq::empty() })
            .add(if l.metadata != r.metadata { seq!["pr metadata"@] } else { Seq::empty() }).contains(y) <==> (
            base.contains(y)
            || (y == "review"@ && (l.requested_reviewers != r.requested_reviewers || l.review_decision != r.review_decision))
            || (y == "merge"@ && (l.base_ref != r.base_ref || l.head_ref != r.head_ref || l.merge_state != r.merge_state))
            || (y == "diff"@ && (l.additions != r.additions || l.deletions != r.deletions))
            || (y == "commits"@ && l.commits != r.commits)
            || (y == "checks"@ && l.checks != r.checks)
            || (y == "files"@ && l.files != r.files)
            || (y == "pr metadata"@ && l.metadata != r.metadata)
        ),
{
    let d1 = l.requested_reviewers != r.requested_reviewers || l.review_decision != r.review_decision;
    let d2 = l.base_ref != r.base_ref || l.head_ref != r.head_ref || l.merge_state != r.merge_state;
    let d3 = l.additions != r.additions || l.deletions != r.deletions;
    let d4 = l.commits != r.commits;
    let d5 = l.checks != r.checks;
    let d6 = l.files != r.files;
    let q1 = base.add(if d1 { seq!["review"@] } else { Seq::empty() });
    let q2 = q1.add(if d2 { seq!["merge"@] } else { Seq::empty() });
    let q3 = q2.add(if d3 { seq!["diff"@] } else { Seq::empty() });
    let q4 = q3.add(if d4 { seq!["commits"@] } else { Seq::empty() });
    let q5 = q4.add(if d5 { seq!["checks"@] } else { Seq::empty() });
    let q6 = q5.add(if d6 { seq!["files"@] } else { Seq::empty() });
    lemma_contains_added(base, d1, "review"@, y);
    lemma_contains_added(q1, d2, "merge"@, y);
    lemma_contains_added(q2, d3, "diff"@, y);
    lemma_contains_added(q3, d4, "commits"@, y);
    lemma_contains_added(q4, d5, "checks"@, y);
    lemma_contains_added(q5, d6, "files"@, y);
    lemma_contains_added(q6, l.metadata != r.metadata, "pr metadata"@, y);
}

/// Which labels the changed sections of `a` against `b` hold, label by label.
#[verifier::rlimit(60)]
proof fn lemma_changed_sections_contain(a: ResourceView, b: ResourceView, y: Seq<char>)
    ensures
        changed_sections_spec(a, b).contains(y) <==> (
            base_sections(a, b).contains(y)
            || match (a.pull_request, b.pull_request) {
                (Some(l), Some(r)) => (y == "review"@ && (l.requested_reviewers != r.requested_reviewers
                    || l.review_decision != r.review_decision))
                    || (y == "merge"@ && (l.base_ref != r.base_ref || l.head_ref != r.head_ref
                        || l.merge_state != r.merge_state))
                    || (y == "diff"@ && (l.additions != r.additions || l.deletions != r.deletions))
                    || (y == "commits"@ && l.commits != r.commits)
                    || (y == "checks"@ && l.checks != r.checks)
                    || (y == "files"@ && l.files != r.files)
                    || (y == "pr metadata"@ && l.metadata != r.metadata),
                (None, None) => false,
                _ => y == "kind"@,
            }
        ),
{
    let base = base_sections(a, b);
    match (a.pull_request, b.pull_request) {
        (Some(l), Some(r)) => {
            assert(changed_sections_spec(a, b) == base
                .add(if l.requested_reviewers != r.requested_reviewers || l.review_decision != r.review_decision { seq!["review"@] } else { Seq::empty() })
                .add(if l.base_ref != r.base_ref || l.head_ref != r.head_ref || l.merge_state != r.merge_state { seq!["merge"@] } else { Seq::empty() })
                .add(if l.additions != r.additions || l.deletions != r.deletions { seq!["diff"@] } else { Seq::empty() })
                .add(if l.commits != r.commits { seq!["commits"@] } else { Seq::empty() })
                .add(if l.checks != r.checks { seq!["checks"@] } else { Seq::empty() })
                .add(if l.files != r.files { seq!["files"@] } else { Seq::empty() })
                .add(if l.metadata != r.metadata { seq!["pr metadata"@] } else { Seq::empty() }));
            lemma_pr_sections_contain(base, l, r, y);
        },
        (None, None) => {
            assert(changed_sections_spec(a, b) == base);
        },
        _ => {
            assert(changed_sections_spec(a, b) == base.push("kind"@));
            lemma_contains_added(base, true, "kind"@, y);
        },
    }
}

/// The lengths and first characters of the section labels, which tell
/// them apart.
proof fn lemma_section_labels()
    ensures
        "identity"@.len() == 8 && "identity"@[0] == 'i',
        "summary"@.len() == 7 && "summary"@[0] == 's',
        "metadata"@.len() == 8 && "metadata"@[0] == 'm',
        "warnings"@.len() == 8 && "warnings"@[0] == 'w',
        "activity"@.len() == 8 && "activity"@[0] == 'a',
        "kind"@.len() == 4 && "kind"@[0] == 'k',
        "review"@.len() == 6 && "review"@[0] == 'r',
        "merge"@.len() == 5 && "merge"@[0] == 'm',
        "diff"@.len() == 4 && "diff"@[0] == 'd',
        "commits"@.len() == 7 && "commits"@[0] == 'c',
        "checks"@.len() == 6 && "checks"@[0] == 'c',
        "files"@.len() == 5 && "files"@[0] == 'f',
        "pr metadata"@.len() == 11 && "pr metadata"@[0] == 'p',
{
    reveal_strlit("identity");
    reveal_strlit("summary");
    reveal_strlit("metadata");
    reveal_strlit("warnings");
    reveal_strlit("activity");
    reveal_strlit("kind");
    reveal_strlit("review");
    reveal_strlit("merge");
    reveal_strlit("diff");
    reveal_strlit("commits");
    reveal_strlit("checks");
    reveal_strlit("files");
    reveal_strlit("pr metadata");
}

/// The changed sections name exactly what changed: each label is there
/// when, and only when, the fields it stands for differ; the pull request
/// sections only between two pull requests, `kind` only when one side is a
/// pull request and the other not; and no other label is there.
pub proof fn law_changed_sections_name_what_changed(a: ResourceView, b: ResourceView)
    ensures
        changed_sections_spec(a, b).contains("identity"@) <==> a.id != b.id,
        changed_sections_spec(a, b).contains("summary"@) <==> (a.title != b.title || a.state != b.state || a.body != b.body),
        changed_sections_spec(a, b).contains("metadata"@) <==> (a.labels != b.labels || a.assignees != b.assignees || a.reactions != b.reactions || a.related_resources != b.related_resources || a.metadata != b.metadata),
        changed_sections_spec(a, b).contains("warnings"@) <==> a.warnings != b.warnings,
        changed_sections_spec(a, b).contains("activity"@) <==> a.activity != b.activity,
        changed_sections_spec(a, b).contains("kind"@) <==> ((a.pull_request is Some) != (b.pull_request is Some)),
        changed_sections_spec(a, b).contains("review"@) <==> (a.pull_request is Some && b.pull_request is Some && (a.pull_request->0.requested_reviewers != b.pull_request->0.requested_reviewers || a.pull_request->0.review_decision != b.pull_request->0.review_decision)),
        changed_sections_spec(a, b).contains("merge"@) <==> (a.pull_request is Some && b.pull_request is Some && (a.pull_request->0.base_ref != b.pull_request->0.base_ref || a.pull_request->0.head_ref != b.pull_request->0.head_ref || a.pull_request->0.merge_state != b.pull_request->0.merge_state)),
        changed_sections_spec(a, b).contains("diff"@) <==> (a.pull_request is Some && b.pull_request is Some && (a.pull_request->0.additions != b.pull_request->0.additions || a.pull_request->0.deletions != b.pull_request->0.deletions)),
        changed_sections_spec(a, b).contains("commits"@) <==> (a.pull_request is Some && b.pull_request is Some && a.pull_request->0.commits != b.pull_request->0.commits),
        changed_sections_spec(a, b).contains("checks"@) <==> (a.pull_request is Some && b.pull_request is Some && a.pull_request->0.checks != b.pull_request->0.checks),
        changed_sections_spec(a, b).contains("files"@) <==> (a.pull_request is Some && b.pull_request is Some && a.pull_request->0.files != b.pull_request->0.files),
        changed_sections_spec(a, b).contains("pr metadata"@) <==> (a.pull_request is Some && b.pull_request is Some && a.pull_request->0.metadata != b.pull_request->0.metadata),
        forall|y: Seq<char>| #[trigger] changed_sections_spec(a, b).contains(y) ==> (y == "identity"@ || y == "summary"@ || y == "metadata"@ || y == "warnings"@ || y == "activity"@ || y == "kind"@ || y == "review"@ || y == "merge"@ || y == "diff"@ || y == "commits"@ || y == "checks"@ || y == "files"@ || y == "pr metadata"@),
{
    assert(changed_sections_spec(a, b).contains("identity"@) <==> a.id != b.id) by {
        lemma_section_labels();
        lemma_changed_sections_contain(a, b, "identity"@);
        lemma_base_sections_contain(a, b, "identity"@);
    }
    assert(changed_sections_spec(a, b).contains("summary"@) <==> (a.title != b.title || a.state != b.state || a.body != b.body)) by {
        lemma_section_labels();
        lemma_changed_sections_contain(a, b, "summary"@);
        lemma_base_sections_contain(a, b, "summary"@);
    }
    assert(changed_sections_spec(a, b).contains("metadata"@) <==> (a.labels != b.labels || a.assignees != b.assignees || a.reactions != b.reactions || a.related_resources != b.related_resources || a.metadata != b.metadata)) by {
        lemma_section_labels();
        lemma_changed_sections_contain(a, b, "metadata"@);
        lemma_base_sections_contain(a, b, "metadata"@);
    }
    assert(changed_sections_spec(a, b).contains("warnings"@) <==> a.warnings != b.warnings) by {
        lemma_section_labels();
        lemma_changed_sections_contain(a, b, "warnings"@);
        lemma_base_sections_contain(a, b, "warnings"@);
    }
    assert(changed_sections_spec(a, b).contains("activity"@) <==> a.activity != b.activity) by {
        lemma_section_labels();
        lemma_changed_sections_contain(a, b, "activity"@);
        lemma_base_sections_contain(a, b, "activity"@);
    }
    assert(changed_sections_spec(a, b).contains("kind"@) <==> ((a.pull_request is Some) != (b.pull_request is Some))) by {
        lemma_section_labels();
        lemma_changed_sections_contain(a, b, "kind"@);
        lemma_base_sections_contain(a, b, "kind"@);
    }
    assert(changed_sections_spec(a, b).contains("review"@) <==> (a.pull_request is Some && b.pull_request is Some && (a.pull_request->0.requested_reviewers != b.pull_request->0.requested_reviewers || a.pull_request->0.review_decision != b.pull_request->0.review_decision))) by {
        lemma_section_labels();
        lemma_changed_sections_contain(a, b, "review"@);
        lemma_base_sections_contain(a, b, "review"@);
    }
    assert(changed_sections_spec(a, b).contains("merge"@) <==> (a.pull_request is Some && b.pull_request is Some && (a.pull_request->0.base_ref != b.pull_request->0.base_ref || a.pull_request->0.head_ref != b.pull_request->0.head_ref || a.pull_request->0.merge_state != b.pull_request->0.merge_state))) by {
        lemma_section_labels();
        lemma_changed_sections_contain(a, b, "merge"@);
        lemma_base_sections_contain(a, b, "merge"@);
    }
    assert(changed_sections_spec(a, b).contains("diff"@) <==> (a.pull_request is Some && b.pull_request is Some && (a.pull_request->0.additions != b.pull_request->0.additions || a.pull_request->0.deletions != b.pull_request->0.deletions))) by {
        lemma_section_labels();
        lemma_changed_sections_contain(a, b, "diff"@);
        lemma_base_sections_contain(a, b, "diff"@);
    }
    assert(changed_sections_spec(a, b).contains("commits"@) <==> (a.pull_request is Some && b.pull_request is Some && a.pull_request->0.commits != b.pull_request->0.commits)) by {
        lemma_section_labels();
        lemma_changed_sections_contain(a, b, "commits"@);
        lemma_base_sections_contain(a, b, "commits"@);
    }
    assert(changed_sections_spec(a, b).contains("checks"@) <==> (a.pull_request is Some && b.pull_request is Some && a.pull_request->0.checks != b.pull_request->0.checks)) by {
        lemma_section_labels();
        lemma_changed_sections_contain(a, b, "checks"@);
        lemma_base_sections_contain(a, b, "checks"@);
    }
    assert(changed_sections_spec(a, b).contains("files"@) <==> (a.pull_request is Some && b.pull_request is Some && a.pull_request->0.files != b.pull_request->0.files)) by {
        lemma_section_labels();
        lemma_changed_sections_contain(a, b, "files"@);
        lemma_base_sections_contain(a, b, "files"@);
    }
    assert(changed_sections_spec(a, b).contains("pr metadata"@) <==> (a.pull_request is Some && b.pull_request is Some && a.pull_request->0.metadata != b.pull_request->0.metadata)) by {
        lemma_section_labels();
        lemma_changed_sections_contain(a, b, "pr metadata"@);
        lemma_base_sections_contain(a, b, "pr metadata"@);
    }
    assert forall|y: Seq<char>| #[trigger] changed_sections_spec(a, b).contains(y) implies (y == "identity"@ || y == "summary"@ || y == "metadata"@ || y == "warnings"@ || y == "activity"@ || y == "kind"@ || y == "review"@ || y == "merge"@ || y == "diff"@ || y == "commits"@ || y == "checks"@ || y == "files"@ || y == "pr metadata"@) by {
        lemma_changed_sections_contain(a, b, y);
        lemma_base_sections_contain(a, b, y);
    }
}

fn push_changed(sections: &mut Vec<String>, label: &str, changed: bool)
    ensures
        strs(final(sections)@) == strs(old(sections)@) + if changed { seq![label@] } else { Seq::empty() },
{
    if changed {
        sections.push(crate::text::owned(label));
    }
    proof {
        assert(strs(final(sections)@) =~= strs(old(sections)@) + if changed { seq![label@] } else { Seq::empty() });
    }
}

pub open spec fn has_warning_containing(warnings: Seq<Seq<char>>, needle: Seq<char>) -> bool {
    exists|i: int| 0 <= i < warnings.len() && contains(#[trigger] warnings[i], needle)
}

pub open spec fn has_warning_starting_with(warnings: Seq<Seq<char>>, prefix: Seq<char>) -> bool {
    exists|i: int| 0 <= i < warnings.len() && crate::text::starts_with(#[trigger] warnings[i], prefix)
}

/// The web URL shown for a resource: its own URL (trimmed) when that is a
/// GitHub web URL, otherwise one built from its id and kind.
pub open spec fn resource_web_url(r: ResourceView, kind: ResourceKind) -> Seq<char> {
    let u = crate::text::trim(r.url);
    if crate::text::starts_with(u, crate::domain::resource_id::github_prefix()) {
        u
    } else {
        crate::domain::resource_id::web_url_spec(r.id, kind)
    }
}

impl Resource {
    pub fn kind(&self) -> (k: ResourceKind)
        ensures
            k == resource_kind(*self),
    {
        if self.pull_request.is_some() {
            ResourceKind::PullRequest
        } else {
            ResourceKind::Issue
        }
    }

    pub fn is_pull_request(&self) -> (b: bool)
        ensures
            b == self.pull_request is Some,
    {
        self.pull_request.is_some()
    }

    /// The web URL of the resource.
    pub fn web_url(&self) -> (s: String)
        ensures
            s@ == resource_web_url(self@, resource_kind(*self)),
    {
        let v = crate::text::chars_of(self.url.as_str());
        let (a, b) = crate::text::trim_bounds(v.as_slice());
        let t = crate::text::slice_to_vec(v.as_slice(), a, b);
        let prefix = crate::text::chars_of("https://github.com/");
        proof {
            reveal_strlit("https://github.com/");
            assert(prefix@ =~= crate::domain::resource_id::github_prefix());
        }
        if crate::text::chars_start_with(t.as_slice(), prefix.as_slice()) {
            crate::text::string_from(t.as_slice())
        } else {
            self.id.web_url_for_kind(self.kind())
        }
    }

    /// Whether a warning says that only a partial API depth was loaded.
    pub fn has_partial_depth_warning(&self) -> (b: bool)
        ensures
            b == has_warning_containing(strs(self.warnings@), FULL_DEPTH_WARNING_HINT@),
    {
        let hint = crate::text::chars_of(FULL_DEPTH_WARNING_HINT);
        let mut i: usize = 0;
        while i < self.warnings.len()
            invariant
                i <= self.warnings@.len(),
                hint@ == FULL_DEPTH_WARNING_HINT@,
                forall|j: int| 0 <= j < i ==> !contains(#[trigger] strs(self.warnings@)[j], FULL_DEPTH_WARNING_HINT@),
            decreases self.warnings.len() - i,
        {
            let w = crate::text::chars_of(self.warnings[i].as_str());
            if crate::text::chars_contain(w.as_slice(), hint.as_slice()) {
                proof {
                    assert(strs(self.warnings@)[i as int] == self.warnings@[i as int]@);
                }
                return true;
            }
            i = i + 1;
        }
        false
    }

    /// Whether a warning says that the public REST fallback supplied the data.
    pub fn uses_public_rest_fallback(&self) -> (b: bool)
        ensures
            b == has_warning_starting_with(strs(self.warnings@), PUBLIC_REST_FALLBACK_WARNING_PREFIX@),
    {
        let prefix = crate::text::chars_of(PUBLIC_REST_FALLBACK_WARNING_PREFIX);
        let mut i: usize = 0;
        while i < self.warnings.len()
            invariant
                i <= self.warnings@.len(),
                prefix@ == PUBLIC_REST_FALLBACK_WARNING_PREFIX@,
                forall|j: int| 0 <= j < i ==> !crate::text::starts_with(#[trigger] strs(self.warnings@)[j], PUBLIC_REST_FALLBACK_WARNING_PREFIX@),
            decreases self.warnings.len() - i,
        {
            let w = crate::text::chars_of(self.warnings[i].as_str());
            if crate::text::chars_start_with(w.as_slice(), prefix.as_slice()) {
                proof {
                    assert(strs(self.warnings@)[i as int] == self.warnings@[i as int]@);
                }
                return true;
            }
            i = i + 1;
        }
        false
    }

    /// The sections that differ between this resource and `other`.
    #[verifier::spinoff_prover]
    #[verifier::rlimit(50)]
    pub fn changed_sections(&self, other: &Self) -> (sections: Vec<String>)
        ensures
            strs(sections@) == changed_sections_spec(self@, other@),
    {
        let mut sections: Vec<String> = Vec::new();
        push_changed(&mut sections, "identity", !self.id.same_as(&other.id));
        push_changed(
            &mut sections,
            "summary",
            !(self.title == other.title) || !(self.state == other.state) || !(self.body
                == other.body),
        );
        push_changed(
            &mut sections,
            "metadata",
            !same_vec(&self.labels, &other.labels) || !same_vec(&self.assignees, &other.assignees)
                || self.reactions != other.reactions || !same_vec(
                &self.related_resources,
                &other.related_resources,
            ) || !same_vec(&self.metadata, &other.metadata),
        );
        push_changed(&mut sections, "warnings", !same_vec(&self.warnings, &other.warnings));
        push_changed(&mut sections, "activity", !same_vec(&self.activity, &other.activity));
        match (&self.pull_request, &other.pull_request) {
            (Some(left), Some(right)) => {
                push_changed(
                    &mut sections,
                    "review",
                    !same_vec(&left.requested_reviewers, &right.requested_reviewers)
                        || !same_opt_str(&left.review_decision, &right.review_decision),
                );
                push_changed(
                    &mut sections,
                    "merge",
                    !(left.base_ref == right.base_ref) || !(left.head_ref == right.head_ref)
                        || !same_opt_str(&left.merge_state, &right.merge_state),
                );
                push_changed(
                    &mut sections,
                    "diff",
                    left.additions != right.additions || left.deletions != right.deletions,
                );
                push_changed(&mut sections, "commits", !same_vec(&left.commits, &right.commits));
                push_changed(&mut sections, "checks", !same_vec(&left.checks, &right.checks));
                push_changed(&mut sections, "files", !same_vec(&left.files, &right.files));
                push_changed(
                    &mut sections,
                    "pr metadata",
                    !same_vec(&left.metadata, &right.metadata),
                );
            },
            (None, None) => {},
            _ => {
                sections.push(crate::text::owned("kind"));
            },
        }
        proof {
            assert(strs(sections@) =~= changed_sections_spec(self@, other@));
        }
        sections
    }
}


/// The status a GitHub check status and conclusion map to, read without
/// regard to ASCII case.
pub open spec fn status_from_github(status: Option<Seq<char>>, conclusion: Option<Seq<char>>) -> CheckStatus {
    let s = match status {
        Some(x) => Some(crate::text::upper_seq(x)),
        None => None,
    };
    let c = match conclusion {
        Some(x) => Some(crate::text::upper_seq(x)),
        None => None,
    };
    if (s == Some("COMPLETED"@) && c == Some("SUCCESS"@)) || s == Some("SUCCESS"@) {
        CheckStatus::Success
    } else if s == Some("COMPLETED"@) && (c == Some("FAILURE"@) || c == Some("TIMED_OUT"@) || c
        == Some("STARTUP_FAILURE"@)) {
        CheckStatus::Failure
    } else if s == Some("COMPLETED"@) && c == Some("ACTION_REQUIRED"@) {
        CheckStatus::Pending
    } else if s == Some("COMPLETED"@) && (c == Some("SKIPPED"@) || c == Some("CANCELLED"@) || c
        == Some("STALE"@)) {
        CheckStatus::Skipped
    } else if s == Some("COMPLETED"@) && c == Some("NEUTRAL"@) {
        CheckStatus::Neutral
    } else if s == Some("COMPLETED"@) {
        CheckStatus::Unknown
    } else if s == Some("ERROR"@) || s == Some("FAILURE"@) {
        CheckStatus::Failure
    } else if s == Some("EXPECTED"@) {
        CheckStatus::Pending
    } else if s == Some("QUEUED"@) || s == Some("IN_PROGRESS"@) || s == Some("PENDING"@) || s
        == Some("WAITING"@) || s == Some("REQUESTED"@) {
        CheckStatus::Pending
    } else {
        CheckStatus::Unknown
    }
}

/// Whether an optional upper-cased text equals `lit`.
fn opt_is(v: &Option<Vec<char>>, lit: &str) -> (b: bool)
    ensures
        b == (match v {
            Some(x) => Some(x@),
            None => None,
        } == Some(lit@)),
{
    match v {
        Some(x) => crate::text::chars_eq_str(x.as_slice(), lit),
        None => false,
    }
}

impl CheckStatus {
    /// The status that a GitHub check's status and conclusion map to.
    pub fn from_github(status: Option<&str>, conclusion: Option<&str>) -> (r: Self)
        ensures
            r == status_from_github(
                match status {
                    Some(x) => Some(x@),
                    None => None,
                },
                match conclusion {
                    Some(x) => Some(x@),
                    None => None,
                },
            ),
    {
        let s: Option<Vec<char>> = match status {
            Some(x) => Some(crate::text::uppercase_chars(x)),
            None => None,
        };
        let c: Option<Vec<char>> = match conclusion {
            Some(x) => Some(crate::text::uppercase_chars(x)),
            None => None,
        };
        let completed = opt_is(&s, "COMPLETED");
        if (completed && opt_is(&c, "SUCCESS")) || opt_is(&s, "SUCCESS") {
            CheckStatus::Success
        } else if completed && (opt_is(&c, "FAILURE") || opt_is(&c, "TIMED_OUT") || opt_is(
            &c,
            "STARTUP_FAILURE",
        )) {
            CheckStatus::Failure
        } else if completed && opt_is(&c, "ACTION_REQUIRED") {
            CheckStatus::Pending
        } else if completed && (opt_is(&c, "SKIPPED") || opt_is(&c, "CANCELLED") || opt_is(
            &c,
            "STALE",
        )) {
            CheckStatus::Skipped
        } else if completed && opt_is(&c, "NEUTRAL") {
            CheckStatus::Neutral
        } else if completed {
            CheckStatus::Unknown
        } else if opt_is(&s, "ERROR") || opt_is(&s, "FAILURE") {
            CheckStatus::Failure
        } else if opt_is(&s, "EXPECTED") {
            CheckStatus::Pending
        } else if opt_is(&s, "QUEUED") || opt_is(&s, "IN_PROGRESS") || opt_is(&s, "PENDING")
            || opt_is(&s, "WAITING") || opt_is(&s, "REQUESTED") {
            CheckStatus::Pending
        } else {
            CheckStatus::Unknown
        }
    }
}

/// How many of `checks` have `status`.
pub open spec fn count_status(checks: Seq<CheckRun>, status: CheckStatus) -> nat
    decreases checks.len(),
{
    if checks.len() == 0 {
        0
    } else {
        count_status(checks.drop_last(), status) + if checks.last().status == status { 1nat } else { 0nat }
    }
}

proof fn lemma_count_status_bound(checks: Seq<CheckRun>, status: CheckStatus)
    ensures
        count_status(checks, status) <= checks.len(),
    decreases checks.len(),
{
    if checks.len() > 0 {
        lemma_count_status_bound(checks.drop_last(), status);
    }
}

impl PullRequest {
    /// How many checks there are of each status.
    pub fn check_counts(&self) -> (c: CheckCounts)
        ensures
            c.success == count_status(self.checks@, CheckStatus::Success),
            c.failure == count_status(self.checks@, CheckStatus::Failure),
            c.pending == count_status(self.checks@, CheckStatus::Pending),
            c.skipped == count_status(self.checks@, CheckStatus::Skipped),
            c.neutral == count_status(self.checks@, CheckStatus::Neutral),
            c.unknown == count_status(self.checks@, CheckStatus::Unknown),
    {
        let mut c = CheckCounts {
            success: 0,
            failure: 0,
            pending: 0,
            skipped: 0,
            neutral: 0,
            unknown: 0,
        };
        let mut i: usize = 0;
        while i < self.checks.len()
            invariant
                i <= self.checks@.len(),
                c.success == count_status(self.checks@.subrange(0, i as int), CheckStatus::Success),
                c.failure == count_status(self.checks@.subrange(0, i as int), CheckStatus::Failure),
                c.pending == count_status(self.checks@.subrange(0, i as int), CheckStatus::Pending),
                c.skipped == count_status(self.checks@.subrange(0, i as int), CheckStatus::Skipped),
                c.neutral == count_status(self.checks@.subrange(0, i as int), CheckStatus::Neutral),
                c.unknown == count_status(self.checks@.subrange(0, i as int), CheckStatus::Unknown),
            decreases self.checks.len() - i,
        {
            let ghost pre = self.checks@.subrange(0, i as int);
            let ghost next = self.checks@.subrange(0, i + 1);
            proof {
                assert(next.drop_last() == pre);
                lemma_count_status_bound(pre, self.checks@[i as int].status);
            }
            match self.checks[i].status {
                CheckStatus::Success => c.success = c.success + 1,
                CheckStatus::Failure => c.failure = c.failure + 1,
                CheckStatus::Pending => c.pending = c.pending + 1,
                CheckStatus::Skipped => c.skipped = c.skipped + 1,
                CheckStatus::Neutral => c.neutral = c.neutral + 1,
                CheckStatus::Unknown => c.unknown = c.unknown + 1,
            }
            i = i + 1;
        }
        proof {
            assert(self.checks@.subrange(0, self.checks@.len() as int) == self.checks@);
        }
        c
    }
}

/// What a merge of patch context changed.
#[derive(Debug, Default, Clone, Copy, PartialEq, Eq, Structural)]
pub struct ResourceMerge {
    pub warnings_changed: bool,
    pub files_changed: bool,
}

impl ResourceMerge {
    /// Whether anything changed.
    pub fn changed(self) -> (b: bool)
        ensures
            b == (self.warnings_changed || self.files_changed),
    {
        self.warnings_changed || self.files_changed
    }
}


/// The patch of the last file at `path` that has one: a patch map keyed by
/// path keeps the last entry of each path.
pub open spec fn patch_for_path(files: Seq<ChangedFileView>, path: Seq<char>) -> Option<Seq<char>>
    decreases files.len(),
{
    if files.len() == 0 {
        None
    } else if files.last().path == path && files.last().patch is Some {
        files.last().patch
    } else {
        patch_for_path(files.drop_last(), path)
    }
}

/// `base` with each warning of `extra` (only those naming missing file patch
/// context, when `only_patch_context`) appended unless already present.
pub open spec fn merged_warnings(base: Seq<Seq<char>>, extra: Seq<Seq<char>>, only_patch_context: bool) -> Seq<Seq<char>>
    decreases extra.len(),
{
    if extra.len() == 0 {
        base
    } else {
        let prior = merged_warnings(base, extra.drop_last(), only_patch_context);
        let w = extra.last();
        if (!only_patch_context || crate::text::starts_with(w, FILE_PATCH_CONTEXT_UNAVAILABLE_WARNING@))
            && !prior.contains(w) {
            prior.push(w)
        } else {
            prior
        }
    }
}

/// `files` with the patch each takes from `source`: every file when
/// `overwrite`, else only those without a patch.
pub open spec fn patched_files(files: Seq<ChangedFileView>, source: Seq<ChangedFileView>, overwrite: bool) -> Seq<ChangedFileView> {
    Seq::new(
        files.len(),
        |i: int|
            ChangedFileView {
                patch: if (overwrite || files[i].patch is None) && patch_for_path(source, files[i].path) is Some {
                    patch_for_path(source, files[i].path)
                } else {
                    files[i].patch
                },
                ..files[i]
            },
    )
}

/// The file patches of a resource's pull request (none for an issue).
pub open spec fn pr_files(r: ResourceView) -> Seq<ChangedFileView> {
    match r.pull_request {
        Some(pr) => pr.files,
        None => Seq::empty(),
    }
}

/// `r` with the given warnings and with its pull request files patched from `source`.
pub open spec fn with_patch_context(r: ResourceView, warnings: Seq<Seq<char>>, source: Seq<ChangedFileView>, overwrite: bool) -> ResourceView {
    ResourceView {
        warnings,
        pull_request: match r.pull_request {
            Some(pr) => Some(PullRequestView { files: patched_files(pr.files, source, overwrite), ..pr }),
            None => None,
        },
        ..r
    }
}

fn clone_opt_str(o: &Option<String>) -> (r: Option<String>)
    ensures
        r == *o,
{
    match o {
        Some(s) => Some(s.clone()),
        None => None,
    }
}

/// The patch of the last file at `path` that has one.
fn lookup_patch(files: &Vec<ChangedFile>, path: &String) -> (r: Option<String>)
    ensures
        opt_str(r) == patch_for_path(views(files@), path@),
{
    let mut i = files.len();
    proof {
        assert(files@.subrange(0, i as int) == files@);
    }
    while i > 0
        invariant
            i <= files@.len(),
            patch_for_path(views(files@), path@) == patch_for_path(views(files@.subrange(0, i as int)), path@),
        decreases i,
    {
        let ghost pre = views(files@.subrange(0, i as int));
        proof {
            assert(pre.drop_last() =~= views(files@.subrange(0, i - 1)));
            assert(pre.last() == files@[i - 1]@);
        }
        if files[i - 1].patch.is_some() && files[i - 1].path == *path {
            return clone_opt_str(&files[i - 1].patch);
        }
        i = i - 1;
    }
    None
}

/// Appends to `warnings` each warning of `extra` not yet present (only those
/// naming missing file patch context, when `only_patch_context`); tells
/// whether it appended any.
fn merge_warnings_into(warnings: &mut Vec<String>, extra: &Vec<String>, only_patch_context: bool) -> (changed: bool)
    ensures
        strs(final(warnings)@) == merged_warnings(strs(old(warnings)@), strs(extra@), only_patch_context),
        changed == (final(warnings)@.len() > old(warnings)@.len()),
        final(warnings)@.len() >= old(warnings)@.len(),
{
    let ghost base = strs(warnings@);
    let prefix = crate::text::chars_of(FILE_PATCH_CONTEXT_UNAVAILABLE_WARNING);
    let mut changed = false;
    let mut i: usize = 0;
    while i < extra.len()
        invariant
            i <= extra@.len(),
            prefix@ == FILE_PATCH_CONTEXT_UNAVAILABLE_WARNING@,
            base == strs(old(warnings)@),
            strs(warnings@) == merged_warnings(base, strs(extra@.subrange(0, i as int)), only_patch_context),
            changed == (warnings@.len() > old(warnings)@.len()),
            warnings@.len() >= old(warnings)@.len(),
        decreases extra.len() - i,
    {
        let ghost prior = strs(warnings@);
        let ghost ex = strs(extra@.subrange(0, i + 1));
        proof {
            assert(ex.drop_last() =~= strs(extra@.subrange(0, i as int)));
            assert(ex.last() == extra@[i as int]@);
        }
        let w = &extra[i];
        let eligible = if only_patch_context {
            let wc = crate::text::chars_of(w.as_str());
            crate::text::chars_start_with(wc.as_slice(), prefix.as_slice())
        } else {
            true
        };
        if eligible {
            let mut present = false;
            let mut k: usize = 0;
            while k < warnings.len()
                invariant
                    k <= warnings@.len(),
                    present == (exists|j: int| 0 <= j < k && #[trigger] warnings@[j]@ == w@),
                decreases warnings.len() - k,
            {
                if warnings[k] == *w {
                    present = true;
                }
                k = k + 1;
            }
            proof {
                if present {
                    let j = choose|j: int| 0 <= j < k && #[trigger] warnings@[j]@ == w@;
                    assert(prior[j] == w@);
                }
                if prior.contains(w@) {
                    let j = choose|j: int| 0 <= j < prior.len() && prior[j] == w@;
                    assert(warnings@[j]@ == w@);
                }
            }
            if !present {
                warnings.push(w.clone());
                changed = true;
                proof {
                    assert(strs(warnings@) =~= prior.push(w@));
                }
            }
        }
        i = i + 1;
    }
    proof {
        assert(extra@.subrange(0, extra@.len() as int) == extra@);
    }
    changed
}

/// `files` with patches taken from `source`: every file when `overwrite`,
/// else only those without one; tells whether any patch changed.
fn patch_files(files: &Vec<ChangedFile>, source: &Vec<ChangedFile>, overwrite: bool) -> (r: (Vec<ChangedFile>, bool))
    ensures
        views(r.0@) == patched_files(views(files@), views(source@), overwrite),
        r.1 == (exists|i: int| 0 <= i < files@.len() && #[trigger] patched_files(views(files@), views(source@), overwrite)[i].patch != views(files@)[i].patch),
{
    let ghost target = patched_files(views(files@), views(source@), overwrite);
    let mut out: Vec<ChangedFile> = Vec::new();
    let mut changed = false;
    let mut i: usize = 0;
    while i < files.len()
        invariant
            i <= files@.len(),
            target == patched_files(views(files@), views(source@), overwrite),
            out@.len() == i,
            forall|j: int| 0 <= j < i ==> #[trigger] out@[j]@ == target[j],
            changed == (exists|j: int| 0 <= j < i && #[trigger] target[j].patch != views(files@)[j].patch),
        decreases files.len() - i,
    {
        let f = &files[i];
        let found = if overwrite || f.patch.is_none() {
            lookup_patch(source, &f.path)
        } else {
            None
        };
        let this_changed = match &found {
            Some(p) => !same_opt_str(&f.patch, &Some(p.clone())),
            None => false,
        };
        let patch = match found {
            Some(p) => Some(p),
            None => clone_opt_str(&f.patch),
        };
        proof {
            assert(views(files@)[i as int] == f@);
            assert(target[i as int].patch == opt_str(patch));
            assert(this_changed == (target[i as int].patch != views(files@)[i as int].patch));
        }
        changed = changed || this_changed;
        out.push(
            ChangedFile {
                path: f.path.clone(),
                additions: f.additions,
                deletions: f.deletions,
                change_type: f.change_type.clone(),
                patch,
            },
        );
        proof {
            assert(out@[i as int]@ == target[i as int]);
        }
        i = i + 1;
    }
    proof {
        assert(views(out@) =~= target);
    }
    (out, changed)
}

/// `r` with the patch context of `p` merged in (see `merge_file_patch_context_from`).
pub open spec fn patch_merged(r: ResourceView, p: ResourceView) -> ResourceView {
    with_patch_context(r, merged_warnings(r.warnings, p.warnings, false), pr_files(p), true)
}

/// Whether merging the patch context of `p` into `r` adds a warning.
pub open spec fn patch_warnings_changed(r: ResourceView, p: ResourceView) -> bool {
    merged_warnings(r.warnings, p.warnings, false).len() > r.warnings.len()
}

/// Whether merging the patch context of `p` into `r` changes a file's patch.
pub open spec fn patch_files_changed(r: ResourceView, p: ResourceView) -> bool {
    r.pull_request is Some && exists|i: int| 0 <= i < pr_files(r).len()
        && #[trigger] patched_files(pr_files(r), pr_files(p), true)[i].patch != pr_files(r)[i].patch
}

impl Resource {
    /// Takes the file patches (and warnings) of `patch_resource` into this
    /// resource: each file takes the patch that `patch_resource` has for its
    /// path, and each warning not yet present is appended.
    pub fn merge_file_patch_context_from(&mut self, patch_resource: &Resource) -> (merge: ResourceMerge)
        ensures
            final(self)@ == with_patch_context(
                old(self)@,
                merged_warnings(old(self)@.warnings, patch_resource@.warnings, false),
                pr_files(patch_resource@),
                true,
            ),
            merge.warnings_changed == (merged_warnings(old(self)@.warnings, patch_resource@.warnings, false).len() > old(self)@.warnings.len()),
            merge.files_changed == (old(self)@.pull_request is Some && exists|i: int| 0 <= i < pr_files(old(self)@).len()
                && #[trigger] patched_files(pr_files(old(self)@), pr_files(patch_resource@), true)[i].patch != pr_files(old(self)@)[i].patch),
    {
        let warnings_changed = merge_warnings_into(&mut self.warnings, &patch_resource.warnings, false);
        let empty: Vec<ChangedFile> = Vec::new();
        let source: &Vec<ChangedFile> = match &patch_resource.pull_request {
            Some(pr) => &pr.files,
            None => &empty,
        };
        proof {
            assert(views(source@) =~= pr_files(patch_resource@));
        }
        let mut files_changed = false;
        match &mut self.pull_request {
            Some(pr) => {
                let (files, changed) = patch_files(&pr.files, source, true);
                pr.files = files;
                files_changed = changed;
            },
            None => {},
        }
        proof {
            assert(self@ =~= with_patch_context(
                old(self)@,
                merged_warnings(old(self)@.warnings, patch_resource@.warnings, false),
                pr_files(patch_resource@),
                true,
            ));
        }
        ResourceMerge { warnings_changed, files_changed }
    }

    /// Keeps the file patch context of an `existing` copy across a reload:
    /// files that came back without a patch take the one `existing` had, and
    /// warnings about missing patch context are carried over.
    pub fn preserve_loaded_file_patch_context_from(&mut self, existing: &Resource)
        ensures
            final(self)@ == with_patch_context(
                old(self)@,
                merged_warnings(old(self)@.warnings, existing@.warnings, true),
                pr_files(existing@),
                false,
            ),
    {
        let _ = merge_warnings_into(&mut self.warnings, &existing.warnings, true);
        let empty: Vec<ChangedFile> = Vec::new();
        let source: &Vec<ChangedFile> = match &existing.pull_request {
            Some(pr) => &pr.files,
            None => &empty,
        };
        proof {
            assert(views(source@) =~= pr_files(existing@));
        }
        match &mut self.pull_request {
            Some(pr) => {
                let (files, _) = patch_files(&pr.files, source, false);
                pr.files = files;
            },
            None => {},
        }
        proof {
            assert(self@ =~= with_patch_context(
                old(self)@,
                merged_warnings(old(self)@.warnings, existing@.warnings, true),
                pr_files(existing@),
                false,
            ));
        }
    }
}

} // verus!

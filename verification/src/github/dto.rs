//! The shapes of the JSON documents that `gh` prints, as the library reads
//! them. Decoding the JSON text into these shapes happens outside the
//! library; every field here holds what the document held.
use vstd::prelude::*;

verus! {

/// A scalar found in a JSON document: text, or an unsigned integer.
#[derive(Debug, Clone, PartialEq, Eq)]
pub enum JsonScalar {
    Text(String),
    Number(u64),
}

/// One scalar of a JSON object and the keys that lead to it from the top.
#[derive(Debug, Clone, PartialEq, Eq)]
pub struct JsonLeaf {
    pub path: Vec<String>,
    pub value: JsonScalar,
}

/// A JSON object as the text and unsigned-integer values found under its
/// nested objects, each with the path of keys that leads to it. Other
/// values (booleans, nulls, arrays, other numbers) are not kept: nothing
/// reads them.
#[derive(Debug, Clone, PartialEq, Eq)]
pub struct JsonValue {
    pub leaves: Vec<JsonLeaf>,
}

#[derive(Debug, Clone, PartialEq, Eq)]
pub struct UserDto {
    pub login: Option<String>,
    pub name: Option<String>,
}

#[derive(Debug, Clone, PartialEq, Eq)]
pub struct LabelDto {
    pub name: String,
}

#[derive(Debug, Clone, PartialEq, Eq)]
pub struct ReactionGroupDto {
    pub content: String,
    pub users: TotalCountDto,
}

#[derive(Debug, Clone, Copy, PartialEq, Eq)]
pub struct TotalCountDto {
    pub total_count: u64,
}

#[derive(Debug, Clone, PartialEq, Eq)]
pub struct CommentDto {
    pub id: Option<String>,
    pub author: Option<UserDto>,
    pub author_association: Option<String>,
    pub body: String,
    pub created_at: Option<String>,
    pub updated_at: Option<String>,
    pub url: Option<String>,
    pub includes_created_edit: Option<bool>,
    pub is_minimized: Option<bool>,
    pub minimized_reason: Option<String>,
    pub reaction_groups: Vec<ReactionGroupDto>,
}

#[derive(Debug, Clone, PartialEq, Eq)]
pub struct ReviewDto {
    pub id: Option<String>,
    pub author: Option<UserDto>,
    pub author_association: Option<String>,
    pub body: Option<String>,
    pub state: Option<String>,
    pub submitted_at: Option<String>,
    pub updated_at: Option<String>,
    pub url: Option<String>,
    pub reaction_groups: Vec<ReactionGroupDto>,
}

#[derive(Debug, Clone, PartialEq, Eq)]
pub struct ReviewThreadsResponse {
    pub data: ReviewThreadsData,
}

#[derive(Debug, Clone, PartialEq, Eq)]
pub struct ReviewThreadsData {
    pub repository: Option<ReviewThreadsRepository>,
}

#[derive(Debug, Clone, PartialEq, Eq)]
pub struct ReviewThreadsRepository {
    pub pull_request: Option<ReviewThreadsPullRequest>,
}

#[derive(Debug, Clone, PartialEq, Eq)]
pub struct ReviewThreadsPullRequest {
    pub review_threads: ReviewThreadsConnection,
}

#[derive(Debug, Clone, PartialEq, Eq)]
pub struct ReviewThreadsConnection {
    pub nodes: Vec<ReviewThreadDto>,
}

#[derive(Debug, Clone, PartialEq, Eq)]
pub struct ReviewThreadDto {
    pub id: Option<String>,
    pub is_resolved: Option<bool>,
    pub is_outdated: Option<bool>,
    pub path: Option<String>,
    pub line: Option<u64>,
    pub comments: ReviewThreadCommentsConnection,
}

#[derive(Debug, Clone, PartialEq, Eq)]
pub struct ReviewThreadCommentsConnection {
    pub nodes: Vec<ReviewThreadCommentDto>,
}

#[derive(Debug, Clone, PartialEq, Eq)]
pub struct ReviewThreadCommentDto {
    pub id: Option<String>,
    pub author: Option<UserDto>,
    pub author_association: Option<String>,
    pub body: String,
    pub created_at: Option<String>,
    pub updated_at: Option<String>,
    pub url: Option<String>,
    pub includes_created_edit: Option<bool>,
    pub is_minimized: Option<bool>,
    pub minimized_reason: Option<String>,
    pub reaction_groups: Vec<ReactionGroupDto>,
    pub path: Option<String>,
    pub line: Option<u64>,
}

#[derive(Debug, Clone, PartialEq, Eq)]
pub struct ChangedFilesResponse {
    pub data: ChangedFilesData,
}

#[derive(Debug, Clone, PartialEq, Eq)]
pub struct ChangedFilesData {
    pub repository: Option<ChangedFilesRepository>,
}

#[derive(Debug, Clone, PartialEq, Eq)]
pub struct ChangedFilesRepository {
    pub pull_request: Option<ChangedFilesPullRequest>,
}

#[derive(Debug, Clone, PartialEq, Eq)]
pub struct ChangedFilesPullRequest {
    pub files: ChangedFilesConnection,
}

#[derive(Debug, Clone, PartialEq, Eq)]
pub struct ChangedFilesConnection {
    pub page_info: PageInfoDto,
    pub nodes: Vec<FileDto>,
}

#[derive(Debug, Clone, PartialEq, Eq)]
pub struct TimelineResponse {
    pub data: TimelineData,
}

#[derive(Debug, Clone, PartialEq, Eq)]
pub struct TimelineData {
    pub repository: Option<TimelineRepository>,
}

#[derive(Debug, Clone, PartialEq, Eq)]
pub struct TimelineRepository {
    pub issue: Option<TimelineResource>,
    pub pull_request: Option<TimelineResource>,
}

#[derive(Debug, Clone, PartialEq, Eq)]
pub struct TimelineResource {
    pub timeline_items: TimelineItemsConnection,
}

#[derive(Debug, Clone, PartialEq, Eq)]
pub struct TimelineItemsConnection {
    pub nodes: Vec<JsonValue>,
}

#[derive(Debug, Clone, PartialEq, Eq)]
pub struct PageInfoDto {
    pub has_next_page: bool,
    pub end_cursor: Option<String>,
}

#[derive(Debug, Clone, PartialEq, Eq)]
pub struct CommitDto {
    pub oid: String,
    pub message_headline: String,
    pub message_body: Option<String>,
    pub committed_date: Option<String>,
    pub authored_date: Option<String>,
    pub authors: Option<Vec<UserDto>>,
}

#[derive(Debug, Clone, PartialEq, Eq)]
pub struct CommitDeploymentsResponse {
    pub data: CommitDeploymentsData,
}

#[derive(Debug, Clone, PartialEq, Eq)]
pub struct CommitDeploymentsData {
    pub repository: Option<CommitDeploymentsRepository>,
}

#[derive(Debug, Clone, PartialEq, Eq)]
pub struct CommitDeploymentsRepository {
    pub pull_request: Option<CommitDeploymentsPullRequest>,
}

#[derive(Debug, Clone, PartialEq, Eq)]
pub struct CommitDeploymentsPullRequest {
    pub commits: CommitDeploymentsConnection,
}

#[derive(Debug, Clone, PartialEq, Eq)]
pub struct CommitDeploymentsConnection {
    pub nodes: Vec<CommitDeploymentNode>,
}

#[derive(Debug, Clone, PartialEq, Eq)]
pub struct CommitDeploymentNode {
    pub commit: CommitDeploymentCommit,
}

#[derive(Debug, Clone, PartialEq, Eq)]
pub struct CommitDeploymentCommit {
    pub oid: String,
    pub deployments: DeploymentConnection,
}

#[derive(Debug, Clone, PartialEq, Eq)]
pub struct DeploymentConnection {
    pub nodes: Vec<DeploymentDto>,
}

#[derive(Debug, Clone, PartialEq, Eq)]
pub struct DeploymentDto {
    pub environment: Option<String>,
    pub task: Option<String>,
    pub description: Option<String>,
    pub created_at: Option<String>,
    pub updated_at: Option<String>,
    pub latest_status: Option<DeploymentStatusDto>,
}

#[derive(Debug, Clone, PartialEq, Eq)]
pub struct DeploymentStatusDto {
    pub state: Option<String>,
    pub description: Option<String>,
    pub environment_url: Option<String>,
    pub log_url: Option<String>,
    pub created_at: Option<String>,
}

#[derive(Debug, Clone, PartialEq, Eq)]
pub struct CheckDto {
    pub name: Option<String>,
    pub context: Option<String>,
    pub workflow_name: Option<String>,
    pub status: Option<String>,
    pub state: Option<String>,
    pub conclusion: Option<String>,
    pub details_url: Option<String>,
    pub target_url: Option<String>,
    pub started_at: Option<String>,
    pub completed_at: Option<String>,
}

#[derive(Debug, Clone, PartialEq, Eq)]
pub struct FileDto {
    pub path: String,
    pub additions: u64,
    pub deletions: u64,
    pub change_type: Option<String>,
}

#[derive(Debug, Clone, PartialEq, Eq)]
pub struct RelatedResourceDto {
    pub number: Option<u64>,
    pub url: Option<String>,
}

/// What `gh pr view --json` prints for a pull request.
#[derive(Debug, Clone, PartialEq, Eq)]
pub struct PrView {
    pub number: u64,
    pub title: String,
    pub url: String,
    pub state: String,
    pub author: Option<UserDto>,
    pub created_at: String,
    pub updated_at: String,
    pub labels: Vec<LabelDto>,
    pub assignees: Vec<UserDto>,
    pub reaction_groups: Vec<ReactionGroupDto>,
    pub body: String,
    pub base_ref_name: String,
    pub head_ref_name: String,
    pub base_ref_oid: Option<String>,
    pub head_ref_oid: Option<String>,
    pub head_repository: Option<JsonValue>,
    pub head_repository_owner: Option<JsonValue>,
    pub review_decision: Option<String>,
    pub review_requests: Vec<JsonValue>,
    pub closing_issues_references: Vec<RelatedResourceDto>,
    pub merge_state_status: Option<String>,
    pub mergeable: Option<String>,
    pub is_draft: bool,
    pub is_cross_repository: bool,
    pub maintainer_can_modify: bool,
    pub changed_files: Option<u64>,
    pub closed: bool,
    pub closed_at: Option<String>,
    pub merged_at: Option<String>,
    pub merged_by: Option<UserDto>,
    pub milestone: Option<JsonValue>,
    pub project_items: Vec<JsonValue>,
    pub auto_merge_request: Option<JsonValue>,
    pub merge_commit: Option<JsonValue>,
    pub potential_merge_commit: Option<JsonValue>,
    pub additions: u64,
    pub deletions: u64,
    pub commits: Vec<CommitDto>,
    pub status_check_rollup: Vec<CheckDto>,
    pub files: Vec<FileDto>,
    pub comments: Vec<CommentDto>,
    pub reviews: Vec<ReviewDto>,
}

/// What `gh issue view --json` prints for an issue.
#[derive(Debug, Clone, PartialEq, Eq)]
pub struct IssueView {
    pub number: u64,
    pub title: String,
    pub url: String,
    pub state: String,
    pub author: Option<UserDto>,
    pub created_at: String,
    pub updated_at: String,
    pub labels: Vec<LabelDto>,
    pub assignees: Vec<UserDto>,
    pub reaction_groups: Vec<ReactionGroupDto>,
    pub body: String,
    pub closed: bool,
    pub is_pinned: bool,
    pub state_reason: Option<String>,
    pub closed_at: Option<String>,
    pub milestone: Option<JsonValue>,
    pub project_items: Vec<JsonValue>,
    pub closed_by_pull_requests_references: Vec<RelatedResourceDto>,
    pub comments: Vec<CommentDto>,
}

} // verus!

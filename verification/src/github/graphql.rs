//! The GraphQL requests made through `gh api graphql`: the query texts,
//! the command lines that send them, and how a page of changed files says
//! whether another follows.
use vstd::prelude::*;

use crate::domain::resource::{strs, views, ChangedFile, ChangedFileView};
use crate::domain::resource_id::{IdView, ResourceId, ResourceKind};
use crate::github::dto::ChangedFilesResponse;
use crate::github::gh_cli::{changed_files_spec, files_from_dtos};
use crate::text::{decimal, push_str};

verus! {

/// The review threads of a pull request and their comments.
pub const REVIEW_THREADS_QUERY: &'static str = r#"
query($owner: String!, $name: String!, $number: Int!) {
  repository(owner: $owner, name: $name) {
    pullRequest(number: $number) {
      reviewThreads(first: 100) {
        nodes {
          id
          isResolved
          isOutdated
          path
          line
          comments(first: 100) {
            nodes {
              id
              author { login }
              authorAssociation
              body
              createdAt
              updatedAt
              url
              includesCreatedEdit
              isMinimized
              minimizedReason
              reactionGroups {
                content
                users { totalCount }
              }
              path
              line
            }
          }
        }
      }
    }
  }
}
"#;

/// One page of a pull request's changed files, after cursor `$after`.
pub const CHANGED_FILES_QUERY: &'static str = r#"
query($owner: String!, $name: String!, $number: Int!, $after: String) {
  repository(owner: $owner, name: $name) {
    pullRequest(number: $number) {
      files(first: 100, after: $after) {
        pageInfo {
          hasNextPage
          endCursor
        }
        nodes {
          path
          additions
          deletions
          changeType
        }
      }
    }
  }
}
"#;

/// The deployments of a pull request's last commits.
pub const COMMIT_DEPLOYMENTS_QUERY: &'static str = r#"
query($owner: String!, $name: String!, $number: Int!) {
  repository(owner: $owner, name: $name) {
    pullRequest(number: $number) {
      commits(last: 100) {
        nodes {
          commit {
            oid
            deployments(last: 10) {
              nodes {
                environment
                task
                description
                createdAt
                updatedAt
                latestStatus {
                  state
                  description
                  environmentUrl
                  logUrl
                  createdAt
                }
              }
            }
          }
        }
      }
    }
  }
}
"#;

/// The timeline query up to the field that selects the resource.
pub const TIMELINE_QUERY_HEAD: &'static str = r#"
query($owner: String!, $name: String!, $number: Int!) {
  repository(owner: $owner, name: $name) {
    "#;

/// The timeline query after the field that selects the resource.
pub const TIMELINE_QUERY_TAIL: &'static str = r#"(number: $number) {
      timelineItems(first: 100, itemTypes: [
        CLOSED_EVENT,
        REOPENED_EVENT,
        LABELED_EVENT,
        UNLABELED_EVENT,
        ASSIGNED_EVENT,
        UNASSIGNED_EVENT,
        REFERENCED_EVENT,
        CROSS_REFERENCED_EVENT,
        RENAMED_TITLE_EVENT,
        MILESTONED_EVENT,
        DEMILESTONED_EVENT
      ]) {
        nodes {
          __typename
          ... on ClosedEvent { id createdAt actor { login } closer { __typename } }
          ... on ReopenedEvent { id createdAt actor { login } }
          ... on LabeledEvent { id createdAt actor { login } label { name } }
          ... on UnlabeledEvent { id createdAt actor { login } label { name } }
          ... on AssignedEvent {
            id
            createdAt
            actor { login }
            assignee { __typename ... on User { login } }
          }
          ... on UnassignedEvent {
            id
            createdAt
            actor { login }
            assignee { __typename ... on User { login } }
          }
          ... on ReferencedEvent { id createdAt actor { login } commit { oid } }
          ... on CrossReferencedEvent {
            id
            createdAt
            actor { login }
            source {
              __typename
              ... on Issue { number title url repository { nameWithOwner } }
              ... on PullRequest { number title url repository { nameWithOwner } }
            }
          }
          ... on RenamedTitleEvent { id createdAt actor { login } previousTitle currentTitle }
          ... on MilestonedEvent { id createdAt actor { login } milestoneTitle }
          ... on DemilestonedEvent { id createdAt actor { login } milestoneTitle }
        }
      }
    }
  }
}
"#;

/// What each request is called in its error messages.
pub const REVIEW_THREADS_OPERATION: &'static str = "gh api graphql reviewThreads";
pub const CHANGED_FILES_OPERATION: &'static str = "gh api graphql changed files";
pub const TIMELINE_OPERATION: &'static str = "gh api graphql timeline";
pub const COMMIT_DEPLOYMENTS_OPERATION: &'static str = "gh api graphql commit deployments";

/// The field that selects a resource of kind `kind` in a repository.
pub open spec fn selector_spec(kind: ResourceKind) -> Seq<char> {
    match kind {
        ResourceKind::PullRequest => "pullRequest"@,
        ResourceKind::Issue => "issue"@,
    }
}

/// The timeline query for a resource of kind `kind`.
pub open spec fn timeline_query_spec(kind: ResourceKind) -> Seq<char> {
    TIMELINE_QUERY_HEAD@ + selector_spec(kind) + TIMELINE_QUERY_TAIL@
}

/// The timeline query for a resource of kind `kind` (see `timeline_query_spec`).
pub fn timeline_query(kind: ResourceKind) -> (q: String)
    ensures
        q@ == timeline_query_spec(kind),
{
    let mut q = crate::text::owned(TIMELINE_QUERY_HEAD);
    match kind {
        ResourceKind::PullRequest => push_str(&mut q, "pullRequest"),
        ResourceKind::Issue => push_str(&mut q, "issue"),
    }
    push_str(&mut q, TIMELINE_QUERY_TAIL);
    q
}

/// `gh api graphql` with the owner, name and number of `id` as variables,
/// then the given extra arguments, then the query.
pub open spec fn graphql_command_spec(id: IdView, extra: Seq<Seq<char>>, query: Seq<char>) -> Seq<Seq<char>> {
    seq!["gh"@, "api"@, "graphql"@, "-f"@, "owner="@ + id.owner, "-f"@, "name="@ + id.repo, "-F"@, "number="@ + decimal(id.number as nat)]
        + extra + seq!["-f"@, "query="@ + query]
}

fn prefixed(prefix: &str, value: &str) -> (s: String)
    ensures
        s@ == prefix@ + value@,
{
    let mut s = crate::text::owned(prefix);
    push_str(&mut s, value);
    s
}

fn graphql_command_with(id: &ResourceId, extra: Vec<String>, query: &str) -> (v: Vec<String>)
    ensures
        strs(v@) == graphql_command_spec(id@, strs(extra@), query@),
{
    let mut v: Vec<String> = Vec::new();
    v.push(crate::text::owned("gh"));
    v.push(crate::text::owned("api"));
    v.push(crate::text::owned("graphql"));
    v.push(crate::text::owned("-f"));
    v.push(prefixed("owner=", id.owner.as_str()));
    v.push(crate::text::owned("-f"));
    v.push(prefixed("name=", id.repo.as_str()));
    v.push(crate::text::owned("-F"));
    let mut n = crate::text::owned("number=");
    crate::text::push_u64(&mut n, id.number);
    v.push(n);
    let ghost head = strs(v@);
    let mut i: usize = 0;
    while i < extra.len()
        invariant
            i <= extra@.len(),
            strs(v@) == head + strs(extra@).take(i as int),
        decreases extra.len() - i,
    {
        let ghost prior = strs(v@);
        v.push(extra[i].clone());
        proof {
            assert(strs(v@) =~= prior.push(extra@[i as int]@));
            assert(strs(v@) =~= head + strs(extra@).take(i + 1));
        }
        i = i + 1;
    }
    let ghost mid = strs(v@);
    v.push(crate::text::owned("-f"));
    v.push(prefixed("query=", query));
    proof {
        assert(strs(extra@).take(extra@.len() as int) =~= strs(extra@));
        assert(strs(v@) =~= mid.push("-f"@).push("query="@ + query@));
        assert(strs(v@) =~= graphql_command_spec(id@, strs(extra@), query@));
    }
    v
}

/// The command that sends `query` for resource `id`.
pub fn graphql_command(id: &ResourceId, query: &str) -> (v: Vec<String>)
    ensures
        strs(v@) == graphql_command_spec(id@, Seq::empty(), query@),
{
    let extra: Vec<String> = Vec::new();
    proof {
        assert(strs(extra@) =~= Seq::<Seq<char>>::empty());
    }
    graphql_command_with(id, extra, query)
}

/// The command that asks for the page of changed files after cursor
/// `after` (from the start, `null`, when there is none).
pub fn changed_files_command(id: &ResourceId, after: Option<&str>) -> (v: Vec<String>)
    ensures
        strs(v@) == graphql_command_spec(
            id@,
            seq!["-F"@, "after="@ + match after {
                Some(a) => a@,
                None => "null"@,
            }],
            CHANGED_FILES_QUERY@,
        ),
{
    let mut extra: Vec<String> = Vec::new();
    extra.push(crate::text::owned("-F"));
    let cursor = match after {
        Some(a) => a,
        None => "null",
    };
    extra.push(prefixed("after=", cursor));
    proof {
        assert(strs(extra@) =~= seq!["-F"@, "after="@ + cursor@]);
    }
    graphql_command_with(id, extra, CHANGED_FILES_QUERY)
}

/// What follows a page of changed files.
#[derive(Debug, Clone, PartialEq, Eq)]
pub enum PageStep {
    /// This was the last page.
    Last,
    /// Another page follows, after this cursor.
    Next(String),
    /// The page says another follows but gives no cursor to it.
    MissingCursor,
}

/// The files of a page and what follows it: no pull request means no files
/// and no further page.
pub open spec fn page_step_spec(response: ChangedFilesResponse) -> PageStep {
    match response.data.repository {
        Some(repository) => match repository.pull_request {
            Some(pr) => if !pr.files.page_info.has_next_page {
                PageStep::Last
            } else {
                match pr.files.page_info.end_cursor {
                    Some(c) => PageStep::Next(c),
                    None => PageStep::MissingCursor,
                }
            },
            None => PageStep::Last,
        },
        None => PageStep::Last,
    }
}

/// The files of one page of the changed file list and what follows it
/// (see `changed_files_spec` and `page_step_spec`).
pub fn changed_files_page(response: ChangedFilesResponse) -> (r: (Vec<ChangedFile>, PageStep))
    ensures
        views(r.0@) == changed_files_spec(response),
        r.1 == page_step_spec(response),
{
    let ghost spec_step = page_step_spec(response);
    let ghost spec_files = changed_files_spec(response);
    match response.data.repository {
        Some(repository) => match repository.pull_request {
            Some(pr) => {
                let has_next = pr.files.page_info.has_next_page;
                let cursor = pr.files.page_info.end_cursor;
                let files = files_from_dtos(pr.files.nodes);
                let step = if !has_next {
                    PageStep::Last
                } else {
                    match cursor {
                        Some(c) => PageStep::Next(c),
                        None => PageStep::MissingCursor,
                    }
                };
                (files, step)
            },
            None => {
                let files: Vec<ChangedFile> = Vec::new();
                proof {
                    assert(views(files@) =~= spec_files);
                }
                (files, PageStep::Last)
            },
        },
        None => {
            let files: Vec<ChangedFile> = Vec::new();
            proof {
                assert(views(files@) =~= spec_files);
            }
            (files, PageStep::Last)
        },
    }
}

/// The message of a page that promises another without a cursor to it.
pub const MISSING_CURSOR_ERROR: &'static str = "changed files page reported next page without an end cursor";

} // verus!

//! The GraphQL mutations that carry out write actions on an issue or pull
//! request: the mutation text and its variables.
use vstd::prelude::*;

use crate::domain::action::{merge_method_graphql, MergeMethod, ResourceAction};
use crate::domain::resource_id::ResourceKind;

verus! {

/// Whether an action closes or reopens.
#[derive(Debug, Clone, Copy, PartialEq, Eq, Structural)]
pub enum StateChange {
    Close,
    Reopen,
}

pub open spec fn state_mutation_spec(kind: ResourceKind, change: StateChange) -> Seq<char> {
    match (kind, change) {
        (ResourceKind::Issue, StateChange::Close) => "mutation($id: ID!) { closeIssue(input: {issueId: $id}) { clientMutationId } }"@,
        (ResourceKind::Issue, StateChange::Reopen) => "mutation($id: ID!) { reopenIssue(input: {issueId: $id}) { clientMutationId } }"@,
        (ResourceKind::PullRequest, StateChange::Close) => "mutation($id: ID!) { closePullRequest(input: {pullRequestId: $id}) { clientMutationId } }"@,
        (ResourceKind::PullRequest, StateChange::Reopen) => "mutation($id: ID!) { reopenPullRequest(input: {pullRequestId: $id}) { clientMutationId } }"@,
    }
}

/// The mutation that closes or reopens a resource of kind `kind`.
pub fn state_mutation(kind: ResourceKind, change: StateChange) -> (m: &'static str)
    ensures
        m@ == state_mutation_spec(kind, change),
{
    match (kind, change) {
        (ResourceKind::Issue, StateChange::Close) => "mutation($id: ID!) { closeIssue(input: {issueId: $id}) { clientMutationId } }",
        (ResourceKind::Issue, StateChange::Reopen) => "mutation($id: ID!) { reopenIssue(input: {issueId: $id}) { clientMutationId } }",
        (ResourceKind::PullRequest, StateChange::Close) => "mutation($id: ID!) { closePullRequest(input: {pullRequestId: $id}) { clientMutationId } }",
        (ResourceKind::PullRequest, StateChange::Reopen) => "mutation($id: ID!) { reopenPullRequest(input: {pullRequestId: $id}) { clientMutationId } }",
    }
}

pub open spec fn comment_mutation() -> Seq<char> {
    "mutation($id: ID!, $body: String!) { addComment(input: {subjectId: $id, body: $body}) { clientMutationId } }"@
}

pub open spec fn merge_mutation() -> Seq<char> {
    "mutation($id: ID!, $method: PullRequestMergeMethod!) { mergePullRequest(input: {pullRequestId: $id, mergeMethod: $method}) { clientMutationId } }"@
}

pub open spec fn variables_view(v: Seq<(String, String)>) -> Seq<(Seq<char>, Seq<char>)> {
    v.map_values(|e: (String, String)| (e.0@, e.1@))
}

/// The mutation and its variables (names and string values) for `action`
/// on the resource with GraphQL node id `node_id`: a comment adds `body`,
/// close and reopen pick the mutation of the resource's kind, a merge
/// carries its method in capitals. An edit has no mutation here.
pub open spec fn action_mutation_spec(node_id: Seq<char>, kind: ResourceKind, action: ResourceAction)
    -> Option<(Seq<char>, Seq<(Seq<char>, Seq<char>)>)> {
    match action {
        ResourceAction::Comment { body } => Some((comment_mutation(), seq![("id"@, node_id), ("body"@, body@)])),
        ResourceAction::Close => Some((state_mutation_spec(kind, StateChange::Close), seq![("id"@, node_id)])),
        ResourceAction::Reopen => Some((state_mutation_spec(kind, StateChange::Reopen), seq![("id"@, node_id)])),
        ResourceAction::Merge { method } => Some((merge_mutation(), seq![("id"@, node_id), ("method"@, merge_method_graphql(method))])),
        ResourceAction::Edit { .. } => None,
    }
}

fn id_variables(node_id: &str) -> (v: Vec<(String, String)>)
    ensures
        variables_view(v@) == seq![("id"@, node_id@)],
{
    let mut v: Vec<(String, String)> = Vec::new();
    v.push((crate::text::owned("id"), crate::text::owned(node_id)));
    proof {
        assert(variables_view(v@) =~= seq![("id"@, node_id@)]);
    }
    v
}

/// The mutation for `action` (see `action_mutation_spec`).
pub fn action_mutation(node_id: &str, kind: ResourceKind, action: &ResourceAction) -> (r: Option<(&'static str, Vec<(String, String)>)>)
    ensures
        match action_mutation_spec(node_id@, kind, *action) {
            Some((m, vars)) => match r {
                Some((rm, rv)) => rm@ == m && variables_view(rv@) == vars,
                None => false,
            },
            None => r is None,
        },
{
    match action {
        ResourceAction::Comment { body } => {
            let mut v = id_variables(node_id);
            let ghost before = variables_view(v@);
            v.push((crate::text::owned("body"), body.clone()));
            proof {
                assert(variables_view(v@) =~= before.push(("body"@, body@)));
            }
            Some((
                "mutation($id: ID!, $body: String!) { addComment(input: {subjectId: $id, body: $body}) { clientMutationId } }",
                v,
            ))
        },
        ResourceAction::Close => Some((state_mutation(kind, StateChange::Close), id_variables(node_id))),
        ResourceAction::Reopen => Some((state_mutation(kind, StateChange::Reopen), id_variables(node_id))),
        ResourceAction::Merge { method } => {
            let mut v = id_variables(node_id);
            let ghost before = variables_view(v@);
            v.push((crate::text::owned("method"), crate::text::owned(method.graphql_value())));
            proof {
                assert(variables_view(v@) =~= before.push(("method"@, merge_method_graphql(*method))));
            }
            Some((
                "mutation($id: ID!, $method: PullRequestMergeMethod!) { mergePullRequest(input: {pullRequestId: $id, mergeMethod: $method}) { clientMutationId } }",
                v,
            ))
        },
        ResourceAction::Edit { .. } => None,
    }
}

} // verus!

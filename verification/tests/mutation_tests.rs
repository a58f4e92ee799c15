use ghzinga::domain::{MergeMethod, ResourceAction, ResourceKind};
use ghzinga::github::mutations::action_mutation;

fn var<'a>(vars: &'a [(String, String)], name: &str) -> &'a str {
    vars.iter()
        .find(|(n, _)| n == name)
        .map(|(_, v)| v.as_str())
        .expect("variable")
}

#[test]
fn comment_mutation_targets_subject_with_body() {
    let (mutation, variables) = action_mutation(
        "PR_node",
        ResourceKind::PullRequest,
        &ResourceAction::Comment {
            body: "hello\nworld".into(),
        },
    )
    .expect("mutation");
    assert!(mutation.contains("addComment"));
    assert_eq!(var(&variables, "id"), "PR_node");
    assert_eq!(var(&variables, "body"), "hello\nworld");
}

#[test]
fn close_and_reopen_pick_the_kind_specific_mutation() {
    let cases = [
        (ResourceKind::Issue, ResourceAction::Close, "closeIssue"),
        (ResourceKind::Issue, ResourceAction::Reopen, "reopenIssue"),
        (
            ResourceKind::PullRequest,
            ResourceAction::Close,
            "closePullRequest",
        ),
        (
            ResourceKind::PullRequest,
            ResourceAction::Reopen,
            "reopenPullRequest",
        ),
    ];
    for (kind, action, expected) in cases {
        let (mutation, variables) = action_mutation("node", kind, &action).expect("mutation");
        assert!(
            mutation.contains(expected),
            "expected {expected} for {kind:?} {action:?}"
        );
        assert_eq!(var(&variables, "id"), "node");
    }
}

#[test]
fn merge_mutation_carries_uppercase_method() {
    let (mutation, variables) = action_mutation(
        "PR_node",
        ResourceKind::PullRequest,
        &ResourceAction::Merge {
            method: MergeMethod::Squash,
        },
    )
    .expect("mutation");
    assert!(mutation.contains("mergePullRequest"));
    assert!(mutation.contains("PullRequestMergeMethod"));
    assert_eq!(var(&variables, "method"), "SQUASH");
}

#[test]
fn close_carries_only_the_node_id() {
    let (_, variables) =
        action_mutation("I_node", ResourceKind::Issue, &ResourceAction::Close).expect("mutation");
    assert_eq!(variables, vec![("id".to_string(), "I_node".to_string())]);
}

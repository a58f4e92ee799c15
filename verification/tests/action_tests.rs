use ghzinga::domain::{
    available_actions, body_edit_target, editable_targets, ActionContext, ActionKind,
    ActivityEntry, ActivityKind, ChangedFile, EditKind, EditTarget, MergeMethod, PullRequest,
    ReactionCounts, Resource, ResourceAction, ResourceId, ResourceKind,
};

fn issue_resource(number: u64, title: &str) -> Resource {
    Resource {
        id: ResourceId {
            owner: "openclaw".into(),
            repo: "openclaw".into(),
            number,
            kind_hint: Some(ResourceKind::Issue),
        },
        title: title.into(),
        url: format!("https://github.com/openclaw/openclaw/issues/{number}"),
        state: "OPEN".into(),
        author: "alice".into(),
        created_at: "2026-01-01T00:00:00Z".into(),
        updated_at: "2026-01-01T00:00:00Z".into(),
        labels: Vec::new(),
        assignees: Vec::new(),
        reactions: ReactionCounts::default(),
        body: "Issue body".into(),
        activity: Vec::new(),
        related_resources: Vec::new(),
        metadata: Vec::new(),
        warnings: Vec::new(),
        pull_request: None,
        actions: ActionContext::default(),
    }
}

fn pr_resource_with_patch(patch: Option<&str>) -> Resource {
    let mut resource = issue_resource(81834, "Pull request");
    resource.id.kind_hint = Some(ResourceKind::PullRequest);
    resource.url = "https://github.com/openclaw/openclaw/pull/81834".into();
    resource.pull_request = Some(PullRequest {
        base_ref: "main".into(),
        head_ref: "topic".into(),
        requested_reviewers: Vec::new(),
        review_decision: None,
        merge_state: None,
        additions: 1,
        deletions: 0,
        commits: Vec::new(),
        checks: Vec::new(),
        files: vec![ChangedFile {
            path: "src/lib.rs".into(),
            additions: 1,
            deletions: 0,
            change_type: "MODIFIED".into(),
            patch: patch.map(str::to_string),
        }],
        metadata: Vec::new(),
        allowed_merge_methods: Vec::new(),
    });
    resource
}

fn actionable_issue() -> Resource {
    let mut resource = issue_resource(7, "Actionable issue");
    resource.actions.node_id = "I_node".into();
    resource.actions.viewer_can_update = true;
    resource.pull_request = None;
    resource
}

fn actionable_pr() -> Resource {
    let mut resource = pr_resource_with_patch(None);
    resource.actions.node_id = "PR_node".into();
    resource.actions.viewer_can_update = true;
    resource
        .pull_request
        .as_mut()
        .expect("pr fixture has pull request data")
        .allowed_merge_methods = vec![MergeMethod::Squash, MergeMethod::Rebase];
    resource
}

#[test]
fn no_actions_without_node_id() {
    let mut resource = actionable_issue();
    resource.actions.node_id = String::new();
    assert!(available_actions(&resource).is_empty());
}

#[test]
fn open_issue_offers_comment_edit_and_close() {
    let resource = actionable_issue();
    assert_eq!(
        available_actions(&resource),
        vec![ActionKind::Comment, ActionKind::Edit, ActionKind::Close]
    );
}

#[test]
fn closed_issue_offers_comment_and_reopen() {
    let mut resource = actionable_issue();
    resource.state = "CLOSED".into();
    assert_eq!(
        available_actions(&resource),
        vec![ActionKind::Comment, ActionKind::Edit, ActionKind::Reopen]
    );
}

#[test]
fn open_pr_offers_comment_edit_merge_and_close() {
    let resource = actionable_pr();
    assert_eq!(
        available_actions(&resource),
        vec![ActionKind::Comment, ActionKind::Edit, ActionKind::Merge, ActionKind::Close]
    );
}

#[test]
fn merged_pr_offers_only_comment() {
    let mut resource = actionable_pr();
    resource.state = "MERGED".into();
    assert_eq!(available_actions(&resource), vec![ActionKind::Comment, ActionKind::Edit]);
}

#[test]
fn pr_without_allowed_methods_hides_merge() {
    let mut resource = actionable_pr();
    resource.pull_request.as_mut().unwrap().allowed_merge_methods = Vec::new();
    assert_eq!(
        available_actions(&resource),
        vec![ActionKind::Comment, ActionKind::Edit, ActionKind::Close]
    );
}

#[test]
fn locked_resource_hides_comment() {
    let mut resource = actionable_issue();
    resource.actions.locked = true;
    assert_eq!(available_actions(&resource), vec![ActionKind::Edit, ActionKind::Close]);
}

#[test]
fn without_update_permission_only_comment_remains() {
    let mut resource = actionable_pr();
    resource.actions.viewer_can_update = false;
    assert_eq!(available_actions(&resource), vec![ActionKind::Comment]);
}

#[test]
fn merge_method_graphql_values_are_uppercase() {
    assert_eq!(MergeMethod::Merge.graphql_value(), "MERGE");
    assert_eq!(MergeMethod::Squash.graphql_value(), "SQUASH");
    assert_eq!(MergeMethod::Rebase.graphql_value(), "REBASE");
}

#[test]
fn action_labels_cover_all_variants() {
    let merge = ResourceAction::Merge { method: MergeMethod::Squash };
    assert_eq!(merge.progress_label(), "merging");
    assert_eq!(merge.success_label(), "merged");
    let comment = ResourceAction::Comment { body: "hi".into() };
    assert_eq!(comment.progress_label(), "commenting");
    assert_eq!(comment.success_label(), "comment posted");
}

#[test]
fn body_edit_target_requires_permission() {
    let mut resource = actionable_issue();
    let target = body_edit_target(&resource).expect("editable body");
    assert_eq!(target.kind, EditKind::IssueBody);
    assert_eq!(target.node_id, "I_node");
    assert_eq!(target.current_body, resource.body);
    resource.actions.viewer_can_update = false;
    assert!(body_edit_target(&resource).is_none());
}

#[test]
fn editable_targets_list_description_then_entries() {
    let mut resource = actionable_issue();
    let comment_target = EditTarget {
        node_id: "IC_1".into(),
        kind: EditKind::IssueComment,
        current_body: "a comment".into(),
    };
    resource.activity.push(ActivityEntry {
        id: "IC_1".into(),
        edit: Some(comment_target.clone()),
        kind: ActivityKind::Comment,
        author: "bob".into(),
        body: "a comment".into(),
        updated_at: "now".into(),
        path: None,
        line: None,
        url: None,
        author_association: None,
        reactions: Default::default(),
        includes_created_edit: false,
        is_minimized: false,
        minimized_reason: None,
        thread_id: None,
        thread_resolved: None,
        thread_outdated: None,
    });
    let targets = editable_targets(&resource);
    assert_eq!(targets.len(), 2);
    assert_eq!(targets[0].kind, EditKind::IssueBody);
    assert_eq!(targets[1], comment_target);
}

#[test]
fn draft_body_exists_only_for_text_actions() {
    assert_eq!(ResourceAction::Comment { body: "x".into() }.draft_body(), Some("x"));
    let edit = ResourceAction::Edit {
        target: EditTarget {
            node_id: "n".into(),
            kind: EditKind::IssueComment,
            current_body: "old".into(),
        },
        body: "new".into(),
    };
    assert_eq!(edit.draft_body(), Some("new"));
    assert_eq!(edit.progress_label(), "saving edit");
    assert_eq!(edit.success_label(), "edit saved");
    assert_eq!(ResourceAction::Close.draft_body(), None);
}

#[test]
fn pr_body_edit_target_uses_pull_request_kind() {
    let resource = actionable_pr();
    assert_eq!(body_edit_target(&resource).unwrap().kind, EditKind::PullRequestBody);
}

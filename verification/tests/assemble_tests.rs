use ghzinga::domain::{
    ActionContext, ActivityEntry, ActivityKind, ChangedFile, PullRequest, ReactionCounts, Resource,
    ResourceId, ResourceKind,
};
use ghzinga::github::assemble::{assemble_issue, assemble_pr};

fn entry(id: &str, at: &str) -> ActivityEntry {
    ActivityEntry {
        id: id.into(),
        kind: ActivityKind::Comment,
        author: "alice".into(),
        body: "comment".into(),
        updated_at: at.into(),
        path: None,
        line: None,
        url: None,
        author_association: None,
        reactions: ReactionCounts::default(),
        includes_created_edit: false,
        is_minimized: false,
        minimized_reason: None,
        thread_id: None,
        thread_resolved: None,
        thread_outdated: None,
        edit: None,
    }
}

fn resource(pr: bool) -> Resource {
    Resource {
        id: ResourceId {
            owner: "owner".into(),
            repo: "repo".into(),
            number: 7,
            kind_hint: Some(if pr { ResourceKind::PullRequest } else { ResourceKind::Issue }),
        },
        title: "Title".into(),
        url: "https://github.com/owner/repo/issues/7".into(),
        state: "OPEN".into(),
        author: "alice".into(),
        created_at: "2026-01-01T00:00:00Z".into(),
        updated_at: "2026-01-01T00:00:00Z".into(),
        labels: vec![],
        assignees: vec![],
        reactions: ReactionCounts::default(),
        body: "Body".into(),
        activity: vec![entry("c2", "2026-01-03T00:00:00Z")],
        related_resources: vec![],
        metadata: vec![],
        warnings: vec![],
        pull_request: if pr {
            Some(PullRequest {
                base_ref: "main".into(),
                head_ref: "topic".into(),
                requested_reviewers: vec![],
                review_decision: None,
                merge_state: None,
                additions: 1,
                deletions: 0,
                commits: vec![],
                checks: vec![],
                files: vec![],
                metadata: vec![],
                allowed_merge_methods: vec![],
            })
        } else {
            None
        },
        actions: ActionContext::default(),
    }
}

#[test]
fn issue_timeline_joins_the_feed_in_time_order() {
    let r = assemble_issue(resource(false), Ok(vec![entry("t1", "2026-01-02T00:00:00Z")]));
    let ids: Vec<&str> = r.activity.iter().map(|e| e.id.as_str()).collect();
    assert_eq!(ids, vec!["t1", "c2"]);
    assert!(r.warnings.is_empty());
}

#[test]
fn failed_issue_timeline_leaves_a_warning() {
    let r = assemble_issue(resource(false), Err("HTTP 502".into()));
    assert_eq!(r.activity.len(), 1);
    assert_eq!(r.warnings, vec!["timeline unavailable: HTTP 502".to_string()]);
}

#[test]
fn pull_request_parts_are_merged_with_warnings_in_order() {
    let files = vec![ChangedFile {
        path: "src/lib.rs".into(),
        additions: 1,
        deletions: 0,
        change_type: "MODIFIED".into(),
        patch: None,
    }];
    let r = assemble_pr(
        resource(true),
        Err("threads down".into()),
        Ok(vec![entry("t0", "2026-01-01T00:00:00Z")]),
        Ok(files),
        Ok(vec![("src/lib.rs".into(), "@@ -1 +1 @@".into())]),
        Err("deployments down".into()),
    );
    let ids: Vec<&str> = r.activity.iter().map(|e| e.id.as_str()).collect();
    assert_eq!(ids, vec!["t0", "c2"]);
    let pr = r.pull_request.as_ref().unwrap();
    assert_eq!(pr.files.len(), 1);
    assert_eq!(pr.files[0].patch.as_deref(), Some("@@ -1 +1 @@"));
    assert_eq!(
        r.warnings,
        vec![
            "review threads unavailable: threads down".to_string(),
            "commit deployments unavailable: deployments down".to_string(),
        ]
    );
}

#[test]
fn failed_file_list_keeps_the_files_from_the_view() {
    let mut base = resource(true);
    base.pull_request.as_mut().unwrap().files.push(ChangedFile {
        path: "a.rs".into(),
        additions: 0,
        deletions: 0,
        change_type: "ADDED".into(),
        patch: None,
    });
    let r = assemble_pr(
        base,
        Ok(vec![]),
        Ok(vec![]),
        Err("gone".into()),
        Err("no diff".into()),
        Ok(vec![]),
    );
    let pr = r.pull_request.as_ref().unwrap();
    assert_eq!(pr.files.len(), 1);
    assert_eq!(
        r.warnings,
        vec![
            "full changed file list unavailable: gone".to_string(),
            "file patch context unavailable: no diff".to_string(),
        ]
    );
}

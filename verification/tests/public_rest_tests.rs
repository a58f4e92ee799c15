use ghzinga::domain::{ResourceId, ResourceKind};
use ghzinga::github::public_rest::{
    display_rest_author, next_page, public_rest_issue_resource, public_rest_page_path,
    public_rest_pr_resource, rest_commit, rest_file, rest_path, RestCommitDto,
    RestCommitInnerDto, RestCommitPersonDto, RestFileDto, RestIssueDto, RestPullDto,
    RestReactionsDto, RestRefDto, RestUserDto,
};

fn id(number: u64) -> ResourceId {
    ResourceId {
        owner: "openclaw".into(),
        repo: "openclaw".into(),
        number,
        kind_hint: None,
    }
}

fn user(login: &str) -> Option<RestUserDto> {
    Some(RestUserDto { login: Some(login.into()) })
}

fn issue() -> RestIssueDto {
    RestIssueDto {
        number: 88499,
        title: "REST fallback issue".into(),
        html_url: "https://github.com/openclaw/openclaw/issues/88499".into(),
        state: "open".into(),
        user: user("alice"),
        created_at: "2026-01-01T00:00:00Z".into(),
        updated_at: "2026-01-02T00:00:00Z".into(),
        labels: Vec::new(),
        assignees: Vec::new(),
        reactions: RestReactionsDto::default(),
        body: Some("Issue body".into()),
        closed_at: None,
        state_reason: None,
        locked: false,
        active_lock_reason: None,
        milestone: None,
    }
}

fn pull() -> RestPullDto {
    RestPullDto {
        title: "REST fallback pull".into(),
        html_url: "https://github.com/openclaw/openclaw/pull/81834".into(),
        state: "open".into(),
        user: user("bob"),
        created_at: "2026-02-01T00:00:00Z".into(),
        updated_at: "2026-02-02T00:00:00Z".into(),
        base: Some(RestRefDto { reference: "main".into() }),
        head: Some(RestRefDto { reference: "feature".into() }),
        requested_reviewers: vec![RestUserDto { login: Some("carol".into()) }],
        mergeable: Some(false),
        additions: Some(7),
        deletions: None,
        changed_files: Some(1),
        draft: false,
        merged_at: None,
        merge_commit_sha: None,
    }
}

#[test]
fn page_path_adds_query_with_the_right_separator() {
    assert_eq!(
        public_rest_page_path("/repos/o/r/issues/1/comments", 2),
        "/repos/o/r/issues/1/comments?per_page=100&page=2"
    );
    assert_eq!(
        public_rest_page_path("/repos/o/r/pulls/1/files?x=1", 1),
        "/repos/o/r/pulls/1/files?x=1&per_page=100&page=1"
    );
}

#[test]
fn paging_stops_at_a_short_page() {
    assert_eq!(next_page(1, 100), Some(2));
    assert_eq!(next_page(3, 99), None);
    assert_eq!(next_page(1, 0), None);
}

#[test]
fn rest_paths_name_the_collection_and_number() {
    assert_eq!(rest_path(&id(81834), "pulls", ""), "/repos/openclaw/openclaw/pulls/81834");
    assert_eq!(
        rest_path(&id(88499), "issues", "/comments"),
        "/repos/openclaw/openclaw/issues/88499/comments"
    );
}

#[test]
fn rest_author_falls_back_to_unknown() {
    assert_eq!(display_rest_author(user("alice")), "alice");
    assert_eq!(display_rest_author(user("")), "unknown");
    assert_eq!(display_rest_author(Some(RestUserDto { login: None })), "unknown");
    assert_eq!(display_rest_author(None), "unknown");
}

#[test]
fn rest_commit_splits_headline_and_body() {
    let commit = rest_commit(RestCommitDto {
        sha: "abc123".into(),
        commit: RestCommitInnerDto {
            message: "Fix the thing\n\n  Longer explanation\nsecond line  \n".into(),
            author: Some(RestCommitPersonDto {
                name: Some("Alice Example".into()),
                date: Some("2026-01-01T00:00:00Z".into()),
            }),
            committer: None,
        },
        author: None,
    });
    assert_eq!(commit.oid, "abc123");
    assert_eq!(commit.message, "Fix the thing");
    assert_eq!(commit.body, "Longer explanation\nsecond line");
    assert_eq!(commit.author, "Alice Example");
    assert_eq!(commit.authors, vec!["Alice Example".to_string()]);
    assert_eq!(commit.authored_at.as_deref(), Some("2026-01-01T00:00:00Z"));
    assert_eq!(commit.committed_at, "2026-01-01T00:00:00Z");
}

#[test]
fn rest_commit_prefers_login_and_committer_date() {
    let commit = rest_commit(RestCommitDto {
        sha: "def456".into(),
        commit: RestCommitInnerDto {
            message: "One line".into(),
            author: None,
            committer: Some(RestCommitPersonDto {
                name: None,
                date: Some("2026-03-03T00:00:00Z".into()),
            }),
        },
        author: user("bob"),
    });
    assert_eq!(commit.message, "One line");
    assert_eq!(commit.body, "");
    assert_eq!(commit.author, "bob");
    assert_eq!(commit.authored_at, None);
    assert_eq!(commit.committed_at, "2026-03-03T00:00:00Z");
}

#[test]
fn rest_file_upper_cases_status() {
    let file = rest_file(RestFileDto {
        filename: "src/lib.rs".into(),
        additions: 3,
        deletions: 1,
        status: "modified".into(),
        patch: Some("@@ -1 +1 @@".into()),
    });
    assert_eq!(file.path, "src/lib.rs");
    assert_eq!(file.change_type, "MODIFIED");
    assert_eq!(file.additions, 3);
    assert_eq!(file.patch.as_deref(), Some("@@ -1 +1 @@"));
}

#[test]
fn public_rest_issue_warns_about_fallback_and_failed_comments() {
    let resource =
        public_rest_issue_resource(&id(88499), issue(), Err("HTTP 403".into()), "no token");
    assert_eq!(resource.title, "REST fallback issue");
    assert_eq!(resource.state, "OPEN");
    assert!(resource.activity.is_empty());
    assert_eq!(resource.warnings.len(), 3);
    assert_eq!(
        resource.warnings[0],
        "using public REST fallback because no GitHub token is available: no token"
    );
    assert_eq!(resource.warnings[1], "public comments unavailable: HTTP 403");
    assert!(resource.warnings[2].starts_with("public REST fallback omits GraphQL-only enrichment"));
}

#[test]
fn public_rest_pr_uses_pull_fields_and_lists_missing_parts() {
    let resource = public_rest_pr_resource(
        &id(81834),
        pull(),
        issue(),
        Ok(Vec::new()),
        Err("timeout".into()),
        Ok(Vec::new()),
        "no token",
    );
    assert_eq!(resource.id.kind_hint, Some(ResourceKind::PullRequest));
    assert_eq!(resource.title, "REST fallback pull");
    assert_eq!(resource.author, "bob");
    let pr = resource.pull_request.as_ref().expect("pull request");
    assert_eq!(pr.base_ref, "main");
    assert_eq!(pr.head_ref, "feature");
    assert_eq!(pr.requested_reviewers, vec!["carol".to_string()]);
    assert_eq!(pr.merge_state.as_deref(), Some("CONFLICTING"));
    assert_eq!(pr.additions, 7);
    assert_eq!(pr.deletions, 0);
    assert!(pr.checks.is_empty());
    assert_eq!(resource.warnings.len(), 3);
    assert_eq!(resource.warnings[1], "public commit list unavailable: timeout");
    assert!(resource.warnings[2].contains("check suites"));
}

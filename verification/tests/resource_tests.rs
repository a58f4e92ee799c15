use ghzinga::domain::{
    ActionContext, ActivityEntry, ActivityKind, ChangedFile, CheckRun, CheckStatus, PullRequest,
    ReactionCounts, Resource, ResourceId, ResourceIdError, ResourceKind, FULL_DEPTH_WARNING_HINT,
};

fn empty_pr() -> PullRequest {
    PullRequest {
        base_ref: "main".into(),
        head_ref: "topic".into(),
        requested_reviewers: Vec::new(),
        review_decision: None,
        merge_state: None,
        additions: 0,
        deletions: 0,
        commits: Vec::new(),
        checks: Vec::new(),
        files: Vec::new(),
        metadata: Vec::new(),
        allowed_merge_methods: Vec::new(),
    }
}

fn base_resource(id: ResourceId, url: &str) -> Resource {
    Resource {
        id,
        title: "title".into(),
        url: url.into(),
        state: "OPEN".into(),
        author: "alice".into(),
        created_at: "created".into(),
        updated_at: "updated".into(),
        labels: Vec::new(),
        assignees: Vec::new(),
        reactions: ReactionCounts::default(),
        body: "body".into(),
        activity: Vec::new(),
        related_resources: Vec::new(),
        metadata: Vec::new(),
        warnings: Vec::new(),
        pull_request: None,
        actions: ActionContext::default(),
    }
}

fn comment(id: &str, body: &str) -> ActivityEntry {
    ActivityEntry {
        id: id.into(),
        kind: ActivityKind::Comment,
        author: "bob".into(),
        body: body.into(),
        updated_at: "time".into(),
        path: None,
        line: None,
        url: None,
        author_association: None,
        reactions: ReactionCounts::default(),
        includes_created_edit: false,
        is_minimized: false,
        minimized_reason: None,
        thread_id: None,
        thread_resolved: None,
        thread_outdated: None,
        edit: None,
    }
}

#[test]
fn parses_pull_request_url() {
    let id = ResourceId::parse("https://github.com/openclaw/openclaw/pull/81834").unwrap();

    assert_eq!(id.owner, "openclaw");
    assert_eq!(id.repo, "openclaw");
    assert_eq!(id.number, 81834);
    assert_eq!(id.kind_hint, Some(ResourceKind::PullRequest));
}

#[test]
fn parses_issue_url_with_query() {
    let id = ResourceId::parse("https://github.com/openclaw/openclaw/issues/42#comment").unwrap();

    assert_eq!(id.canonical_name(), "openclaw/openclaw#42");
    assert_eq!(id.kind_hint, Some(ResourceKind::Issue));
}

#[test]
fn parses_owner_repo_hash() {
    let id = ResourceId::parse("openclaw/openclaw#81834").unwrap();

    assert_eq!(id.repo_name_with_owner(), "openclaw/openclaw");
    assert_eq!(id.number, 81834);
    assert_eq!(id.kind_hint, None);
}

#[test]
fn parses_owner_repo_number_args() {
    let id = ResourceId::from_owner_repo_number("openclaw/openclaw", "81834").unwrap();

    assert_eq!(id.canonical_name(), "openclaw/openclaw#81834");
}

#[test]
fn parses_relative_numbers_with_repo_context() {
    let id = ResourceId::parse_with_repo_context("81834", Some("openclaw/openclaw")).unwrap();

    assert_eq!(id.canonical_name(), "openclaw/openclaw#81834");
    assert_eq!(id.kind_hint, None);

    let hash_id = ResourceId::parse_with_repo_context("#88499", Some("openclaw/openclaw")).unwrap();

    assert_eq!(hash_id.canonical_name(), "openclaw/openclaw#88499");
}

#[test]
fn rejects_relative_numbers_without_repo_context() {
    assert_eq!(
        ResourceId::parse_with_repo_context("81834", None).unwrap_err(),
        ResourceIdError::Invalid
    );
}

#[test]
fn rejects_zero_number() {
    assert_eq!(
        ResourceId::parse("openclaw/openclaw#0").unwrap_err(),
        ResourceIdError::InvalidNumber
    );
}

#[test]
fn builds_relative_resource_ids() {
    let id = ResourceId::relative_to_repo("openclaw", "openclaw", "66943").unwrap();

    assert_eq!(id.canonical_name(), "openclaw/openclaw#66943");
}

#[test]
fn builds_kind_aware_web_urls() {
    let pr = ResourceId {
        owner: "openclaw".into(),
        repo: "openclaw".into(),
        number: 81834,
        kind_hint: Some(ResourceKind::PullRequest),
    };
    let issue = ResourceId {
        owner: "openclaw".into(),
        repo: "openclaw".into(),
        number: 88499,
        kind_hint: Some(ResourceKind::Issue),
    };
    let unknown = ResourceId {
        owner: "openclaw".into(),
        repo: "openclaw".into(),
        number: 88499,
        kind_hint: None,
    };

    assert_eq!(pr.web_url(), "https://github.com/openclaw/openclaw/pull/81834");
    assert_eq!(issue.web_url(), "https://github.com/openclaw/openclaw/issues/88499");
    assert_eq!(unknown.web_url(), "https://github.com/openclaw/openclaw/issues/88499");
}

#[test]
fn resource_web_url_ignores_non_github_url_values() {
    let mut resource = base_resource(
        ResourceId {
            owner: "huggingface".into(),
            repo: "huggingface.js".into(),
            number: 2185,
            kind_hint: Some(ResourceKind::PullRequest),
        },
        "http://huggingface/huggingface.js#2185",
    );
    resource.pull_request = Some(empty_pr());

    assert_eq!(resource.web_url(), "https://github.com/huggingface/huggingface.js/pull/2185");

    resource.url = " https://github.com/huggingface/huggingface.js/pull/2185 ".into();
    assert_eq!(resource.web_url(), "https://github.com/huggingface/huggingface.js/pull/2185");
}

#[test]
fn fingerprint_changes_when_activity_content_or_metadata_changes() {
    let id = ResourceId::from_owner_repo_number("openclaw/openclaw", "1").unwrap();
    let mut resource = base_resource(id, "https://github.com/openclaw/openclaw/issues/1");
    resource.activity = vec![comment("comment", "before")];
    let before = resource.fingerprint();

    resource.activity[0].body = "after".into();
    let after_body = resource.fingerprint();

    assert_ne!(before, after_body);

    resource.activity[0].body = "before".into();
    resource.activity[0].reactions.eyes = 1;

    assert_ne!(before, resource.fingerprint());
}

#[test]
fn detects_partial_depth_warning_marker() {
    let id = ResourceId::from_owner_repo_number("openclaw/openclaw", "1").unwrap();
    let mut resource = base_resource(id, "https://github.com/openclaw/openclaw/issues/1");

    assert!(!resource.has_partial_depth_warning());

    resource.warnings.push(format!(
        "normal API depth shows the first 100 only for comments; {FULL_DEPTH_WARNING_HINT} for exhaustive pagination"
    ));

    assert!(resource.has_partial_depth_warning());
}

#[test]
fn maps_github_check_states_and_conclusions() {
    assert_eq!(
        CheckStatus::from_github(Some("completed"), Some("success")),
        CheckStatus::Success
    );
    assert_eq!(
        CheckStatus::from_github(Some("COMPLETED"), Some("CANCELLED")),
        CheckStatus::Skipped
    );
    assert_eq!(
        CheckStatus::from_github(Some("COMPLETED"), Some("ACTION_REQUIRED")),
        CheckStatus::Pending
    );
    assert_eq!(CheckStatus::from_github(Some("failure"), None), CheckStatus::Failure);
}

#[test]
fn url_with_trailing_path_and_whitespace_is_accepted() {
    let id = ResourceId::parse("  https://github.com/o/r/pull/7/files \n").unwrap();
    assert_eq!(id.canonical_name(), "o/r#7");
    assert_eq!(id.kind_hint, Some(ResourceKind::PullRequest));
}

#[test]
fn url_number_overflow_is_invalid() {
    assert_eq!(
        ResourceId::parse("https://github.com/o/r/issues/99999999999999999999").unwrap_err(),
        ResourceIdError::Invalid
    );
}

#[test]
fn owner_repo_number_rejects_missing_parts_and_reads_number_first() {
    assert_eq!(ResourceId::from_owner_repo_number("owner", "1").unwrap_err(), ResourceIdError::Invalid);
    assert_eq!(ResourceId::from_owner_repo_number("/repo", "0").unwrap_err(), ResourceIdError::InvalidNumber);
    assert_eq!(ResourceId::from_owner_repo_number("/repo", "1").unwrap_err(), ResourceIdError::Invalid);
    assert_eq!(ResourceId::from_owner_repo_number("a/b/c", "+5").unwrap().repo, "b/c");
}

#[test]
fn blank_and_malformed_references_are_invalid() {
    assert_eq!(ResourceId::parse("   ").unwrap_err(), ResourceIdError::Invalid);
    assert_eq!(ResourceId::parse("owner/repo#12x").unwrap_err(), ResourceIdError::Invalid);
    assert_eq!(ResourceId::parse("https://github.com/o/r/commits/1").unwrap_err(), ResourceIdError::Invalid);
    assert_eq!(ResourceId::parse("https://github.com/o/r/pull/1x").unwrap_err(), ResourceIdError::Invalid);
}

#[test]
fn changed_sections_list_summary_and_kind_changes() {
    let id = ResourceId::from_owner_repo_number("o/r", "1").unwrap();
    let a = base_resource(id.clone(), "u");
    let mut b = a.clone();
    assert!(a.changed_sections(&b).is_empty());
    b.body = "new body".into();
    b.pull_request = Some(empty_pr());
    assert_eq!(a.changed_sections(&b), vec!["summary".to_string(), "kind".to_string()]);
}

#[test]
fn check_counts_count_each_status() {
    let mut pr = empty_pr();
    for status in [CheckStatus::Success, CheckStatus::Failure, CheckStatus::Success, CheckStatus::Unknown] {
        pr.checks.push(CheckRun {
            name: "c".into(),
            status,
            summary: None,
            details_url: None,
            started_at: None,
            completed_at: None,
            raw_status: None,
            raw_conclusion: None,
        });
    }
    let counts = pr.check_counts();
    assert_eq!(counts.success, 2);
    assert_eq!(counts.failure, 1);
    assert_eq!(counts.unknown, 1);
    assert_eq!(counts.total(), 4);
}

#[test]
fn merging_patch_context_fills_files_and_warnings_once() {
    let id = ResourceId::from_owner_repo_number("o/r", "1").unwrap();
    let mut target = base_resource(id.clone(), "u");
    let mut pr = empty_pr();
    pr.files.push(ChangedFile {
        path: "src/lib.rs".into(),
        additions: 1,
        deletions: 0,
        change_type: "MODIFIED".into(),
        patch: None,
    });
    target.pull_request = Some(pr.clone());
    let mut source = base_resource(id, "u");
    let mut patched = pr;
    patched.files[0].patch = Some("@@ -1 +1 @@".into());
    source.pull_request = Some(patched);
    source.warnings = vec!["w".into(), "w".into()];

    let merge = target.merge_file_patch_context_from(&source);
    assert!(merge.changed());
    assert!(merge.files_changed && merge.warnings_changed);
    assert_eq!(target.warnings, vec!["w".to_string()]);
    assert_eq!(
        target.pull_request.as_ref().unwrap().files[0].patch.as_deref(),
        Some("@@ -1 +1 @@")
    );
    let again = target.merge_file_patch_context_from(&source);
    assert!(!again.changed());
}

#[test]
fn reaction_total_sums_every_kind() {
    let counts = ReactionCounts { thumbs_up: 1, heart: 2, eyes: 3, ..ReactionCounts::default() };
    assert_eq!(counts.total(), 6);
}

#[test]
fn canonical_names_read_back() {
    let id = ResourceId::parse("https://github.com/rust-lang/rust/issues/12345").unwrap();
    let again = ResourceId::parse(&id.canonical_name()).unwrap();
    assert_eq!(again.owner, "rust-lang");
    assert_eq!(again.repo, "rust");
    assert_eq!(again.number, 12345);
    assert_eq!(again.kind_hint, None);
    assert_eq!(again.canonical_name(), "rust-lang/rust#12345");
}

#[test]
fn web_urls_read_back_with_their_kind() {
    let id = ResourceId::parse("octo/hello-world#42").unwrap();
    let pr = ResourceId::parse(&id.web_url_for_kind(ResourceKind::PullRequest)).unwrap();
    assert_eq!(pr.kind_hint, Some(ResourceKind::PullRequest));
    assert_eq!((pr.owner.as_str(), pr.repo.as_str(), pr.number), ("octo", "hello-world", 42));
    let issue = ResourceId::parse(&id.web_url_for_kind(ResourceKind::Issue)).unwrap();
    assert_eq!(issue.kind_hint, Some(ResourceKind::Issue));
    assert_eq!(issue.number, 42);
}

#[test]
fn fingerprint_escapes_text_as_debug_does() {
    let id = ResourceId::from_owner_repo_number("openclaw/openclaw", "1").unwrap();
    let mut resource = base_resource(id, "https://github.com/openclaw/openclaw/pull/1");
    let mut pr = empty_pr();
    pr.checks.push(CheckRun {
        name: "ci".into(),
        status: CheckStatus::Failure,
        summary: Some("it's \"bad\"\u{7}\n".into()),
        details_url: None,
        started_at: None,
        completed_at: None,
        raw_status: None,
        raw_conclusion: None,
    });
    resource.pull_request = Some(pr);
    let expected = format!("{:?}", Some("it's \"bad\"\u{7}\n"));
    assert_eq!(expected, "Some(\"it's \\\"bad\\\"\\u{7}\\n\")");
    assert!(resource.fingerprint().contains(&expected));
}

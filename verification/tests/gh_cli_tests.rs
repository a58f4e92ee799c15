use ghzinga::domain::{
    ActionContext, ActivityKind, ChangedFile, CheckStatus, Commit, Deployment, ReactionCounts,
    Resource, ResourceId, ResourceKind,
};
use ghzinga::github::activity::{
    pr_activity, review_thread_activity, sort_activity, timeline_activity,
};
use ghzinga::github::dto::{
    ChangedFilesConnection, ChangedFilesData, ChangedFilesPullRequest, ChangedFilesRepository,
    ChangedFilesResponse, CheckDto, CommentDto, CommitDeploymentCommit, CommitDeploymentNode,
    CommitDeploymentsConnection, CommitDeploymentsData, CommitDeploymentsPullRequest,
    CommitDeploymentsRepository, CommitDeploymentsResponse, CommitDto, DeploymentConnection,
    DeploymentDto, DeploymentStatusDto, FileDto, IssueView, JsonLeaf, JsonScalar, JsonValue,
    PageInfoDto, PrView, ReactionGroupDto, RelatedResourceDto, ReviewDto,
    ReviewThreadCommentDto, ReviewThreadCommentsConnection, ReviewThreadDto,
    ReviewThreadsConnection, ReviewThreadsData, ReviewThreadsPullRequest,
    ReviewThreadsRepository, ReviewThreadsResponse, TimelineData, TimelineItemsConnection,
    TimelineRepository, TimelineResource, TimelineResponse, TotalCountDto, UserDto,
};
use ghzinga::github::gh_cli::{
    apply_commit_deployments, apply_file_patches, changed_files_from_response, check_from_dto,
    classify_check, command_preview_for_issue, command_preview_for_pr,
    commit_deployments_from_response, commit_from_dto, gh_execute_error, gh_failure_message,
    looks_like_auth_failure, names_from_users, push_enrichment_warning, reaction_counts,
    related_resource_ids, FetchStep, GhCliGateway, PR_FIELDS,
};
use ghzinga::github::json::review_request_names;

/// A JSON object holding the given text values, each at its key path.
fn json(texts: &[(&[&str], &str)]) -> JsonValue {
    JsonValue {
        leaves: texts
            .iter()
            .map(|(path, text)| JsonLeaf {
                path: path.iter().map(|k| k.to_string()).collect(),
                value: JsonScalar::Text(text.to_string()),
            })
            .collect(),
    }
}

fn user(login: &str) -> UserDto {
    UserDto {
        login: Some(login.into()),
        name: None,
    }
}

fn pr_view() -> PrView {
    PrView {
        number: 81834,
        title: "metadata test".into(),
        url: "https://github.com/openclaw/openclaw/pull/81834".into(),
        state: "OPEN".into(),
        author: Some(user("alice")),
        created_at: "created".into(),
        updated_at: "updated".into(),
        labels: Vec::new(),
        assignees: Vec::new(),
        reaction_groups: Vec::new(),
        body: "body".into(),
        base_ref_name: "main".into(),
        head_ref_name: "branch".into(),
        base_ref_oid: Some("base-sha".into()),
        head_ref_oid: Some("head-sha".into()),
        head_repository: Some(json(&[(&["name"], "fork")])),
        head_repository_owner: Some(json(&[(&["login"], "alice")])),
        review_decision: None,
        review_requests: Vec::new(),
        closing_issues_references: Vec::new(),
        merge_state_status: Some("CLEAN".into()),
        mergeable: Some("MERGEABLE".into()),
        is_draft: false,
        is_cross_repository: true,
        maintainer_can_modify: true,
        changed_files: Some(14),
        closed: false,
        closed_at: None,
        merged_at: None,
        merged_by: None,
        milestone: Some(json(&[(&["title"], "v1")])),
        project_items: vec![json(&[(&["project", "title"], "Roadmap")])],
        auto_merge_request: None,
        merge_commit: None,
        potential_merge_commit: Some(json(&[(&["oid"], "merge-sha")])),
        additions: 1,
        deletions: 2,
        commits: Vec::new(),
        status_check_rollup: Vec::new(),
        files: Vec::new(),
        comments: Vec::new(),
        reviews: Vec::new(),
    }
}

#[test]
fn pr_command_uses_gh_view_and_repo_scope() {
    let id = ResourceId::from_owner_repo_number("openclaw/openclaw", "81834").unwrap();
    assert_eq!(
        command_preview_for_pr(&id),
        vec!["gh", "pr", "view", "81834", "-R", "openclaw/openclaw", "--json", PR_FIELDS]
    );
}

#[test]
fn issue_command_asks_for_issue_fields() {
    let id = ResourceId::from_owner_repo_number("openclaw/openclaw", "7").unwrap();
    let command = command_preview_for_issue(&id);
    assert_eq!(command[1], "issue");
    assert!(command[7].ends_with("closedByPullRequestsReferences,comments"));
}

#[test]
fn enrichment_warning_records_label_and_error() {
    let mut resource = Resource {
        id: ResourceId::from_owner_repo_number("openclaw/openclaw", "81834").unwrap(),
        title: "title".into(),
        url: "https://github.com/openclaw/openclaw/pull/81834".into(),
        state: "OPEN".into(),
        author: "alice".into(),
        created_at: "created".into(),
        updated_at: "updated".into(),
        labels: Vec::new(),
        assignees: Vec::new(),
        reactions: ReactionCounts::default(),
        body: "body".into(),
        activity: Vec::new(),
        related_resources: Vec::new(),
        metadata: Vec::new(),
        warnings: Vec::new(),
        pull_request: None,
        actions: ActionContext::default(),
    };
    push_enrichment_warning(&mut resource, "timeline unavailable", "permission denied");
    assert_eq!(resource.warnings, vec!["timeline unavailable: permission denied"]);
}

#[test]
fn classifies_cancelled_checks_as_skipped_not_failure() {
    assert_eq!(classify_check(Some("COMPLETED"), Some("CANCELLED")), CheckStatus::Skipped);
}

#[test]
fn classify_check_reads_action_required_as_failure_and_queued_as_pending() {
    assert_eq!(classify_check(Some("COMPLETED"), Some("ACTION_REQUIRED")), CheckStatus::Failure);
    assert_eq!(classify_check(Some("QUEUED"), None), CheckStatus::Pending);
    assert_eq!(classify_check(Some("completed"), Some("SUCCESS")), CheckStatus::Unknown);
    assert_eq!(classify_check(None, None), CheckStatus::Unknown);
}

#[test]
fn check_from_dto_preserves_github_metadata() {
    let check = check_from_dto(CheckDto {
        name: Some("unit".into()),
        context: None,
        workflow_name: Some("CI".into()),
        status: Some("COMPLETED".into()),
        state: None,
        conclusion: Some("FAILURE".into()),
        details_url: Some("https://github.com/openclaw/openclaw/actions/runs/1/job/2".into()),
        target_url: None,
        started_at: Some("2026-05-30T03:28:54Z".into()),
        completed_at: Some("2026-05-30T03:28:56Z".into()),
    });
    assert_eq!(check.name, "CI/unit");
    assert_eq!(check.status, CheckStatus::Failure);
    assert_eq!(check.raw_status.as_deref(), Some("COMPLETED"));
    assert_eq!(check.raw_conclusion.as_deref(), Some("FAILURE"));
    assert_eq!(
        check.details_url.as_deref(),
        Some("https://github.com/openclaw/openclaw/actions/runs/1/job/2")
    );
    assert_eq!(check.started_at.as_deref(), Some("2026-05-30T03:28:54Z"));
    assert_eq!(check.completed_at.as_deref(), Some("2026-05-30T03:28:56Z"));
}

#[test]
fn check_from_dto_handles_status_context_fields() {
    let check = check_from_dto(CheckDto {
        name: None,
        context: Some("license/cla".into()),
        workflow_name: None,
        status: None,
        state: Some("SUCCESS".into()),
        conclusion: None,
        details_url: None,
        target_url: Some("https://ci.example.test/status/1".into()),
        started_at: None,
        completed_at: None,
    });
    assert_eq!(check.name, "license/cla");
    assert_eq!(check.status, CheckStatus::Success);
    assert_eq!(check.raw_status.as_deref(), Some("SUCCESS"));
    assert_eq!(check.details_url.as_deref(), Some("https://ci.example.test/status/1"));
}

#[test]
fn commit_from_dto_preserves_body_dates_and_authors() {
    let commit = commit_from_dto(CommitDto {
        oid: "abcdef123".into(),
        message_headline: "feat: add thing".into(),
        message_body: Some("body\n\nCo-Authored-By: Friend <friend@example.com>".into()),
        committed_date: Some("2026-05-30T03:18:51Z".into()),
        authored_date: Some("2026-05-14T13:10:00Z".into()),
        authors: Some(vec![user("alice"), user("friend")]),
    });
    assert_eq!(commit.oid, "abcdef123");
    assert_eq!(commit.message, "feat: add thing");
    assert!(commit.body.contains("Co-Authored-By"));
    assert_eq!(commit.author, "alice");
    assert_eq!(commit.authors, vec!["alice", "friend"]);
    assert_eq!(commit.authored_at.as_deref(), Some("2026-05-14T13:10:00Z"));
    assert_eq!(commit.committed_at, "2026-05-30T03:18:51Z");
    assert!(commit.deployments.is_empty());
}

#[test]
fn commit_deployments_from_response_maps_environment_status_and_urls() {
    let response = CommitDeploymentsResponse {
        data: CommitDeploymentsData {
            repository: Some(CommitDeploymentsRepository {
                pull_request: Some(CommitDeploymentsPullRequest {
                    commits: CommitDeploymentsConnection {
                        nodes: vec![CommitDeploymentNode {
                            commit: CommitDeploymentCommit {
                                oid: "abcdef123".into(),
                                deployments: DeploymentConnection {
                                    nodes: vec![DeploymentDto {
                                        environment: Some("preview".into()),
                                        task: Some("deploy".into()),
                                        description: None,
                                        created_at: Some("2026-05-30T03:20:00Z".into()),
                                        updated_at: Some("2026-05-30T03:21:00Z".into()),
                                        latest_status: Some(DeploymentStatusDto {
                                            state: Some("SUCCESS".into()),
                                            description: Some("Preview deployed".into()),
                                            environment_url: Some(
                                                "https://example.test/preview".into(),
                                            ),
                                            log_url: Some("https://example.test/logs".into()),
                                            created_at: Some("2026-05-30T03:21:00Z".into()),
                                        }),
                                    }],
                                },
                            },
                        }],
                    },
                }),
            }),
        },
    };
    let deployments = commit_deployments_from_response(response);
    let for_commit = &deployments
        .iter()
        .rev()
        .find(|(oid, _)| oid == "abcdef123")
        .unwrap()
        .1;
    assert_eq!(for_commit[0].environment, "preview");
    assert_eq!(for_commit[0].state, "SUCCESS");
    assert_eq!(for_commit[0].description.as_deref(), Some("Preview deployed"));
    assert_eq!(for_commit[0].environment_url.as_deref(), Some("https://example.test/preview"));
    assert_eq!(for_commit[0].log_url.as_deref(), Some("https://example.test/logs"));
}

#[test]
fn applies_commit_deployments_to_matching_commits() {
    let mut commits = vec![Commit {
        oid: "abcdef123".into(),
        message: "feat: add thing".into(),
        body: String::new(),
        author: "alice".into(),
        authors: vec!["alice".into()],
        authored_at: None,
        committed_at: "2026-05-30T03:18:51Z".into(),
        status: CheckStatus::Unknown,
        deployments: Vec::new(),
    }];
    let deployments = vec![(
        "abcdef123".to_string(),
        vec![Deployment {
            environment: "preview".into(),
            state: "SUCCESS".into(),
            description: None,
            environment_url: None,
            log_url: None,
            created_at: None,
            updated_at: "2026-05-30T03:21:00Z".into(),
        }],
    )];
    apply_commit_deployments(&mut commits, deployments);
    assert_eq!(commits[0].deployments[0].environment, "preview");
}

#[test]
fn deployment_falls_back_to_task_and_unknown_state() {
    let response = CommitDeploymentsResponse {
        data: CommitDeploymentsData {
            repository: Some(CommitDeploymentsRepository {
                pull_request: Some(CommitDeploymentsPullRequest {
                    commits: CommitDeploymentsConnection {
                        nodes: vec![CommitDeploymentNode {
                            commit: CommitDeploymentCommit {
                                oid: "c1".into(),
                                deployments: DeploymentConnection {
                                    nodes: vec![DeploymentDto {
                                        environment: Some(String::new()),
                                        task: Some("deploy".into()),
                                        description: Some("own".into()),
                                        created_at: None,
                                        updated_at: None,
                                        latest_status: None,
                                    }],
                                },
                            },
                        }],
                    },
                }),
            }),
        },
    };
    let deployments = commit_deployments_from_response(response);
    let d = &deployments[0].1[0];
    assert_eq!(d.environment, "deploy");
    assert_eq!(d.state, "UNKNOWN");
    assert_eq!(d.description.as_deref(), Some("own"));
    assert_eq!(d.updated_at, "unknown");
}

#[test]
fn maps_reactions_by_content_name() {
    let counts = reaction_counts(&vec![
        ReactionGroupDto {
            content: "THUMBS_UP".into(),
            users: TotalCountDto { total_count: 3 },
        },
        ReactionGroupDto {
            content: "EYES".into(),
            users: TotalCountDto { total_count: 1 },
        },
    ]);
    assert_eq!(counts.thumbs_up, 3);
    assert_eq!(counts.eyes, 1);
    assert_eq!(counts.total(), 4);
}

#[test]
fn maps_people_and_review_requests_to_display_names() {
    assert_eq!(names_from_users(vec![user("assignee")]), vec!["assignee"]);
    assert_eq!(
        review_request_names(&vec![
            json(&[(&["requestedReviewer", "login"], "mona")]),
            json(&[(&["slug"], "docs-team")]),
        ]),
        vec!["mona", "docs-team"]
    );
}

#[test]
fn unknown_users_are_left_out_of_name_lists() {
    assert_eq!(
        names_from_users(vec![
            UserDto { login: None, name: None },
            UserDto { login: None, name: Some("Named".into()) },
        ]),
        vec!["Named"]
    );
}

#[test]
fn pr_view_preserves_extra_github_metadata() {
    let requested = ResourceId::from_owner_repo_number("openclaw/openclaw", "81834").unwrap();
    let resource = pr_view().into_resource(&requested);
    let pr = resource.pull_request.as_ref().unwrap();
    let has = |items: &Vec<ghzinga::domain::MetadataItem>, label: &str, value: &str| {
        items.iter().any(|item| item.label == label && item.value == value)
    };
    assert!(has(&resource.metadata, "Cross repository", "yes"));
    assert!(has(&resource.metadata, "Changed files", "14"));
    assert!(has(&resource.metadata, "Milestone", "v1"));
    assert!(has(&resource.metadata, "Projects", "Roadmap"));
    assert!(has(&pr.metadata, "Head repository owner", "alice"));
    assert!(has(&pr.metadata, "Potential merge commit", "merge-sha"));
    assert_eq!(resource.id.kind_hint, Some(ResourceKind::PullRequest));
    assert_eq!(pr.merge_state.as_deref(), Some("CLEAN"));
}

#[test]
fn issue_view_preserves_extra_github_metadata() {
    let requested = ResourceId::from_owner_repo_number("openclaw/openclaw", "88499").unwrap();
    let dto = IssueView {
        number: 88499,
        title: "issue metadata test".into(),
        url: "https://github.com/openclaw/openclaw/issues/88499".into(),
        state: "CLOSED".into(),
        author: Some(user("alice")),
        created_at: "created".into(),
        updated_at: "updated".into(),
        labels: Vec::new(),
        assignees: Vec::new(),
        reaction_groups: Vec::new(),
        body: "body".into(),
        closed: true,
        is_pinned: true,
        state_reason: Some("COMPLETED".into()),
        closed_at: Some("closed".into()),
        milestone: Some(json(&[(&["title"], "v2")])),
        project_items: vec![json(&[(&["project", "title"], "Triage")])],
        closed_by_pull_requests_references: Vec::new(),
        comments: Vec::new(),
    };
    let resource = dto.into_resource(&requested);
    let has = |label: &str, value: &str| {
        resource
            .metadata
            .iter()
            .any(|item| item.label == label && item.value == value)
    };
    assert!(has("Closed", "yes"));
    assert!(has("Pinned", "yes"));
    assert!(has("State reason", "COMPLETED"));
    assert!(has("Projects", "Triage"));
    assert!(!resource.is_pull_request());
}

#[test]
fn applies_file_patches_to_matching_changed_files() {
    let mut files = vec![ChangedFile {
        path: "src/one.rs".into(),
        additions: 1,
        deletions: 1,
        change_type: "MODIFIED".into(),
        patch: None,
    }];
    let patches = vec![("src/one.rs".to_string(), "patch body".to_string())];
    apply_file_patches(&mut files, patches);
    assert_eq!(files[0].patch.as_deref(), Some("patch body"));
}

#[test]
fn later_file_patch_listing_wins() {
    let mut files = vec![ChangedFile {
        path: "a".into(),
        additions: 0,
        deletions: 0,
        change_type: "MODIFIED".into(),
        patch: None,
    }];
    apply_file_patches(
        &mut files,
        vec![("a".into(), "first".into()), ("a".into(), "second".into())],
    );
    assert_eq!(files[0].patch.as_deref(), Some("second"));
}

#[test]
fn gh_cli_missing_gh_error_mentions_install_and_auth_status() {
    let message = gh_execute_error("gh pr view", true, "no gh in path");
    assert!(message.contains("`gh` was not found"));
    assert!(message.contains("gh auth status"));
    assert_eq!(
        gh_execute_error("gh pr view", false, "denied"),
        "failed to execute `gh pr view`: denied"
    );
}

#[test]
fn gh_cli_auth_failure_mentions_auth_status_and_login() {
    let message = gh_failure_message(
        "gh issue view",
        "To get started with GitHub CLI, please run: gh auth login",
    );
    assert!(message.contains("not authenticated"));
    assert!(message.contains("gh auth status"));
    assert!(message.contains("gh auth login"));
    assert!(looks_like_auth_failure("HTTP 401: Bad credentials"));
}

#[test]
fn gh_cli_non_auth_failure_keeps_command_and_stderr() {
    let message = gh_failure_message("gh pr view", "GraphQL: Could not resolve to a PullRequest");
    assert_eq!(message, "`gh pr view` failed: GraphQL: Could not resolve to a PullRequest");
    assert_eq!(
        gh_failure_message("gh pr view", "  \n"),
        "`gh pr view` failed without an error message"
    );
}

#[test]
fn related_resource_ids_parse_urls_and_number_fallbacks() {
    let requested = ResourceId::from_owner_repo_number("openclaw/openclaw", "88499").unwrap();
    let related = related_resource_ids(
        vec![
            RelatedResourceDto {
                number: None,
                url: Some("https://github.com/other/repo/pull/12".into()),
            },
            RelatedResourceDto {
                number: Some(34),
                url: None,
            },
        ],
        ResourceKind::PullRequest,
        &requested,
    );
    assert_eq!(related.len(), 2);
    assert_eq!(related[0].canonical_name(), "other/repo#12");
    assert_eq!(related[0].kind_hint, Some(ResourceKind::PullRequest));
    assert_eq!(related[1].canonical_name(), "openclaw/openclaw#34");
    assert_eq!(related[1].kind_hint, Some(ResourceKind::PullRequest));
}

#[test]
fn pr_activity_includes_reviews_with_state() {
    let activity = pr_activity(
        vec![CommentDto {
            id: Some("comment".into()),
            author: Some(user("alice")),
            author_association: Some("MEMBER".into()),
            body: "plain comment".into(),
            created_at: Some("2026-01-01T00:00:00Z".into()),
            updated_at: None,
            url: Some("https://github.com/openclaw/openclaw/pull/81834#issuecomment-1".into()),
            includes_created_edit: Some(true),
            is_minimized: Some(false),
            minimized_reason: None,
            reaction_groups: vec![ReactionGroupDto {
                content: "THUMBS_UP".into(),
                users: TotalCountDto { total_count: 2 },
            }],
        }],
        vec![ReviewDto {
            id: Some("review".into()),
            author: Some(user("bob")),
            author_association: Some("CONTRIBUTOR".into()),
            body: Some("looks good".into()),
            state: Some("APPROVED".into()),
            submitted_at: Some("2026-01-02T00:00:00Z".into()),
            updated_at: None,
            url: Some("https://github.com/openclaw/openclaw/pull/81834#pullrequestreview-1".into()),
            reaction_groups: Vec::new(),
        }],
    );
    assert_eq!(activity.len(), 2);
    assert_eq!(activity[0].kind, ActivityKind::Comment);
    assert_eq!(activity[0].author_association.as_deref(), Some("MEMBER"));
    assert_eq!(activity[0].reactions.thumbs_up, 2);
    assert!(activity[0].includes_created_edit);
    assert_eq!(activity[1].kind, ActivityKind::Review);
    assert_eq!(activity[1].body, "APPROVED: looks good");
    assert_eq!(
        activity[1].url.as_deref(),
        Some("https://github.com/openclaw/openclaw/pull/81834#pullrequestreview-1")
    );
}

#[test]
fn activity_sorts_by_time_then_id_and_keeps_ties_in_order() {
    let review = |id: Option<&str>, at: &str| ReviewDto {
        id: id.map(|s| s.to_string()),
        author: None,
        author_association: None,
        body: None,
        state: None,
        submitted_at: Some(at.into()),
        updated_at: None,
        url: None,
        reaction_groups: Vec::new(),
    };
    let mut activity = pr_activity(
        Vec::new(),
        vec![review(Some("b"), "2"), review(Some("a"), "2"), review(Some("z"), "1")],
    );
    let ids: Vec<&str> = activity.iter().map(|e| e.id.as_str()).collect();
    assert_eq!(ids, vec!["z", "a", "b"]);
    assert_eq!(activity[0].body, "REVIEW");
    assert_eq!(activity[0].author, "unknown");
    sort_activity(&mut activity);
    let again: Vec<&str> = activity.iter().map(|e| e.id.as_str()).collect();
    assert_eq!(again, vec!["z", "a", "b"]);
    let unnamed = pr_activity(Vec::new(), vec![review(None, "3")]);
    assert_eq!(unnamed[0].id, "review-0");
}

#[test]
fn review_thread_activity_keeps_path_and_line() {
    let activity = review_thread_activity(ReviewThreadsResponse {
        data: ReviewThreadsData {
            repository: Some(ReviewThreadsRepository {
                pull_request: Some(ReviewThreadsPullRequest {
                    review_threads: ReviewThreadsConnection {
                        nodes: vec![ReviewThreadDto {
                            id: Some("thread-1".into()),
                            is_resolved: Some(false),
                            is_outdated: Some(true),
                            path: Some("src/lib.rs".into()),
                            line: Some(42),
                            comments: ReviewThreadCommentsConnection {
                                nodes: vec![ReviewThreadCommentDto {
                                    id: Some("review-comment".into()),
                                    author: Some(user("mona")),
                                    author_association: Some("MEMBER".into()),
                                    body: "Please split this branch.".into(),
                                    created_at: Some("2026-01-01T00:00:00Z".into()),
                                    updated_at: Some("2026-01-02T00:00:00Z".into()),
                                    url: Some(
                                        "https://github.com/openclaw/openclaw/pull/81834#discussion_r1"
                                            .into(),
                                    ),
                                    includes_created_edit: Some(false),
                                    is_minimized: Some(true),
                                    minimized_reason: Some("resolved".into()),
                                    reaction_groups: vec![ReactionGroupDto {
                                        content: "EYES".into(),
                                        users: TotalCountDto { total_count: 1 },
                                    }],
                                    path: None,
                                    line: None,
                                }],
                            },
                        }],
                    },
                }),
            }),
        },
    });
    assert_eq!(activity.len(), 1);
    assert_eq!(activity[0].kind, ActivityKind::ReviewComment);
    assert_eq!(activity[0].path.as_deref(), Some("src/lib.rs"));
    assert_eq!(activity[0].line, Some(42));
    assert_eq!(activity[0].thread_id.as_deref(), Some("thread-1"));
    assert_eq!(activity[0].thread_resolved, Some(false));
    assert_eq!(activity[0].thread_outdated, Some(true));
    assert_eq!(activity[0].author_association.as_deref(), Some("MEMBER"));
    assert_eq!(activity[0].reactions.eyes, 1);
    assert!(activity[0].is_minimized);
    assert_eq!(activity[0].minimized_reason.as_deref(), Some("resolved"));
    assert_eq!(activity[0].author, "mona");
}

#[test]
fn timeline_activity_maps_github_events() {
    let activity = timeline_activity(TimelineResponse {
        data: TimelineData {
            repository: Some(TimelineRepository {
                issue: Some(TimelineResource {
                    timeline_items: TimelineItemsConnection {
                        nodes: vec![
                            json(&[
                                (&["__typename"], "LabeledEvent"),
                                (&["id"], "label-event"),
                                (&["createdAt"], "2026-05-31T02:28:11Z"),
                                (&["actor", "login"], "clawsweeper"),
                                (&["label", "name"], "P2"),
                            ]),
                            JsonValue {
                                leaves: {
                                    let mut leaves = json(&[
                                        (&["__typename"], "CrossReferencedEvent"),
                                        (&["id"], "cross-ref"),
                                        (&["createdAt"], "2026-05-31T07:01:12Z"),
                                        (&["actor", "login"], "alice"),
                                        (&["source", "__typename"], "Issue"),
                                        (&["source", "title"], "related issue"),
                                        (
                                            &["source", "url"],
                                            "https://github.com/openclaw/openclaw/issues/88538",
                                        ),
                                        (&["source", "repository", "nameWithOwner"], "openclaw/openclaw"),
                                    ])
                                    .leaves;
                                    leaves.push(JsonLeaf {
                                        path: vec!["source".into(), "number".into()],
                                        value: JsonScalar::Number(88538),
                                    });
                                    leaves
                                },
                            },
                        ],
                    },
                }),
                pull_request: None,
            }),
        },
    });
    assert_eq!(activity.len(), 2);
    assert_eq!(activity[0].kind, ActivityKind::Timeline);
    assert_eq!(activity[0].author, "clawsweeper");
    assert_eq!(activity[0].body, "added label P2");
    assert_eq!(activity[1].author, "alice");
    assert!(activity[1]
        .body
        .contains("cross-referenced by openclaw/openclaw#88538"));
    assert_eq!(
        activity[1].url.as_deref(),
        Some("https://github.com/openclaw/openclaw/issues/88538")
    );
}

#[test]
fn timeline_shortens_commit_ids_and_names_unknown_events() {
    let activity = timeline_activity(TimelineResponse {
        data: TimelineData {
            repository: Some(TimelineRepository {
                issue: None,
                pull_request: Some(TimelineResource {
                    timeline_items: TimelineItemsConnection {
                        nodes: vec![
                            json(&[
                                (&["__typename"], "ReferencedEvent"),
                                (&["commit", "oid"], "0123456789abcdef"),
                            ]),
                            json(&[(&["__typename"], "PinnedEvent")]),
                        ],
                    },
                }),
            }),
        },
    });
    assert_eq!(activity[0].body, "referenced commit 0123456789ab");
    assert_eq!(activity[0].id, "timeline-0");
    assert_eq!(activity[0].author, "github");
    assert_eq!(activity[1].body, "PinnedEvent event");
}

#[test]
fn changed_files_from_graphql_keep_change_type() {
    let files = changed_files_from_response(ChangedFilesResponse {
        data: ChangedFilesData {
            repository: Some(ChangedFilesRepository {
                pull_request: Some(ChangedFilesPullRequest {
                    files: ChangedFilesConnection {
                        page_info: PageInfoDto {
                            has_next_page: false,
                            end_cursor: None,
                        },
                        nodes: vec![
                            FileDto {
                                path: "src/lib.rs".into(),
                                additions: 10,
                                deletions: 2,
                                change_type: Some("MODIFIED".into()),
                            },
                            FileDto {
                                path: "src/new.rs".into(),
                                additions: 7,
                                deletions: 0,
                                change_type: Some("ADDED".into()),
                            },
                        ],
                    },
                }),
            }),
        },
    });
    assert_eq!(files.len(), 2);
    assert_eq!(files[0].change_type, "MODIFIED");
    assert_eq!(files[1].change_type, "ADDED");
}

#[test]
fn gateway_tries_a_pull_request_then_an_issue_for_unhinted_references() {
    let gateway = GhCliGateway;
    let id = ResourceId::parse("owner/repo#5").unwrap();
    let (kind, on_failure) = match gateway.first_step(&id) {
        FetchStep::Fetch(kind, on_failure) => (kind, on_failure),
        other => panic!("unexpected {other:?}"),
    };
    assert_eq!(kind, ResourceKind::PullRequest);
    assert!(on_failure.is_none());

    let (kind, on_failure) = match gateway.next_step(&id, kind, on_failure, Err("no pull request".into())) {
        FetchStep::Fetch(kind, on_failure) => (kind, on_failure),
        other => panic!("unexpected {other:?}"),
    };
    assert_eq!(kind, ResourceKind::Issue);
    assert_eq!(on_failure.as_deref(), Some("failed as PR first: no pull request"));

    match gateway.next_step(&id, kind, on_failure, Err("no issue".into())) {
        FetchStep::Done(Err(message)) => assert_eq!(message, "failed as PR first: no pull request"),
        other => panic!("unexpected {other:?}"),
    }
}

#[test]
fn gateway_fetches_hinted_references_once() {
    let gateway = GhCliGateway;
    let id = ResourceId::parse("https://github.com/owner/repo/issues/5").unwrap();
    match gateway.first_step(&id) {
        FetchStep::Fetch(ResourceKind::Issue, None) => {}
        other => panic!("unexpected {other:?}"),
    }
    match gateway.next_step(&id, ResourceKind::Issue, None, Err("gone".into())) {
        FetchStep::Done(Err(message)) => assert_eq!(message, "gone"),
        other => panic!("unexpected {other:?}"),
    }
}

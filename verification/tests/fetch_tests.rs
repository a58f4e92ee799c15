use ghzinga::domain::{
    ActionContext, ChangedFile, PullRequest, ReactionCounts, Resource, ResourceId, ResourceKind, FULL_DEPTH_WARNING_HINT,
};
use ghzinga::app::app_state::AppState;
use ghzinga::app::placeholder::loading_resource_placeholder;
use ghzinga::app::state::Tab;
use ghzinga::fetch::{
    apply_base_fetch_outcome, apply_blocking_fetch_outcome, apply_fetch_outcome, apply_loaded_resource_outcome, begin_fetch,
    finish_matching_blocking_load, push_unique_warning, start_pending_action_refreshes, resource_matches_target, should_enqueue_enrichment, FetchAction,
    FetchOwner, FetchStage, FetchStart, OfflineFixtureSource,
};

fn issue_resource(number: u64, title: &str) -> Resource {
    Resource {
        id: ResourceId {
            owner: "owner".into(),
            repo: "repo".into(),
            number,
            kind_hint: Some(ResourceKind::Issue),
        },
        title: title.into(),
        url: format!("https://github.com/owner/repo/issues/{number}"),
        state: "OPEN".into(),
        author: "alice".into(),
        created_at: "2026-01-01T00:00:00Z".into(),
        updated_at: "2026-01-01T00:00:00Z".into(),
        labels: Vec::new(),
        assignees: Vec::new(),
        reactions: ReactionCounts::default(),
        body: "Issue body".into(),
        activity: Vec::new(),
        related_resources: Vec::new(),
        metadata: Vec::new(),
        warnings: Vec::new(),
        pull_request: None,
        actions: ActionContext::default(),
    }
}

#[test]
fn public_rest_fallback_resources_do_not_enqueue_graphql_enrichment() {
    let mut resource = issue_resource(1, "REST fallback issue");
    assert!(should_enqueue_enrichment(&resource));
    resource
        .warnings
        .push("using public REST fallback after GitHub auth/API error: rate limited".into());
    assert!(!should_enqueue_enrichment(&resource));
}

#[test]
fn offline_fixture_source_fetches_by_canonical_name_without_kind_hint() {
    let fixture = issue_resource(2, "Linked issue");
    let source = OfflineFixtureSource::new(vec![fixture.clone()]);
    let id_without_kind = ResourceId {
        owner: "owner".into(),
        repo: "repo".into(),
        number: 2,
        kind_hint: None,
    };
    let loaded = source
        .fetch_resource(&id_without_kind)
        .expect("fixture resource");
    assert_eq!(loaded.id, fixture.id);
    assert_eq!(loaded.title, "Linked issue");
}

#[test]
fn offline_fixture_source_reports_missing_navigation_target() {
    let source = OfflineFixtureSource::new(vec![issue_resource(1, "Initial issue")]);
    let missing = ResourceId {
        owner: "owner".into(),
        repo: "repo".into(),
        number: 2,
        kind_hint: Some(ResourceKind::Issue),
    };
    let error = source
        .fetch_resource(&missing)
        .expect_err("missing fixture should fail");
    assert_eq!(error, "offline fixture mode: no fixture loaded for owner/repo#2");
}

#[test]
fn later_fixture_with_the_same_name_wins() {
    let source = OfflineFixtureSource::new(vec![
        issue_resource(3, "first"),
        issue_resource(3, "second"),
    ]);
    let id = ResourceId::parse("owner/repo#3").unwrap();
    assert_eq!(source.fetch_resource(&id).unwrap().title, "second");
}

#[test]
fn fetch_actions_describe_their_target() {
    let id = ResourceId::parse("owner/repo#7").unwrap();
    assert_eq!(
        FetchAction::Refresh { id: id.clone() }.loading_message(),
        "refreshing owner/repo#7 from GitHub"
    );
    assert_eq!(
        FetchAction::Back { to: id.clone() }.loading_message(),
        "returning to owner/repo#7 from GitHub"
    );
    assert_eq!(
        FetchAction::OpenTab { id: id.clone() }.loading_message(),
        "opening owner/repo#7 in a new tab"
    );
    let patches = FetchAction::LoadFilePatches {
        resource: Box::new(issue_resource(7, "x")),
    };
    assert_eq!(patches.loading_message(), "loading file diffs for owner/repo#7");
    assert!(!patches.can_load_progressively());
    assert!(FetchAction::Initial { id: id.clone() }.can_load_progressively());
    assert_eq!(
        FetchAction::Navigate { from: id.clone(), to: ResourceId::parse("a/b#1").unwrap() }
            .target()
            .canonical_name(),
        "a/b#1"
    );
}

#[test]
fn warnings_are_added_once_and_targets_ignore_kind() {
    let mut resource = issue_resource(4, "x");
    push_unique_warning(&mut resource, "w".into());
    push_unique_warning(&mut resource, "w".into());
    assert_eq!(resource.warnings, vec!["w".to_string()]);
    let mut id = resource.id.clone();
    id.kind_hint = None;
    assert!(resource_matches_target(&resource, &id));
    id.number = 5;
    assert!(!resource_matches_target(&resource, &id));
}

#[test]
fn only_the_awaited_fetch_ends_the_blocking_load() {
    let mut state = AppState::new(issue_resource(1, "Issue"), String::new());
    let origin = state.active_resource_tab_id();
    let target = state.resource.id.clone();
    let request_id = state.begin_loading(target, "refreshing owner/repo#1 from GitHub".into());
    state.status_message = Some("still loading: refreshing owner/repo#1 from GitHub".into());

    assert!(!finish_matching_blocking_load(&mut state, FetchOwner::new(request_id + 1, origin)));
    assert!(state.loading.is_some());
    assert!(state.status_message.is_some());

    assert!(finish_matching_blocking_load(&mut state, FetchOwner::new(request_id, origin)));
    assert!(state.loading.is_none());
    assert!(state.status_message.is_none());
}

#[test]
fn fetches_start_wait_or_go_their_own_way() {
    let mut state = AppState::new(issue_resource(1, "Issue"), String::new());
    let id = state.resource.id.clone();
    let origin = state.active_resource_tab_id();

    let started = begin_fetch(&mut state, &FetchAction::Refresh { id: id.clone() });
    let owner = match started {
        FetchStart::Started(owner) => owner,
        other => panic!("unexpected {other:?}"),
    };
    assert_eq!(owner.origin_tab_id, origin);
    assert_eq!(state.loading_message(), Some("refreshing owner/repo#1 from GitHub"));
    assert!(state.latest_fetch_request_matches(owner.request_id));

    state.refresh_requested = false;
    assert_eq!(begin_fetch(&mut state, &FetchAction::Refresh { id: id.clone() }), FetchStart::Busy);
    assert!(state.refresh_requested);
    assert_eq!(
        state.status_message.as_deref(),
        Some("still loading: refreshing owner/repo#1 from GitHub")
    );

    let patches = FetchAction::LoadFilePatches { resource: Box::new(issue_resource(1, "Issue")) };
    let patch_owner = match begin_fetch(&mut state, &patches) {
        FetchStart::FilePatches(owner) => owner,
        other => panic!("unexpected {other:?}"),
    };
    assert_eq!(patch_owner.origin_tab_id, origin);
    assert_eq!(patch_owner.request_id, owner.request_id + 1);
    assert!(state.latest_fetch_request_matches(owner.request_id));
    assert_eq!(state.file_patch_loading_message().as_deref(), Some("loading file diffs"));
    assert_eq!(begin_fetch(&mut state, &patches), FetchStart::Busy);
    assert_eq!(state.file_patch_loading_message().as_deref(), Some("loading file diffs"));
}

#[test]
fn loaded_outcomes_land_in_their_origin_tab() {
    let mut state = AppState::new(issue_resource(1, "Initial issue"), String::new());
    let origin = state.active_resource_tab_id();
    state.open_resource_in_tab(issue_resource(2, "Other issue"));
    assert_eq!(state.resource.id.number, 2);

    let owner = FetchOwner::new(7, origin);
    let refreshed = issue_resource(1, "Updated issue");
    apply_loaded_resource_outcome(
        &mut state,
        FetchAction::Refresh { id: refreshed.id.clone() },
        Ok(refreshed),
        owner,
        "12:00:00 UTC".into(),
    );
    assert_eq!(state.resource.id.number, 2);
    assert_eq!(state.resource_tabs[0].resource.title, "Updated issue");
    assert_eq!(state.resource_tabs[0].last_refreshed_at.as_deref(), Some("12:00:00 UTC"));

    apply_loaded_resource_outcome(
        &mut state,
        FetchAction::Back { to: issue_resource(9, "Gone").id },
        Err("rate limited".into()),
        owner,
        "12:01:00 UTC".into(),
    );
    assert_eq!(state.resource.id.number, 2);
    assert_eq!(state.resource_tabs[0].last_error.as_deref(), Some("rate limited"));
    assert_eq!(state.resource_tabs[0].history.len(), 1);
    assert_eq!(state.resource_tabs[0].history[0].number, 9);

    apply_loaded_resource_outcome(
        &mut state,
        FetchAction::OpenTab { id: issue_resource(3, "Third").id },
        Ok(issue_resource(3, "Third")),
        owner,
        "12:02:00 UTC".into(),
    );
    assert_eq!(state.resource.id.number, 3);
    assert_eq!(state.resource_tabs.len(), 3);
    assert!(state.last_error.is_none());
}

#[test]
fn failed_file_patches_mark_the_resource_once() {
    let mut state = AppState::new(issue_resource(1, "Issue"), String::new());
    let origin = state.active_resource_tab_id();
    let action = || FetchAction::LoadFilePatches { resource: Box::new(issue_resource(1, "Issue")) };
    for _ in 0..2 {
        apply_loaded_resource_outcome(
            &mut state,
            action(),
            Err("rate limited".into()),
            FetchOwner::new(1, origin),
            "12:00:00 UTC".into(),
        );
    }
    assert_eq!(state.last_error.as_deref(), Some("rate limited"));
    assert_eq!(state.resource.warnings, ["file patch context unavailable: rate limited"]);
}

#[test]
fn base_outcome_ends_only_the_awaited_load_and_announces_details() {
    let mut state = AppState::new(issue_resource(1, "Placeholder"), String::new());
    let action = FetchAction::Initial { id: issue_resource(1, "Placeholder").id };
    let owner = match begin_fetch(&mut state, &action) {
        FetchStart::Started(owner) => owner,
        other => panic!("unexpected {other:?}"),
    };

    apply_base_fetch_outcome(
        &mut state,
        action.clone(),
        Ok(issue_resource(1, "Loaded")),
        FetchOwner::new(owner.request_id + 1, owner.origin_tab_id),
        "12:34:56 UTC".into(),
    );
    assert!(state.loading.is_some());
    assert_eq!(state.resource.title, "Placeholder");

    apply_base_fetch_outcome(&mut state, action, Ok(issue_resource(1, "Loaded")), owner, "12:34:56 UTC".into());
    assert!(state.loading.is_none());
    assert_eq!(state.resource.title, "Loaded");
    assert_eq!(state.status_message.as_deref(), Some("loading additional GitHub details"));
}

#[test]
fn blocking_outcome_records_errors_of_the_awaited_load() {
    let mut state = AppState::new(issue_resource(1, "Issue"), String::new());
    let action = FetchAction::LoadFull { id: issue_resource(1, "Issue").id };
    let owner = match begin_fetch(&mut state, &action) {
        FetchStart::Started(owner) => owner,
        other => panic!("unexpected {other:?}"),
    };
    apply_blocking_fetch_outcome(&mut state, action, Err("boom".into()), owner, "12:00:00 UTC".into());
    assert!(state.loading.is_none());
    assert_eq!(state.last_error.as_deref(), Some("boom"));
}

fn pr_resource_with_patch(patch: Option<&str>) -> Resource {
    let mut resource = issue_resource(1, "Pull request");
    resource.id.kind_hint = Some(ResourceKind::PullRequest);
    resource.url = "https://github.com/owner/repo/pull/1".into();
    resource.pull_request = Some(PullRequest {
        base_ref: "main".into(),
        head_ref: "topic".into(),
        requested_reviewers: Vec::new(),
        review_decision: None,
        merge_state: None,
        additions: 1,
        deletions: 0,
        commits: Vec::new(),
        checks: Vec::new(),
        files: vec![ChangedFile {
            path: "src/lib.rs".into(),
            additions: 1,
            deletions: 0,
            change_type: "MODIFIED".into(),
            patch: patch.map(str::to_string),
        }],
        metadata: Vec::new(),
        allowed_merge_methods: Vec::new(),
    });
    resource
}

fn begin_test_fetch(state: &mut AppState, action: &FetchAction) -> (u64, u64) {
    let origin_tab_id = state.active_resource_tab_id();
    let request_id = state.begin_loading(action.target().clone(), action.loading_message());
    (request_id, origin_tab_id)
}

fn owner_repo_id(number: u64) -> ResourceId {
    ResourceId { owner: "owner".into(), repo: "repo".into(), number, kind_hint: None }
}

fn first_patch(state: &AppState) -> Option<String> {
    state.resource.pull_request.as_ref().unwrap().files[0].patch.clone()
}

#[test]
fn progressive_base_outcome_finishes_blocking_load_before_enrichment() {
    let id = owner_repo_id(1);
    let mut base = issue_resource(1, "Base issue");
    base.body = "base body".into();
    let mut enriched = issue_resource(1, "Base issue");
    enriched.body = "enriched body".into();
    let mut state = AppState::new(loading_resource_placeholder(id.clone()), String::new());
    let action = FetchAction::Initial { id };
    let (request_id, origin_tab_id) = begin_test_fetch(&mut state, &action);

    apply_fetch_outcome(
        &mut state,
        FetchStage::Base,
        action.clone(),
        Ok(base),
        FetchOwner::new(request_id, origin_tab_id),
        "12:34:56 UTC".into(),
    );

    assert_eq!(state.resource.title, "Base issue");
    assert_eq!(state.resource.body, "base body");
    assert!(state.loading.is_none());
    assert!(state.last_error.is_none());
    assert_eq!(state.status_message.as_deref(), Some("loading additional GitHub details"));

    apply_fetch_outcome(
        &mut state,
        FetchStage::Enrichment,
        action,
        Ok(enriched),
        FetchOwner::new(request_id, origin_tab_id),
        "12:35:01 UTC".into(),
    );

    assert_eq!(state.resource.body, "enriched body");
    assert_eq!(state.last_refreshed_at.as_deref(), Some("12:35:01 UTC"));
    assert_eq!(state.last_refresh_changed_sections, ["summary"]);
    assert!(state.status_message.is_none());
}

#[test]
fn progressive_base_error_does_not_leave_enrichment_status() {
    let mut state = AppState::new(issue_resource(1, "Existing issue"), String::new());
    let action = FetchAction::Refresh { id: owner_repo_id(1) };
    let (request_id, origin_tab_id) = begin_test_fetch(&mut state, &action);

    apply_fetch_outcome(
        &mut state,
        FetchStage::Base,
        action,
        Err("network down".into()),
        FetchOwner::new(request_id, origin_tab_id),
        "12:35:01 UTC".into(),
    );

    assert_eq!(state.resource.title, "Existing issue");
    assert_eq!(state.last_error.as_deref(), Some("network down"));
    assert!(state.status_message.is_none());
    assert!(state.loading.is_none());
}

#[test]
fn public_rest_fallback_base_does_not_show_enrichment_status() {
    let id = owner_repo_id(1);
    let mut fallback = issue_resource(1, "REST fallback issue");
    fallback.warnings.push("using public REST fallback after GitHub auth/API error: rate limited".into());
    let mut state = AppState::new(loading_resource_placeholder(id.clone()), String::new());
    let action = FetchAction::Initial { id };
    let (request_id, origin_tab_id) = begin_test_fetch(&mut state, &action);

    apply_fetch_outcome(
        &mut state,
        FetchStage::Base,
        action,
        Ok(fallback),
        FetchOwner::new(request_id, origin_tab_id),
        "12:34:56 UTC".into(),
    );

    assert_eq!(state.resource.title, "REST fallback issue");
    assert!(state.loading.is_none());
    assert!(state.status_message.is_none());
}

#[test]
fn enrichment_does_not_clear_other_tab_blocking_load() {
    let first = issue_resource(1, "First issue");
    let second = issue_resource(2, "Second issue");
    let mut state = AppState::new(first.clone(), String::new());
    let first_action = FetchAction::Refresh { id: first.id.clone() };
    let (first_request_id, first_origin_tab_id) = begin_test_fetch(&mut state, &first_action);

    apply_fetch_outcome(
        &mut state,
        FetchStage::Base,
        first_action.clone(),
        Ok(first.clone()),
        FetchOwner::new(first_request_id, first_origin_tab_id),
        "12:34:56 UTC".into(),
    );

    state.open_resource_in_tab(second.clone());
    let second_action = FetchAction::Refresh { id: second.id.clone() };
    let (second_request_id, second_origin_tab_id) = begin_test_fetch(&mut state, &second_action);
    let mut enriched_first = first.clone();
    enriched_first.body = "enriched first body".into();

    apply_fetch_outcome(
        &mut state,
        FetchStage::Enrichment,
        first_action,
        Ok(enriched_first),
        FetchOwner::new(first_request_id, first_origin_tab_id),
        "12:35:01 UTC".into(),
    );

    assert_eq!(state.resource.id.number, 2);
    assert_eq!(state.loading_message(), Some("refreshing owner/repo#2 from GitHub"));
    assert!(state.loading_request_matches(second_request_id));

    let mut refreshed_second = second;
    refreshed_second.body = "refreshed second body".into();
    apply_fetch_outcome(
        &mut state,
        FetchStage::Complete,
        second_action,
        Ok(refreshed_second),
        FetchOwner::new(second_request_id, second_origin_tab_id),
        "12:35:02 UTC".into(),
    );

    assert_eq!(state.resource.body, "refreshed second body");
    assert!(state.loading.is_none());
}

#[test]
fn progressive_enrichment_is_ignored_after_resource_replacement() {
    let id = owner_repo_id(1);
    let mut state = AppState::new(loading_resource_placeholder(id.clone()), String::new());
    let action = FetchAction::Initial { id };
    let (request_id, origin_tab_id) = begin_test_fetch(&mut state, &action);

    apply_fetch_outcome(
        &mut state,
        FetchStage::Base,
        action.clone(),
        Ok(issue_resource(1, "Base issue")),
        FetchOwner::new(request_id, origin_tab_id),
        "12:34:56 UTC".into(),
    );
    state.replace_resource_reset_view(issue_resource(2, "Different issue"));

    let mut stale = issue_resource(1, "Stale enrichment");
    stale.body = "should not apply".into();
    apply_fetch_outcome(
        &mut state,
        FetchStage::Enrichment,
        action,
        Ok(stale),
        FetchOwner::new(request_id, origin_tab_id),
        "12:35:01 UTC".into(),
    );

    assert_eq!(state.resource.id.number, 2);
    assert_eq!(state.resource.title, "Different issue");
    assert_ne!(state.resource.body, "should not apply");
}

#[test]
fn progressive_enrichment_is_ignored_after_newer_request_for_same_resource() {
    let id = owner_repo_id(1);
    let mut state = AppState::new(loading_resource_placeholder(id.clone()), String::new());
    let action = FetchAction::Initial { id: id.clone() };
    let (request_id, origin_tab_id) = begin_test_fetch(&mut state, &action);

    apply_fetch_outcome(
        &mut state,
        FetchStage::Base,
        action.clone(),
        Ok(issue_resource(1, "Base issue")),
        FetchOwner::new(request_id, origin_tab_id),
        "12:34:56 UTC".into(),
    );

    let refresh_action = FetchAction::Refresh { id };
    let (_newer_request_id, _same_origin_tab_id) = begin_test_fetch(&mut state, &refresh_action);

    let mut stale = issue_resource(1, "Stale enrichment");
    stale.body = "should not apply".into();
    apply_fetch_outcome(
        &mut state,
        FetchStage::Enrichment,
        action,
        Ok(stale),
        FetchOwner::new(request_id, origin_tab_id),
        "12:35:01 UTC".into(),
    );

    assert_eq!(state.resource.title, "Base issue");
    assert_ne!(state.resource.body, "should not apply");
}

#[test]
fn progressive_enrichment_error_adds_warning_without_failing_resource() {
    let mut state = AppState::new(issue_resource(1, "Base issue"), String::new());
    let action = FetchAction::Refresh { id: owner_repo_id(1) };
    let (request_id, origin_tab_id) = begin_test_fetch(&mut state, &action);

    apply_fetch_outcome(
        &mut state,
        FetchStage::Enrichment,
        action,
        Err("timeline timed out".into()),
        FetchOwner::new(request_id, origin_tab_id),
        "12:35:01 UTC".into(),
    );

    assert_eq!(state.resource.title, "Base issue");
    assert!(state.last_error.is_none());
    assert_eq!(state.resource.warnings, ["background details unavailable: timeline timed out"]);
}

#[test]
fn duplicate_progressive_enrichment_error_still_clears_status() {
    let mut state = AppState::new(issue_resource(1, "Base issue"), String::new());
    state.resource.warnings.push("background details unavailable: timeline timed out".into());
    state.status_message = Some("loading additional GitHub details".into());
    let action = FetchAction::Refresh { id: owner_repo_id(1) };
    let (request_id, origin_tab_id) = begin_test_fetch(&mut state, &action);

    apply_fetch_outcome(
        &mut state,
        FetchStage::Enrichment,
        action,
        Err("timeline timed out".into()),
        FetchOwner::new(request_id, origin_tab_id),
        "12:35:01 UTC".into(),
    );

    assert!(state.status_message.is_none());
    assert_eq!(state.resource.warnings, ["background details unavailable: timeline timed out"]);
}

#[test]
fn file_patch_error_marks_resource_unavailable_without_retry_status() {
    let resource = pr_resource_with_patch(None);
    let mut state = AppState::new(resource.clone(), String::new());
    state.set_tab(Tab::Files);
    let action = FetchAction::LoadFilePatches { resource: Box::new(resource) };
    let origin_tab_id = state.active_resource_tab_id();
    let request_id = state.begin_file_patch_loading();

    apply_fetch_outcome(
        &mut state,
        FetchStage::FilePatches,
        action,
        Err("rate limited".into()),
        FetchOwner::new(request_id, origin_tab_id),
        "12:35:01 UTC".into(),
    );

    assert_eq!(state.last_error.as_deref(), Some("rate limited"));
    assert!(state.status_message.is_none());
    assert!(state.loading.is_none());
    assert!(state.resource.warnings.iter().any(|warning| warning.starts_with("file patch context unavailable")));
}

#[test]
fn file_patch_outcome_merges_patches_without_overwriting_current_resource() {
    let mut current = pr_resource_with_patch(None);
    current.body = "current enriched body".into();
    current.warnings.push("current warning".into());
    let mut patch_resource = pr_resource_with_patch(Some("@@ -1 +1 @@\n-old\n+new"));
    patch_resource.body = "older background copy".into();
    patch_resource.warnings.push("patch warning".into());
    let mut state = AppState::new(current, String::new());
    state.set_tab(Tab::Files);
    let action = FetchAction::LoadFilePatches { resource: Box::new(pr_resource_with_patch(None)) };
    let origin_tab_id = state.active_resource_tab_id();
    let request_id = state.begin_file_patch_loading();

    apply_fetch_outcome(
        &mut state,
        FetchStage::FilePatches,
        action,
        Ok(patch_resource),
        FetchOwner::new(request_id, origin_tab_id),
        "12:36:00 UTC".into(),
    );

    assert_eq!(state.resource.body, "current enriched body");
    assert_eq!(first_patch(&state).as_deref(), Some("@@ -1 +1 @@\n-old\n+new"));
    assert_eq!(state.resource.warnings, ["current warning", "patch warning"]);
    assert_eq!(state.last_refresh_changed_sections, ["warnings", "files"]);
    assert!(state.file_patch_loading_message().is_none());
    assert!(state.loading.is_none());
}

#[test]
fn file_patch_loading_does_not_invalidate_pending_enrichment() {
    let id = ResourceId { owner: "owner".into(), repo: "repo".into(), number: 1, kind_hint: Some(ResourceKind::PullRequest) };
    let mut state = AppState::new(loading_resource_placeholder(id.clone()), String::new());
    let action = FetchAction::Initial { id };
    let (request_id, origin_tab_id) = begin_test_fetch(&mut state, &action);

    apply_fetch_outcome(
        &mut state,
        FetchStage::Base,
        action.clone(),
        Ok(pr_resource_with_patch(None)),
        FetchOwner::new(request_id, origin_tab_id),
        "12:34:56 UTC".into(),
    );

    state.set_tab(Tab::Files);
    state.begin_file_patch_loading();
    let mut enriched = pr_resource_with_patch(None);
    enriched.body = "enriched body".into();

    apply_fetch_outcome(
        &mut state,
        FetchStage::Enrichment,
        action,
        Ok(enriched),
        FetchOwner::new(request_id, origin_tab_id),
        "12:35:01 UTC".into(),
    );

    assert_eq!(state.resource.body, "enriched body");
    assert!(state.loading.is_none());
}

#[test]
fn newer_blocking_fetch_cancels_pending_file_patch_result() {
    let resource = pr_resource_with_patch(None);
    let mut state = AppState::new(resource.clone(), String::new());
    state.set_tab(Tab::Files);
    let patch_request_id = state.begin_file_patch_loading();
    let origin_tab_id = state.active_resource_tab_id();

    let refresh_action = FetchAction::Refresh { id: resource.id.clone() };
    let (_refresh_request_id, _refresh_origin_tab_id) = begin_test_fetch(&mut state, &refresh_action);

    apply_fetch_outcome(
        &mut state,
        FetchStage::FilePatches,
        FetchAction::LoadFilePatches { resource: Box::new(resource) },
        Ok(pr_resource_with_patch(Some("@@ stale patch"))),
        FetchOwner::new(patch_request_id, origin_tab_id),
        "12:36:00 UTC".into(),
    );

    assert!(state.file_patch_loading_message().is_none());
    assert!(first_patch(&state).is_none());
}

#[test]
fn enrichment_preserves_loaded_file_patches() {
    let resource = pr_resource_with_patch(None);
    let mut state = AppState::new(resource.clone(), String::new());
    state.set_tab(Tab::Files);
    let action = FetchAction::Initial { id: resource.id.clone() };
    let (request_id, origin_tab_id) = begin_test_fetch(&mut state, &action);

    apply_fetch_outcome(
        &mut state,
        FetchStage::Base,
        action.clone(),
        Ok(resource.clone()),
        FetchOwner::new(request_id, origin_tab_id),
        "12:34:56 UTC".into(),
    );

    let patch_request_id = state.begin_file_patch_loading();
    apply_fetch_outcome(
        &mut state,
        FetchStage::FilePatches,
        FetchAction::LoadFilePatches { resource: Box::new(resource.clone()) },
        Ok(pr_resource_with_patch(Some("@@ loaded patch"))),
        FetchOwner::new(patch_request_id, origin_tab_id),
        "12:35:00 UTC".into(),
    );

    let mut enriched = pr_resource_with_patch(None);
    enriched.body = "enriched body".into();
    apply_fetch_outcome(
        &mut state,
        FetchStage::Enrichment,
        action,
        Ok(enriched),
        FetchOwner::new(request_id, origin_tab_id),
        "12:35:01 UTC".into(),
    );

    assert_eq!(state.resource.body, "enriched body");
    assert_eq!(first_patch(&state).as_deref(), Some("@@ loaded patch"));
}

#[test]
fn file_patch_loading_does_not_block_open_fetches() {
    let resource = pr_resource_with_patch(None);
    let second = issue_resource(2, "Second issue");
    let mut state = AppState::new(resource.clone(), String::new());
    state.set_tab(Tab::Files);

    let patches = begin_fetch(&mut state, &FetchAction::LoadFilePatches { resource: Box::new(resource) });
    assert!(matches!(patches, FetchStart::FilePatches(_)));
    assert!(state.loading.is_none());
    assert_eq!(state.file_patch_loading_message().as_deref(), Some("loading file diffs"));

    let open = begin_fetch(&mut state, &FetchAction::OpenTab { id: second.id.clone() });
    assert!(matches!(open, FetchStart::Started(_)));
    assert_eq!(state.loading_message(), Some("opening owner/repo#2 in a new tab"));
}

#[test]
fn owed_refresh_waits_for_the_blocking_load_and_skips_gone_tabs() {
    let mut state = AppState::new(issue_resource(1, "Issue"), String::new());
    let origin = state.active_resource_tab_id();
    let target = state.resource.id.clone();
    state.pending_action_refreshes = vec![
        (origin + 40, owner_repo_id(9)),
        (origin, target.clone()),
        (origin, target.clone()),
    ];
    state.begin_loading(target.clone(), "refreshing older data".into());

    assert!(start_pending_action_refreshes(&mut state).is_none());
    assert_eq!(state.pending_action_refreshes.len(), 3);

    state.finish_loading();
    let (owner, refreshed) = start_pending_action_refreshes(&mut state).expect("a refresh starts");
    assert_eq!(refreshed, target);
    assert_eq!(owner.origin_tab_id, origin);
    assert!(state.loading_request_matches(owner.request_id));
    assert_eq!(state.loading_message(), Some("refreshing owner/repo#1 from GitHub"));
    assert_eq!(state.pending_action_refreshes, vec![(origin, target)]);
}

#[test]
fn full_depth_fetch_outcome_preserves_view_and_reports_loaded_status() {
    let mut initial = issue_resource(1, "Initial issue");
    initial.warnings.push(format!(
        "normal API depth shows the first 100 only for comments; {FULL_DEPTH_WARNING_HINT} for exhaustive pagination"
    ));
    let mut full = issue_resource(1, "Initial issue");
    full.body = "full body with later comments".into();
    let mut state = AppState::new(initial, String::new());
    state.set_tab(Tab::Activity);
    state.set_scroll_limit(10);
    state.scroll_down(4);
    let id = state.resource.id.clone();
    let action = FetchAction::LoadFull { id };
    let (request_id, origin_tab_id) = begin_test_fetch(&mut state, &action);

    apply_fetch_outcome(
        &mut state,
        FetchStage::Complete,
        action,
        Ok(full),
        FetchOwner::new(request_id, origin_tab_id),
        "12:34:56 UTC".into(),
    );

    assert_eq!(state.active_tab, Tab::Activity);
    assert_eq!(state.scroll, 4);
    assert_eq!(state.resource.body, "full body with later comments");
    assert!(!state.resource.has_partial_depth_warning());
    assert!(state.status_message.is_none());
}

#[test]
fn initial_fetch_outcome_replaces_placeholder_with_loaded_resource() {
    let id = owner_repo_id(1);
    let mut state = AppState::new(loading_resource_placeholder(id.clone()), String::new());
    state.set_tab(Tab::Files);
    let action = FetchAction::Initial { id };
    let (request_id, origin_tab_id) = begin_test_fetch(&mut state, &action);

    apply_fetch_outcome(
        &mut state,
        FetchStage::Complete,
        action,
        Ok(issue_resource(1, "Loaded issue")),
        FetchOwner::new(request_id, origin_tab_id),
        "12:34:56 UTC".into(),
    );

    assert_eq!(state.resource.title, "Loaded issue");
    assert_eq!(state.resource.state, "OPEN");
    assert_eq!(state.active_tab, Tab::Overview);
    assert!(state.status_message.is_none());
    assert!(state.loading.is_none());
}

#[test]
fn open_tab_fetch_outcome_appends_and_activates_resource_tab() {
    let mut state = AppState::new(issue_resource(1, "Initial issue"), String::new());
    let second = issue_resource(2, "Second issue");
    let action = FetchAction::OpenTab { id: second.id.clone() };
    let (request_id, origin_tab_id) = begin_test_fetch(&mut state, &action);

    apply_fetch_outcome(
        &mut state,
        FetchStage::Complete,
        action,
        Ok(second),
        FetchOwner::new(request_id, origin_tab_id),
        "12:34:56 UTC".into(),
    );

    assert_eq!(state.resource.id.number, 2);
    assert_eq!(state.resource_tabs.len(), 2);
    assert_eq!(state.active_resource_tab, 1);
    assert!(state.loading.is_none());
}

#[test]
fn refresh_fetch_outcome_updates_origin_tab_after_user_switches_tabs() {
    let mut state = AppState::new(issue_resource(1, "Initial issue"), String::new());
    let second = issue_resource(2, "Second issue");
    state.open_resource_in_tab(second);
    state.switch_resource_tab(0);

    let mut refreshed = issue_resource(1, "Updated issue");
    refreshed.body = "Updated body".into();
    let action = FetchAction::Refresh { id: refreshed.id.clone() };
    let (request_id, origin_tab_id) = begin_test_fetch(&mut state, &action);
    state.switch_resource_tab(1);

    apply_fetch_outcome(
        &mut state,
        FetchStage::Complete,
        action,
        Ok(refreshed),
        FetchOwner::new(request_id, origin_tab_id),
        "12:34:56 UTC".into(),
    );

    assert_eq!(state.resource.id.number, 2);
    assert_eq!(state.resource.title, "Second issue");
    assert!(state.loading.is_none());

    state.switch_resource_tab(0);

    assert_eq!(state.resource.id.number, 1);
    assert_eq!(state.resource.title, "Updated issue");
    assert_eq!(state.resource.body, "Updated body");
    assert_eq!(state.last_refreshed_at.as_deref(), Some("12:34:56 UTC"));
}

#[test]
fn duplicate_fetch_start_reports_existing_loading_without_queueing() {
    let mut state = AppState::new(issue_resource(1, "Initial issue"), String::new());
    let loading_id = state.resource.id.clone();
    state.begin_loading(loading_id, "opening owner/repo#2 from GitHub".into());
    let id = state.resource.id.clone();

    let started = begin_fetch(&mut state, &FetchAction::Refresh { id });

    assert_eq!(started, FetchStart::Busy);
    assert_eq!(state.status_message.as_deref(), Some("still loading: opening owner/repo#2 from GitHub"));
}

#[test]
fn completed_fetch_clears_blocked_loading_status_on_other_tabs() {
    let mut state = AppState::new(issue_resource(1, "Initial issue"), String::new());
    state.open_resource_in_tab(issue_resource(2, "Second issue"));
    state.switch_resource_tab(0);
    let action = FetchAction::Refresh { id: state.resource.id.clone() };
    let (request_id, origin_tab_id) = begin_test_fetch(&mut state, &action);
    state.switch_resource_tab(1);
    let blocked_id = state.resource.id.clone();

    let started = begin_fetch(&mut state, &FetchAction::Refresh { id: blocked_id });

    assert_eq!(started, FetchStart::Busy);
    assert_eq!(state.status_message.as_deref(), Some("still loading: refreshing owner/repo#1 from GitHub"));

    apply_fetch_outcome(
        &mut state,
        FetchStage::Complete,
        action,
        Ok(issue_resource(1, "Updated issue")),
        FetchOwner::new(request_id, origin_tab_id),
        "12:34:56 UTC".into(),
    );

    assert_eq!(state.resource.id.number, 2);
    assert!(state.status_message.is_none());
    state.switch_resource_tab(0);
    assert_eq!(state.resource.title, "Updated issue");
    assert!(state.status_message.is_none());
}

#[test]
fn failed_back_fetch_restores_history_target() {
    let initial = issue_resource(1, "Initial issue");
    let previous = issue_resource(2, "Previous issue");
    let mut state = AppState::new(initial, String::new());
    state.history.push(previous.id.clone());
    let popped = state.pop_history().unwrap();
    let action = FetchAction::Back { to: popped };
    let (request_id, origin_tab_id) = begin_test_fetch(&mut state, &action);

    apply_fetch_outcome(
        &mut state,
        FetchStage::Complete,
        action,
        Err("network down".into()),
        FetchOwner::new(request_id, origin_tab_id),
        "12:34:56 UTC".into(),
    );

    assert_eq!(state.history, [previous.id]);
    assert_eq!(state.last_error.as_deref(), Some("network down"));
    assert!(state.loading.is_none());
}

#[test]
fn file_patch_outcome_is_applied_once() {
    let resource = pr_resource_with_patch(None);
    let mut state = AppState::new(resource.clone(), String::new());
    let origin_tab_id = state.active_resource_tab_id();
    let request_id = state.begin_file_patch_loading();
    let outcome = |state: &mut AppState| {
        apply_fetch_outcome(
            state,
            FetchStage::FilePatches,
            FetchAction::LoadFilePatches { resource: Box::new(resource.clone()) },
            Err("rate limited".into()),
            FetchOwner::new(request_id, origin_tab_id),
            "12:40:00 UTC".into(),
        )
    };

    outcome(&mut state);
    assert_eq!(state.last_error.as_deref(), Some("rate limited"));
    assert!(state.file_patch_loading_message().is_none());

    state.last_error = None;
    outcome(&mut state);
    assert!(state.last_error.is_none());
    assert_eq!(state.resource.warnings, ["file patch context unavailable: rate limited"]);
}

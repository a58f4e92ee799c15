use ghzinga::app::app_state::{AppState, SCROLLBAR_VISIBLE_FRAMES};
use ghzinga::app::state::{BlockId, Tab};
use ghzinga::domain::{
    ActionContext, ActivityEntry, ActivityKind, ChangedFile, CheckRun, CheckStatus, Commit,
    PullRequest, ReactionCounts, Resource, ResourceId, ResourceKind,
};
use ghzinga::settings::{ScrollbarMode, ThemeName};

fn new_state(resource: Resource) -> AppState {
    AppState::new(resource, String::new())
}

fn issue_resource() -> Resource {
    Resource {
        id: ResourceId {
            owner: "owner".into(),
            repo: "repo".into(),
            number: 1,
            kind_hint: Some(ResourceKind::Issue),
        },
        title: "Issue".into(),
        url: "https://github.com/owner/repo/issues/1".into(),
        state: "OPEN".into(),
        author: "alice".into(),
        created_at: "now".into(),
        updated_at: "now".into(),
        labels: vec![],
        assignees: vec![],
        reactions: ReactionCounts::default(),
        body: "Body".into(),
        activity: vec![],
        related_resources: vec![],
        metadata: vec![],
        warnings: vec![],
        pull_request: None,
        actions: ActionContext::default(),
    }
}

fn activity_entry(id: &str) -> ActivityEntry {
    ActivityEntry {
        id: id.into(),
        kind: ActivityKind::Comment,
        author: "alice".into(),
        body: "comment".into(),
        updated_at: "now".into(),
        path: None,
        line: None,
        url: None,
        author_association: None,
        reactions: ReactionCounts::default(),
        includes_created_edit: false,
        is_minimized: false,
        minimized_reason: None,
        thread_id: None,
        thread_resolved: None,
        thread_outdated: None,
        edit: None,
    }
}

fn pr_resource() -> Resource {
    let mut resource = issue_resource();
    resource.id.kind_hint = Some(ResourceKind::PullRequest);
    resource.pull_request = Some(PullRequest {
        base_ref: "main".into(),
        head_ref: "topic".into(),
        requested_reviewers: vec![],
        review_decision: None,
        merge_state: None,
        additions: 3,
        deletions: 1,
        commits: vec![Commit {
            oid: "abc123".into(),
            message: "commit".into(),
            body: "commit body".into(),
            author: "alice".into(),
            authors: vec![],
            authored_at: None,
            committed_at: "now".into(),
            status: CheckStatus::Success,
            deployments: vec![],
        }],
        checks: vec![CheckRun {
            name: "ci".into(),
            status: CheckStatus::Failure,
            summary: Some("failed".into()),
            details_url: None,
            started_at: None,
            completed_at: None,
            raw_status: None,
            raw_conclusion: None,
        }],
        files: vec![ChangedFile {
            path: "src/lib.rs".into(),
            additions: 3,
            deletions: 1,
            change_type: "MODIFIED".into(),
            patch: Some("@@ -1 +1 @@".into()),
        }],
        metadata: vec![],
        allowed_merge_methods: vec![],
    });
    resource
}

#[test]
fn issue_tabs_are_limited_to_issue_views() {
    let state = new_state(issue_resource());

    assert_eq!(state.tabs(), &[Tab::Overview, Tab::Activity, Tab::Links]);
}

#[test]
fn next_tab_wraps() {
    let mut state = new_state(issue_resource());

    state.next_tab();
    state.next_tab();
    state.next_tab();

    assert_eq!(state.active_tab, Tab::Overview);
}

#[test]
fn toggles_expanded_blocks() {
    let mut state = new_state(issue_resource());
    let block = BlockId::Body;

    state.toggle_block(block.clone());
    assert!(state.block_expanded(&block));
    state.toggle_block(block.clone());
    assert!(!state.block_expanded(&block));
}

#[test]
fn expands_and_collapses_block_sets() {
    let mut state = new_state(issue_resource());
    let blocks = vec![BlockId::Body, BlockId::Activity("comment-1".into())];

    state.expand_blocks(blocks.clone());

    assert!(state.block_expanded(&BlockId::Body));
    assert!(state.block_expanded(&BlockId::Activity("comment-1".into())));

    state.collapse_blocks(blocks);

    assert!(!state.block_expanded(&BlockId::Body));
    assert!(!state.block_expanded(&BlockId::Activity("comment-1".into())));
}

#[test]
fn active_tab_expandable_blocks_follow_resource_and_tab() {
    let mut resource = pr_resource();
    resource.activity = vec![activity_entry("comment-1")];
    let mut state = new_state(resource);

    assert_eq!(
        state.active_tab_expandable_blocks(),
        vec![
            BlockId::Body,
            BlockId::Commit("abc123".into()),
            BlockId::Activity("comment-1".into())
        ]
    );

    state.set_tab(Tab::Files);

    assert_eq!(
        state.active_tab_expandable_blocks(),
        vec![
            BlockId::File("src/lib.rs".into()),
            BlockId::Patch("src/lib.rs".into())
        ]
    );
}

#[test]
fn toggles_active_tab_expansion() {
    let mut resource = issue_resource();
    resource.activity = vec![activity_entry("comment-1")];
    let mut state = new_state(resource);

    assert!(state.toggle_active_tab_expansion());
    assert!(state.block_expanded(&BlockId::Body));
    assert!(state.block_expanded(&BlockId::Activity("comment-1".into())));

    assert!(state.toggle_active_tab_expansion());
    assert!(!state.block_expanded(&BlockId::Body));
    assert!(!state.block_expanded(&BlockId::Activity("comment-1".into())));
}

#[test]
fn overlays_do_not_offer_active_tab_expansion() {
    let mut state = new_state(issue_resource());
    state.show_help = true;

    assert!(state.active_tab_expandable_blocks().is_empty());
    assert!(!state.toggle_active_tab_expansion());
    assert!(state.expanded_blocks.is_empty());
}

#[test]
fn stores_last_refresh_status() {
    let mut state = new_state(issue_resource());

    state.mark_refreshed("12:34:56 UTC".into(), true);

    assert_eq!(state.last_refreshed_at.as_deref(), Some("12:34:56 UTC"));
    assert_eq!(state.last_refresh_had_changes, Some(true));
}

#[test]
fn replace_resource_reset_view_clears_navigation_state() {
    let mut state = new_state(pr_resource());
    state.set_tab(Tab::Files);
    state.scroll = 8;
    state.toggle_block(BlockId::Body);
    state.last_refreshed_at = Some("12:34:56 UTC".into());
    state.last_refresh_had_changes = Some(true);
    state.last_refresh_changed_sections = vec!["summary".into()];
    let target = state.resource.id.clone();
    state.begin_loading(target, "opening owner/repo#2 from GitHub".into());

    state.replace_resource_reset_view(issue_resource());

    assert_eq!(state.active_tab, Tab::Overview);
    assert_eq!(state.scroll, 0);
    assert!(state.expanded_blocks.is_empty());
    assert!(state.last_refreshed_at.is_none());
    assert!(state.last_refresh_had_changes.is_none());
    assert!(state.last_refresh_changed_sections.is_empty());
    assert!(state.loading.is_none());
}

#[test]
fn replace_resource_preserve_tab_keeps_valid_tab_and_falls_back_for_invalid_tab() {
    let mut state = new_state(pr_resource());
    state.set_tab(Tab::Activity);

    state.replace_resource_preserve_tab(issue_resource());

    assert_eq!(state.active_tab, Tab::Activity);

    state = new_state(pr_resource());
    state.set_tab(Tab::Files);

    state.replace_resource_preserve_tab(issue_resource());

    assert_eq!(state.active_tab, Tab::Overview);
}

#[test]
fn loading_indicator_advances_through_ascii_frames() {
    let mut state = new_state(issue_resource());
    let target = state.resource.id.clone();
    state.begin_loading(target, "refreshing owner/repo#1 from GitHub".into());

    assert_eq!(state.loading_indicator(), Some("|"));
    state.advance_loading_frame();
    assert_eq!(state.loading_indicator(), Some("/"));
    state.advance_loading_frame();
    assert_eq!(state.loading_indicator(), Some("-"));
    state.advance_loading_frame();
    assert_eq!(state.loading_indicator(), Some("\\"));
    state.advance_loading_frame();
    assert_eq!(state.loading_indicator(), Some("|"));
}

#[test]
fn refreshed_resource_preserves_view_state_when_unchanged() {
    let mut state = new_state(issue_resource());
    state.set_tab(Tab::Activity);
    state.scroll = 7;
    state.toggle_block(BlockId::Activity("comment-1".into()));
    state.refresh_requested = true;
    state.last_error = Some("older error".into());

    let changed = state.apply_refreshed_resource(issue_resource(), "12:34:56 UTC".into());

    assert!(!changed);
    assert_eq!(state.active_tab, Tab::Activity);
    assert_eq!(state.scroll, 7);
    assert!(state.block_expanded(&BlockId::Activity("comment-1".into())));
    assert!(!state.refresh_requested);
    assert_eq!(state.last_error, None);
    assert_eq!(state.last_refreshed_at.as_deref(), Some("12:34:56 UTC"));
    assert_eq!(state.last_refresh_had_changes, Some(false));
    assert!(state.last_refresh_changed_sections.is_empty());
    assert!(state.status_message.is_none());
}

#[test]
fn refreshed_resource_records_changes_without_resetting_tab_or_scroll() {
    let mut state = new_state(issue_resource());
    state.set_tab(Tab::Activity);
    state.scroll = 4;
    let mut refreshed = issue_resource();
    refreshed.updated_at = "later".into();
    refreshed.body = "Changed body".into();
    refreshed.activity.push(ActivityEntry {
        id: "timeline-1".into(),
        kind: ActivityKind::Timeline,
        author: "alice".into(),
        body: "added label bug".into(),
        updated_at: "later".into(),
        path: None,
        line: None,
        url: None,
        author_association: None,
        reactions: ReactionCounts::default(),
        includes_created_edit: false,
        is_minimized: false,
        minimized_reason: None,
        thread_id: None,
        thread_resolved: None,
        thread_outdated: None,
        edit: None,
    });

    let changed = state.apply_refreshed_resource(refreshed, "12:35:00 UTC".into());

    assert!(changed);
    assert_eq!(state.active_tab, Tab::Activity);
    assert_eq!(state.scroll, 4);
    assert_eq!(state.resource.body, "Changed body");
    assert_eq!(state.last_refresh_had_changes, Some(true));
    assert_eq!(
        state.last_refresh_changed_sections,
        vec!["summary".to_string(), "activity".to_string()]
    );
    assert!(state.status_message.is_none());
}

#[test]
fn help_toggle_resets_scroll() {
    let mut state = new_state(issue_resource());
    state.scroll = 12;
    state.scroll_limit = 20;

    state.toggle_help();

    assert!(state.show_help);
    assert_eq!(state.scroll, 0);
    assert_eq!(state.scroll_limit, u16::MAX);
}

#[test]
fn add_resource_prompt_resets_overlay_scroll_without_touching_resource_scroll() {
    let mut state = new_state(issue_resource());
    state.scroll = 12;
    state.scroll_limit = 20;
    state.show_help = true;

    state.open_add_resource_prompt();

    assert!(!state.show_help);
    assert_eq!(state.scroll, 0);
    assert_eq!(state.scroll_limit, u16::MAX);

    state.close_add_resource_prompt();
    state.scroll = 7;
    state.scroll_limit = 20;

    state.open_add_resource_prompt();

    assert_eq!(state.scroll, 7);
    assert_eq!(state.scroll_limit, 20);
}

#[test]
fn transient_loading_cleanup_clears_prompt_errors() {
    let mut state = new_state(issue_resource());
    state.open_add_resource_prompt();
    state.set_add_resource_error("still loading: refreshing owner/repo#1 from GitHub".into());

    state.clear_transient_loading_status_messages();

    assert!(state.add_resource_prompt.as_ref().unwrap().error.is_none());

    state.set_add_resource_error("expected a GitHub PR/issue URL".into());

    state.clear_transient_loading_status_messages();

    assert_eq!(
        state.add_resource_prompt.as_ref().unwrap().error.as_deref(),
        Some("expected a GitHub PR/issue URL")
    );
}

#[test]
fn scroll_down_clamps_to_rendered_scroll_limit() {
    let mut state = new_state(issue_resource());
    state.set_scroll_limit(7);

    for _ in 0..20 {
        state.scroll_down(3);
    }

    assert_eq!(state.scroll, 7);
}

#[test]
fn scrolling_reveals_transient_scrollbar() {
    let mut state = new_state(issue_resource());
    state.set_scroll_limit(7);

    state.scroll_down(1);

    assert!(state.scrollbar_visible());
    state.advance_scrollbar_visibility();
    assert!(state.scrollbar_visible());
    for _ in 0..SCROLLBAR_VISIBLE_FRAMES {
        state.advance_scrollbar_visibility();
    }
    assert!(!state.scrollbar_visible());
}

#[test]
fn scrollbar_visibility_mode_controls_visibility() {
    let mut state = new_state(issue_resource());
    state.set_scroll_limit(7);

    assert!(!state.scrollbar_visible());

    state.set_scrollbar(ScrollbarMode::Always);
    assert!(state.scrollbar_visible());

    state.set_scrollbar(ScrollbarMode::Hidden);
    state.scroll_down(1);
    assert!(!state.scrollbar_visible());
}

#[test]
fn lowering_scroll_limit_clamps_existing_scroll() {
    let mut state = new_state(issue_resource());
    state.scroll = 40;

    state.set_scroll_limit(8);

    assert_eq!(state.scroll, 8);
}

#[test]
fn tab_change_resets_unknown_scroll_limit_until_next_render() {
    let mut state = new_state(issue_resource());
    state.set_scroll_limit(7);
    state.scroll = 7;

    state.next_tab();

    assert_eq!(state.scroll, 0);
    assert_eq!(state.scroll_limit, u16::MAX);
}

#[test]
fn add_resource_prompt_parses_relative_numbers_against_opened_repo() {
    let mut state = new_state(issue_resource());
    state.open_add_resource_prompt();
    state.add_resource_input_mut().unwrap().push_str("#77");

    let mut other = issue_resource();
    other.id.owner = "other".into();
    other.id.repo = "project".into();
    other.id.number = 2;
    other.title = "Other issue".into();
    state.open_resource_in_tab(other);

    let parsed = state.parse_add_resource_input().unwrap();

    assert_eq!(parsed.canonical_name(), "owner/repo#77");
}

#[test]
fn resource_tabs_preserve_view_state_when_switching() {
    let mut state = new_state(issue_resource());
    let mut second = issue_resource();
    second.id.number = 2;
    second.title = "Second issue".into();

    state.set_tab(Tab::Activity);
    state.scroll = 5;
    state.toggle_block(BlockId::Body);
    let current = state.resource.id.clone();
    state.history.push(current);
    state.mark_refreshed("12:34:56 UTC".into(), true);
    state.last_refresh_changed_sections = vec!["summary".into()];
    state.last_error = Some("first tab error".into());
    state.status_message = Some("first tab status".into());
    state.open_resource_in_tab(second);

    assert_eq!(state.resource.id.number, 2);
    assert_eq!(state.active_tab, Tab::Overview);
    assert!(state.history.is_empty());
    assert!(state.last_refreshed_at.is_none());
    assert_eq!(state.resource_tabs.len(), 2);
    assert!(state.resource_tab_bar_visible());

    state.switch_resource_tab(0);

    assert_eq!(state.resource.id.number, 1);
    assert_eq!(state.active_tab, Tab::Activity);
    assert_eq!(state.scroll, 5);
    assert!(state.block_expanded(&BlockId::Body));
    assert_eq!(state.history.len(), 1);
    assert_eq!(state.last_refreshed_at.as_deref(), Some("12:34:56 UTC"));
    assert_eq!(state.last_refresh_had_changes, Some(true));
    assert_eq!(state.last_refresh_changed_sections, ["summary"]);
    assert_eq!(state.last_error.as_deref(), Some("first tab error"));
    assert_eq!(state.status_message.as_deref(), Some("first tab status"));
}

#[test]
fn apply_to_inactive_resource_tab_preserves_error_and_status() {
    let mut state = new_state(issue_resource());
    let mut second = issue_resource();
    second.id.number = 2;
    second.title = "Second issue".into();
    state.open_resource_in_tab(second);
    let first_tab_id = state.resource_tabs[0].id;
    state.status_message = Some("active status".into());

    assert!(state.apply_to_resource_tab(first_tab_id, |state| {
        state.last_error = Some("inactive error".into());
        state.status_message = Some("inactive status".into());
    }));

    assert_eq!(state.resource.id.number, 2);
    assert_eq!(state.last_error, None);
    assert_eq!(state.status_message.as_deref(), Some("active status"));

    state.switch_resource_tab(0);

    assert_eq!(state.resource.id.number, 1);
    assert_eq!(state.last_error.as_deref(), Some("inactive error"));
    assert_eq!(state.status_message.as_deref(), Some("inactive status"));
}

#[test]
fn opening_resource_tab_does_not_close_later_prompt_input() {
    let mut state = new_state(issue_resource());
    let mut fetched = issue_resource();
    fetched.id.number = 2;
    fetched.title = "Fetched issue".into();
    state.open_add_resource_prompt();
    state
        .add_resource_input_mut()
        .unwrap()
        .push_str("owner/repo#3");

    state.open_resource_in_tab(fetched);

    assert_eq!(state.resource.id.number, 2);
    let prompt = state.add_resource_prompt.as_ref().unwrap();
    assert_eq!(prompt.input, "owner/repo#3");
}

#[test]
fn focusing_resource_tab_preserves_cached_resource() {
    let mut state = new_state(issue_resource());
    let mut cached = issue_resource();
    cached.id.number = 2;
    cached.title = "Cached issue".into();
    let cached_id = cached.id.clone();
    state.open_resource_in_tab(cached);
    state.switch_resource_tab(0);

    assert!(state.focus_resource_tab(&cached_id));

    assert_eq!(state.resource.id.number, 2);
    assert_eq!(state.resource.title, "Cached issue");
    assert_eq!(state.resource_tabs.len(), 2);
}

#[test]
fn closing_active_resource_tab_focuses_neighbor_and_keeps_last_tab() {
    let mut state = new_state(issue_resource());
    let mut second = issue_resource();
    second.id.number = 2;
    second.title = "Second issue".into();
    state.open_resource_in_tab(second);

    assert!(state.close_resource_tab(1));
    assert_eq!(state.resource.id.number, 1);
    assert_eq!(state.resource_tabs.len(), 1);
    assert!(!state.resource_tab_bar_visible());

    assert!(!state.close_resource_tab(0));
    assert_eq!(state.resource_tabs.len(), 1);
}

#[test]
fn closing_loading_origin_tab_clears_abandoned_request() {
    let mut state = new_state(issue_resource());
    let mut second = issue_resource();
    second.id.number = 2;
    second.title = "Second issue".into();
    state.open_resource_in_tab(second);
    let target = state.resource.id.clone();
    state.begin_loading(target, "refreshing owner/repo#2 from GitHub".into());
    state.switch_resource_tab(0);
    state.status_message = Some("still loading: refreshing owner/repo#2 from GitHub".into());

    assert!(state.close_resource_tab(1));

    assert!(state.loading.is_none());
    assert!(state.status_message.is_none());
    assert_eq!(state.resource.id.number, 1);
    assert_eq!(state.resource_tabs.len(), 1);
}

#[test]
fn previous_tab_undoes_next_tab() {
    let mut state = new_state(pr_resource());
    for _ in 0..6 {
        let before = state.active_tab;
        state.next_tab();
        assert_ne!(state.active_tab, before);
        state.previous_tab();
        assert_eq!(state.active_tab, before);
        state.next_tab();
    }
}

#[test]
fn cycling_themes_walks_the_list_and_wraps() {
    let mut state = new_state(issue_resource());
    state.theme = ThemeName::Default;
    assert!(state.cycle_theme());
    assert_eq!(state.theme, ThemeName::Catppuccin);
    state.theme = ThemeName::Vesper;
    assert!(state.cycle_theme());
    assert_eq!(state.theme, ThemeName::Default);
}

#[test]
fn links_into_the_shown_resource_focus_their_activity_entry() {
    let mut resource = issue_resource();
    let mut linked = activity_entry("c1");
    linked.url = Some("https://github.com/owner/repo/issues/1#issuecomment-7".into());
    resource.activity = vec![activity_entry("c0"), linked];
    let mut state = new_state(resource);

    assert!(!state.focus_activity_url("https://github.com/owner/other/issues/1#issuecomment-7"));
    assert!(!state.focus_activity_url("https://github.com/owner/repo/issues/1#issuecomment-8"));
    assert!(!state.focus_activity_url("https://github.com/owner/repo/issues/1"));
    assert_eq!(state.active_tab, Tab::Overview);

    assert!(state.focus_activity_url("https://github.com/owner/repo/issues/1#issuecomment-7"));
    assert_eq!(state.active_tab, Tab::Activity);
    assert!(state.block_expanded(&BlockId::Activity("c1".into())));
    assert_eq!(state.status_message.as_deref(), Some("focused linked activity"));
    assert_eq!(state.take_pending_activity_focus().as_deref(), Some("c1"));
    assert_eq!(state.take_pending_activity_focus(), None);
}

#[test]
fn session_tabs_restore_with_the_active_tab_clamped() {
    let mut state = new_state(issue_resource());
    let mut second = issue_resource();
    second.id.number = 2;
    state.open_resource_in_tab(second);
    let tabs = state.session_resource_tabs();
    assert_eq!(tabs.len(), 2);

    let restored = AppState::from_session_tabs(tabs, 9, "cfg.toml".into());
    assert_eq!(restored.resource.id.number, 2);
    assert_eq!(restored.resource_tabs.len(), 2);
    assert_eq!(restored.config_path, "cfg.toml");
}

#[test]
fn restored_session_shows_the_saved_view() {
    let mut state = new_state(pr_resource());
    let mut second = issue_resource();
    second.id.number = 2;
    state.open_resource_in_tab(second);
    state.set_tab(Tab::Activity);
    state.scroll_limit = 100;
    state.scroll = 7;
    state.status_message = Some("kept".into());
    let active = state.active_resource_tab;
    let tabs = state.session_resource_tabs();

    let restored = AppState::from_session_tabs(tabs, active, String::new());
    assert_eq!(restored.active_resource_tab, active);
    assert_eq!(restored.resource.id.number, 2);
    assert_eq!(restored.active_tab, Tab::Activity);
    assert_eq!(restored.scroll, 7);
    assert_eq!(restored.status_message.as_deref(), Some("kept"));
    assert_eq!(restored.resource_tabs.len(), 2);
}

#[test]
fn opening_a_resource_twice_keeps_one_tab_for_it() {
    let mut state = new_state(issue_resource());
    let mut second = issue_resource();
    second.id.number = 2;
    state.open_resource_in_tab(second.clone());
    state.open_resource_in_tab(issue_resource());
    state.open_resource_in_tab(second);
    assert_eq!(state.resource_tabs.len(), 2);
    let names: Vec<String> = state.resource_tabs.iter().map(|t| t.resource.id.canonical_name()).collect();
    assert_ne!(names[0], names[1]);
    assert_eq!(state.resource.id.number, 2);
}

#[test]
fn fixed_width_steps_stay_within_bounds() {
    let mut state = new_state(issue_resource());
    assert_eq!(state.fixed_width, 118);
    state.scroll = 5;
    assert!(state.increase_fixed_width(8));
    assert_eq!(state.fixed_width, 126);
    assert_eq!(state.scroll, 0);
    assert!(state.increase_fixed_width(100));
    assert_eq!(state.fixed_width, 180);
    assert!(!state.increase_fixed_width(8));
    assert_eq!(state.fixed_width, 180);
    assert!(state.decrease_fixed_width(200));
    assert_eq!(state.fixed_width, 72);
    assert!(!state.decrease_fixed_width(8));
    assert_eq!(state.fixed_width, 72);
}

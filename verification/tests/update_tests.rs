use ghzinga::app::app_state::AppState;
use ghzinga::app::state::{BlockId, Tab};
use ghzinga::app::update::{
    apply_add_resource_prompt_key, apply_quit_confirmation_key, apply_resource_link, apply_target,
    apply_resource_link_prompt_key, close_active_overlay, confirm_add_resource_prompt,
    current_resource_url, is_plain_shortcut, numbered_tab, visible_or_current_url, AppIntent,
    KeyCode, KeyPress, apply_event, apply_key, AppEvent, MouseInput, MouseKind,
};
use ghzinga::app::state::AddResourceMode;
use ghzinga::domain::{PullRequest, FULL_DEPTH_WARNING_HINT};
use ghzinga::domain::{
    ActionContext, ActivityEntry, ActivityKind, ReactionCounts, Resource, ResourceId, ResourceKind,
};
use ghzinga::input::hit::{hit_test, HitArea, HitTarget, Rect};
use ghzinga::settings::{SymbolMode, ThemeName};

fn issue_resource() -> Resource {
    Resource {
        id: ResourceId {
            owner: "owner".into(),
            repo: "repo".into(),
            number: 1,
            kind_hint: Some(ResourceKind::Issue),
        },
        title: "Issue".into(),
        url: "https://github.com/owner/repo/issues/1".into(),
        state: "OPEN".into(),
        author: "alice".into(),
        created_at: "now".into(),
        updated_at: "now".into(),
        labels: vec![],
        assignees: vec![],
        reactions: ReactionCounts::default(),
        body: "Body".into(),
        activity: vec![],
        related_resources: vec![],
        metadata: vec![],
        warnings: vec![],
        pull_request: None,
        actions: ActionContext::default(),
    }
}

fn key(code: KeyCode) -> KeyPress {
    KeyPress { code, control: false, alt: false, shift: false }
}

fn ctrl(ch: char) -> KeyPress {
    KeyPress { code: KeyCode::Char(ch), control: true, alt: false, shift: false }
}

fn other_id(number: u64) -> ResourceId {
    ResourceId { owner: "other".into(), repo: "project".into(), number, kind_hint: None }
}

#[test]
fn only_unmodified_keys_are_shortcuts() {
    assert!(is_plain_shortcut(key(KeyCode::Char('q'))));
    assert!(!is_plain_shortcut(ctrl('q')));
    assert!(!is_plain_shortcut(KeyPress { code: KeyCode::Char('q'), control: false, alt: true, shift: false }));
}

#[test]
fn digit_keys_pick_tabs_from_one() {
    let tabs = [Tab::Overview, Tab::Activity, Tab::Links];
    assert_eq!(numbered_tab('1', &tabs), Some(Tab::Overview));
    assert_eq!(numbered_tab('3', &tabs), Some(Tab::Links));
    assert_eq!(numbered_tab('4', &tabs), None);
    assert_eq!(numbered_tab('0', &tabs), None);
    assert_eq!(numbered_tab('x', &tabs), None);
}

#[test]
fn quit_question_takes_quit_dismiss_and_ignores_the_rest() {
    let mut state = AppState::new(issue_resource(), String::new());
    state.request_quit_confirmation();
    assert_eq!(apply_quit_confirmation_key(&mut state, key(KeyCode::Char('x'))), AppIntent::Nothing);
    assert!(state.quit_confirmation);
    assert!(!state.should_quit);

    assert_eq!(apply_quit_confirmation_key(&mut state, key(KeyCode::Char('n'))), AppIntent::Nothing);
    assert!(!state.quit_confirmation);
    assert!(!state.should_quit);

    state.request_quit_confirmation();
    assert_eq!(apply_quit_confirmation_key(&mut state, key(KeyCode::Enter)), AppIntent::Quit);
    assert!(state.should_quit);

    let mut again = AppState::new(issue_resource(), String::new());
    again.request_quit_confirmation();
    assert_eq!(apply_quit_confirmation_key(&mut again, ctrl('c')), AppIntent::Quit);
    assert!(again.should_quit);
}

#[test]
fn reference_prompt_edits_and_confirms_a_relative_number() {
    let mut state = AppState::new(issue_resource(), String::new());
    state.open_add_resource_prompt();
    for ch in ['4', '2', 'x'] {
        assert_eq!(apply_add_resource_prompt_key(&mut state, key(KeyCode::Char(ch))), AppIntent::Nothing);
    }
    apply_add_resource_prompt_key(&mut state, key(KeyCode::Backspace));
    assert_eq!(state.add_resource_prompt.as_ref().unwrap().input, "42");
    apply_add_resource_prompt_key(&mut state, ctrl('x'));
    assert_eq!(state.add_resource_prompt.as_ref().unwrap().input, "42");

    match apply_add_resource_prompt_key(&mut state, key(KeyCode::Enter)) {
        AppIntent::OpenResource(id) => {
            assert_eq!(id.owner, "owner");
            assert_eq!(id.repo, "repo");
            assert_eq!(id.number, 42);
        }
        other => panic!("unexpected {other:?}"),
    }
}

#[test]
fn replace_prompt_confirms_a_replacement() {
    let mut state = AppState::new(issue_resource(), String::new());
    state.open_replace_resource_prompt();
    for ch in "other/project#9".chars() {
        apply_add_resource_prompt_key(&mut state, key(KeyCode::Char(ch)));
    }
    match confirm_add_resource_prompt(&mut state) {
        AppIntent::ReplaceResource(id) => {
            assert_eq!(id.owner, "other");
            assert_eq!(id.number, 9);
        }
        other => panic!("unexpected {other:?}"),
    }
}

#[test]
fn unreadable_prompt_input_shows_the_error_and_stays_open() {
    let mut state = AppState::new(issue_resource(), String::new());
    state.open_add_resource_prompt();
    for ch in "not a ref".chars() {
        apply_add_resource_prompt_key(&mut state, key(KeyCode::Char(ch)));
    }
    assert_eq!(apply_add_resource_prompt_key(&mut state, key(KeyCode::Enter)), AppIntent::Nothing);
    let prompt = state.add_resource_prompt.as_ref().unwrap();
    assert!(prompt.error.as_deref().unwrap().starts_with("expected a GitHub PR/issue URL"));

    apply_add_resource_prompt_key(&mut state, key(KeyCode::Char('!')));
    assert!(state.add_resource_prompt.as_ref().unwrap().error.is_none());
}

#[test]
fn control_c_empties_the_prompt_then_closes_it() {
    let mut state = AppState::new(issue_resource(), String::new());
    state.open_add_resource_prompt();
    apply_add_resource_prompt_key(&mut state, key(KeyCode::Char('7')));
    apply_add_resource_prompt_key(&mut state, ctrl('c'));
    assert_eq!(state.add_resource_prompt.as_ref().unwrap().input, "");
    apply_add_resource_prompt_key(&mut state, ctrl('c'));
    assert!(state.add_resource_prompt.is_none());

    state.open_add_resource_prompt();
    apply_add_resource_prompt_key(&mut state, key(KeyCode::Char('q')));
    assert!(state.add_resource_prompt.is_none());
}

#[test]
fn link_prompt_follows_here_or_in_a_new_tab() {
    let mut state = AppState::new(issue_resource(), String::new());
    state.open_resource_link_prompt(other_id(5), None);
    assert_eq!(apply_resource_link_prompt_key(&mut state, key(KeyCode::Char('z'))), AppIntent::Nothing);
    assert!(state.resource_link_prompt.is_some());
    match apply_resource_link_prompt_key(&mut state, key(KeyCode::Char('t'))) {
        AppIntent::OpenResource(id) => assert_eq!(id.number, 5),
        other => panic!("unexpected {other:?}"),
    }
    assert!(state.resource_link_prompt.is_none());

    state.open_resource_link_prompt(other_id(6), None);
    match apply_resource_link_prompt_key(&mut state, key(KeyCode::Enter)) {
        AppIntent::Navigate(id) => assert_eq!(id.number, 6),
        other => panic!("unexpected {other:?}"),
    }

    state.open_resource_link_prompt(other_id(7), None);
    assert_eq!(apply_resource_link_prompt_key(&mut state, key(KeyCode::Esc)), AppIntent::Nothing);
    assert!(state.resource_link_prompt.is_none());
    assert_eq!(apply_resource_link_prompt_key(&mut state, key(KeyCode::Enter)), AppIntent::Nothing);
}

#[test]
fn overlays_close_from_the_top() {
    let mut state = AppState::new(issue_resource(), String::new());
    assert!(!close_active_overlay(&mut state));
    state.open_resource_link_prompt(other_id(2), None);
    state.show_help = true;
    state.show_settings = true;

    assert!(close_active_overlay(&mut state));
    assert!(state.resource_link_prompt.is_none());
    assert!(state.show_help);
    assert!(close_active_overlay(&mut state));
    assert!(!state.show_help);
    assert!(state.show_settings);
    assert!(close_active_overlay(&mut state));
    assert!(!state.show_settings);
    assert!(!close_active_overlay(&mut state));

    state.open_add_resource_prompt();
    assert!(close_active_overlay(&mut state));
    assert!(state.add_resource_prompt.is_none());
}

#[test]
fn links_to_the_shown_resource_do_not_open_a_prompt() {
    let mut state = AppState::new(issue_resource(), String::new());
    let same = ResourceId::parse("owner/repo#1").unwrap();
    assert_eq!(apply_resource_link(&mut state, same, None), AppIntent::Nothing);
    assert_eq!(state.status_message.as_deref(), Some("already viewing owner/repo#1"));
    assert!(state.resource_link_prompt.is_none());

    assert_eq!(apply_resource_link(&mut state, other_id(3), Some("https://example.com".into())), AppIntent::Nothing);
    let prompt = state.resource_link_prompt.as_ref().unwrap();
    assert_eq!(prompt.id.number, 3);
    assert_eq!(prompt.url.as_deref(), Some("https://example.com"));
}

#[test]
fn url_in_view_prefers_the_first_visible_link() {
    let mut state = AppState::new(issue_resource(), String::new());
    assert_eq!(current_resource_url(&state), "https://github.com/owner/repo/issues/1");
    assert_eq!(visible_or_current_url(&state), "https://github.com/owner/repo/issues/1");

    state.hit_areas = vec![
        HitArea::new(Rect::new(0, 0, 5, 1), HitTarget::Refresh),
        HitArea::new(Rect::new(0, 1, 5, 1), HitTarget::Navigate(other_id(8))),
        HitArea::new(Rect::new(0, 2, 5, 1), HitTarget::OpenUrl("https://example.com/x".into())),
    ];
    assert_eq!(visible_or_current_url(&state), "https://github.com/other/project/issues/8");
}

fn activity_entry(id: &str, url: &str) -> ActivityEntry {
    ActivityEntry {
        edit: None,
        id: id.into(),
        kind: ActivityKind::Comment,
        author: "alice".into(),
        body: "comment".into(),
        updated_at: "now".into(),
        path: None,
        line: None,
        url: Some(url.into()),
        author_association: None,
        reactions: ReactionCounts::default(),
        includes_created_edit: false,
        is_minimized: false,
        minimized_reason: None,
        thread_id: None,
        thread_resolved: None,
        thread_outdated: None,
    }
}

#[test]
fn different_resource_link_opens_choice_prompt_and_confirms_here() {
    let mut state = AppState::new(issue_resource(), String::new());
    let id = ResourceId {
        owner: "owner".into(),
        repo: "repo".into(),
        number: 2,
        kind_hint: Some(ResourceKind::PullRequest),
    };

    let prompt = apply_resource_link(
        &mut state,
        id.clone(),
        Some("https://github.com/owner/repo/pull/2".into()),
    );
    let confirm = apply_resource_link_prompt_key(&mut state, key(KeyCode::Enter));

    assert_eq!(prompt, AppIntent::Nothing);
    assert_eq!(confirm, AppIntent::Navigate(id));
    assert!(state.resource_link_prompt.is_none());
}

#[test]
fn different_resource_link_can_open_in_new_tab_from_prompt() {
    let mut state = AppState::new(issue_resource(), String::new());
    let id = ResourceId {
        owner: "owner".into(),
        repo: "repo".into(),
        number: 2,
        kind_hint: Some(ResourceKind::Issue),
    };

    apply_resource_link(&mut state, id.clone(), None);
    let intent = apply_resource_link_prompt_key(&mut state, key(KeyCode::Char('n')));

    assert_eq!(intent, AppIntent::OpenResource(id));
    assert!(state.resource_link_prompt.is_none());
}

#[test]
fn same_resource_comment_link_focuses_activity_without_prompt() {
    let mut resource = issue_resource();
    resource.activity = vec![activity_entry(
        "comment-1",
        "https://github.com/owner/repo/issues/1#issuecomment-1",
    )];
    let mut state = AppState::new(resource, String::new());

    let intent = apply_resource_link(
        &mut state,
        ResourceId {
            owner: "owner".into(),
            repo: "repo".into(),
            number: 1,
            kind_hint: Some(ResourceKind::Issue),
        },
        Some("https://github.com/owner/repo/issues/1#issuecomment-1".into()),
    );

    assert_eq!(intent, AppIntent::Nothing);
    assert!(state.resource_link_prompt.is_none());
    assert_eq!(state.active_tab, Tab::Activity);
    assert!(state.block_expanded(&BlockId::Activity("comment-1".into())));
    assert_eq!(
        state.take_pending_activity_focus().as_deref(),
        Some("comment-1")
    );
}

#[test]
fn invalid_resource_prompt_input_stays_open_with_error() {
    let mut state = AppState::new(issue_resource(), String::new());
    state.open_add_resource_prompt();
    state
        .add_resource_input_mut()
        .unwrap()
        .push_str("not a resource");

    let intent = apply_add_resource_prompt_key(&mut state, key(KeyCode::Enter));

    assert_eq!(intent, AppIntent::Nothing);
    let prompt = state.add_resource_prompt.as_ref().unwrap();
    assert!(prompt.error.is_some());
}

#[test]
fn ctrl_c_in_resource_prompt_clears_input_then_closes_when_empty() {
    let mut state = AppState::new(issue_resource(), String::new());
    state.open_add_resource_prompt();
    state
        .add_resource_input_mut()
        .unwrap()
        .push_str("owner/repo#42");

    let first = apply_add_resource_prompt_key(&mut state, ctrl('c'));
    let second = apply_add_resource_prompt_key(&mut state, ctrl('c'));

    assert_eq!(first, AppIntent::Nothing);
    assert_eq!(second, AppIntent::Nothing);
    assert!(!state.should_quit);
    assert!(state.add_resource_prompt.is_none());
}

#[test]
fn keyboard_q_closes_resource_prompt_without_quitting() {
    let mut state = AppState::new(issue_resource(), String::new());
    state.open_add_resource_prompt();
    state
        .add_resource_input_mut()
        .unwrap()
        .push_str("owner/repo#42");

    let intent = apply_add_resource_prompt_key(&mut state, key(KeyCode::Char('q')));

    assert_eq!(intent, AppIntent::Nothing);
    assert!(state.add_resource_prompt.is_none());
    assert!(!state.should_quit);
}

#[test]
fn mouse_click_on_refresh_target_requests_refresh() {
    let mut state = AppState::new(issue_resource(), String::new());
    state.hit_areas.push(HitArea::new(Rect::new(0, 0, 9, 1), HitTarget::Refresh));

    let target = hit_test(&state.hit_areas, 1, 0).unwrap();
    let intent = apply_target(&mut state, target);

    assert_eq!(intent, AppIntent::Refresh);
    assert!(state.refresh_requested);
}

#[test]
fn open_current_target_requests_visible_or_current_url() {
    let mut state = AppState::new(issue_resource(), String::new());
    assert_eq!(
        apply_target(&mut state, HitTarget::OpenCurrent),
        AppIntent::OpenUrl("https://github.com/owner/repo/issues/1".into())
    );
    state.hit_areas.push(HitArea::new(
        Rect::new(0, 1, 10, 1),
        HitTarget::Navigate(ResourceId {
            owner: "owner".into(),
            repo: "repo".into(),
            number: 2,
            kind_hint: Some(ResourceKind::PullRequest),
        }),
    ));
    assert_eq!(
        apply_target(&mut state, HitTarget::OpenCurrent),
        AppIntent::OpenUrl("https://github.com/owner/repo/pull/2".into())
    );
}

#[test]
fn settings_targets_change_preferences_and_ask_to_save() {
    let mut state = AppState::new(issue_resource(), String::new());
    assert_eq!(apply_target(&mut state, HitTarget::Settings), AppIntent::Nothing);
    assert!(state.show_settings);
    assert_eq!(apply_target(&mut state, HitTarget::SetTheme("nord".into())), AppIntent::SaveSettings);
    assert_eq!(state.theme, ThemeName::Nord);
    assert_eq!(apply_target(&mut state, HitTarget::SetTheme("nord".into())), AppIntent::Nothing);
    assert_eq!(apply_target(&mut state, HitTarget::SetTheme("loud".into())), AppIntent::Nothing);
    assert_eq!(state.theme, ThemeName::Nord);
    let other = if state.symbols == SymbolMode::Ascii { "emoji" } else { "ascii" };
    assert_eq!(apply_target(&mut state, HitTarget::SetSymbols(other.into())), AppIntent::SaveSettings);
    assert_eq!(apply_target(&mut state, HitTarget::CloseSettings), AppIntent::Nothing);
    assert!(!state.show_settings);
}

#[test]
fn content_targets_change_tabs_blocks_and_links() {
    let mut state = AppState::new(issue_resource(), String::new());
    assert_eq!(apply_target(&mut state, HitTarget::Tab(Tab::Activity)), AppIntent::Nothing);
    assert_eq!(state.active_tab, Tab::Activity);
    apply_target(&mut state, HitTarget::ToggleBlock(BlockId::Body));
    assert!(state.block_expanded(&BlockId::Body));
    apply_target(&mut state, HitTarget::ToggleBlock(BlockId::Body));
    assert!(!state.block_expanded(&BlockId::Body));
    assert_eq!(
        apply_target(&mut state, HitTarget::OpenUrl("https://example.com".into())),
        AppIntent::OpenUrl("https://example.com".into())
    );
    assert_eq!(apply_target(&mut state, HitTarget::Navigate(other_id(4))), AppIntent::Navigate(other_id(4)));
    assert_eq!(apply_target(&mut state, HitTarget::Quit), AppIntent::Nothing);
    assert!(state.quit_confirmation);
}

fn shifted(code: KeyCode) -> KeyPress {
    KeyPress { code, control: false, alt: false, shift: true }
}

fn press(state: &mut AppState, k: KeyPress) -> AppIntent {
    apply_event(state, AppEvent::Key(k))
}

fn click(state: &mut AppState, kind: MouseKind, column: u16, row: u16) -> AppIntent {
    apply_event(state, AppEvent::Mouse(MouseInput { kind, column, row }))
}

fn resource_with_number(number: u64) -> Resource {
    let mut resource = issue_resource();
    resource.id.number = number;
    resource.title = format!("Issue {number}");
    resource.url = format!("https://github.com/owner/repo/issues/{number}");
    resource
}

fn state_with_resource_tabs() -> AppState {
    let mut state = AppState::new(resource_with_number(1), String::new());
    state.open_resource_in_tab(resource_with_number(2));
    state.open_resource_in_tab(resource_with_number(3));
    state
}

fn pr_resource() -> Resource {
    let mut resource = issue_resource();
    resource.id.kind_hint = Some(ResourceKind::PullRequest);
    resource.url = "https://github.com/owner/repo/pull/1".into();
    resource.pull_request = Some(PullRequest {
        allowed_merge_methods: Vec::new(),
        base_ref: "main".into(),
        head_ref: "topic".into(),
        requested_reviewers: vec![],
        review_decision: None,
        merge_state: None,
        additions: 0,
        deletions: 0,
        commits: vec![],
        checks: vec![],
        files: vec![],
        metadata: vec![],
    });
    resource
}

#[test]
fn keyboard_tab_changes_active_resource_tab() {
    let mut state = state_with_resource_tabs();
    state.switch_resource_tab(0);
    press(&mut state, key(KeyCode::Tab));
    assert_eq!(state.active_resource_tab, 1);
    assert_eq!(state.resource.id.number, 2);
}

#[test]
fn shift_tab_changes_active_resource_tab() {
    let mut state = state_with_resource_tabs();
    state.switch_resource_tab(0);
    press(&mut state, shifted(KeyCode::BackTab));
    assert_eq!(state.active_resource_tab, 2);
    assert_eq!(state.resource.id.number, 3);
}

#[test]
fn literal_tab_character_changes_active_resource_tab_for_tmux() {
    let mut state = state_with_resource_tabs();
    state.switch_resource_tab(0);
    press(&mut state, key(KeyCode::Char('\t')));
    assert_eq!(state.active_resource_tab, 1);
    assert_eq!(state.resource.id.number, 2);
}

#[test]
fn ctrl_i_changes_active_resource_tab_for_tmux_tab_encoding() {
    let mut state = state_with_resource_tabs();
    state.switch_resource_tab(0);
    press(&mut state, ctrl('i'));
    assert_eq!(state.active_resource_tab, 1);
    assert_eq!(state.resource.id.number, 2);
}

#[test]
fn left_and_right_change_content_tabs() {
    let mut state = AppState::new(pr_resource(), String::new());
    press(&mut state, key(KeyCode::Right));
    assert_eq!(state.active_tab, Tab::Activity);
    press(&mut state, key(KeyCode::Left));
    assert_eq!(state.active_tab, Tab::Overview);
}

#[test]
fn shift_left_and_right_change_resource_tabs() {
    let mut state = state_with_resource_tabs();
    state.switch_resource_tab(1);
    state.set_tab(Tab::Activity);
    press(&mut state, shifted(KeyCode::Right));
    assert_eq!(state.active_resource_tab, 2);
    assert_eq!(state.resource.id.number, 3);
    assert_eq!(state.active_tab, Tab::Overview);
    press(&mut state, shifted(KeyCode::Left));
    assert_eq!(state.active_resource_tab, 1);
    assert_eq!(state.resource.id.number, 2);
}

#[test]
fn vim_hjkl_mirror_arrow_keys() {
    let mut state = AppState::new(pr_resource(), String::new());
    state.set_scroll_limit(10);
    state.scroll = 5;
    press(&mut state, key(KeyCode::Char('j')));
    assert_eq!(state.scroll, 6);
    press(&mut state, key(KeyCode::Char('k')));
    assert_eq!(state.scroll, 5);
    press(&mut state, key(KeyCode::Char('l')));
    assert_eq!(state.active_tab, Tab::Activity);
    press(&mut state, key(KeyCode::Char('h')));
    assert_eq!(state.active_tab, Tab::Overview);
}

#[test]
fn number_keys_jump_to_visible_pr_tabs() {
    for (shortcut, expected) in [
        ('1', Tab::Overview),
        ('2', Tab::Activity),
        ('3', Tab::Commits),
        ('4', Tab::Checks),
        ('5', Tab::Files),
        ('6', Tab::Links),
    ] {
        let mut state = AppState::new(pr_resource(), String::new());
        state.scroll = 5;
        let intent = press(&mut state, key(KeyCode::Char(shortcut)));
        assert_eq!(intent, AppIntent::Nothing, "{shortcut}");
        assert_eq!(state.active_tab, expected, "{shortcut}");
        assert_eq!(state.scroll, 0, "{shortcut}");
    }
}

#[test]
fn number_keys_jump_to_visible_issue_tabs() {
    let mut state = AppState::new(issue_resource(), String::new());
    state.scroll = 5;
    press(&mut state, key(KeyCode::Char('3')));
    assert_eq!(state.active_tab, Tab::Links);
    assert_eq!(state.scroll, 0);
}

#[test]
fn unsupported_number_key_keeps_current_tab() {
    let mut state = AppState::new(issue_resource(), String::new());
    state.set_tab(Tab::Activity);
    state.scroll = 5;
    press(&mut state, key(KeyCode::Char('6')));
    assert_eq!(state.active_tab, Tab::Activity);
    assert_eq!(state.scroll, 5);
}

#[test]
fn number_keys_are_inert_when_modified_or_settings_are_open() {
    let mut state = AppState::new(pr_resource(), String::new());
    press(&mut state, ctrl('4'));
    assert_eq!(state.active_tab, Tab::Overview);
    state.show_settings = true;
    press(&mut state, key(KeyCode::Char('4')));
    assert_eq!(state.active_tab, Tab::Overview);
}

#[test]
fn control_letter_shortcuts_are_limited_to_tmux_safe_exceptions() {
    for shortcut in ['a', 'b', 'd', 'e', 'f', 'o', 'q', 'r', 's', 'u', 'v', 'y', '?'] {
        let mut state = AppState::new(issue_resource(), String::new());
        state.scroll = 4;
        state.set_scroll_limit(9);
        let intent = press(&mut state, ctrl(shortcut));
        assert_eq!(intent, AppIntent::Nothing, "Ctrl-{shortcut} should be inert");
        assert_eq!(state.active_tab, Tab::Overview, "Ctrl-{shortcut}");
        assert_eq!(state.scroll, 4, "Ctrl-{shortcut}");
        assert!(!state.refresh_requested, "Ctrl-{shortcut}");
        assert!(!state.should_quit, "Ctrl-{shortcut}");
        assert!(!state.show_help, "Ctrl-{shortcut}");
        assert!(!state.show_settings, "Ctrl-{shortcut}");
        assert!(!state.reverse_chronological, "Ctrl-{shortcut}");
        assert!(state.expanded_blocks.is_empty(), "Ctrl-{shortcut}");
    }
}

#[test]
fn settings_control_shortcuts_do_not_change_preferences() {
    for shortcut in ['t', 'y', 'p', 'w', 'b', '+', '-'] {
        let mut state = AppState::new(issue_resource(), String::new());
        state.show_settings = true;
        let theme = state.theme;
        let symbols = state.symbols;
        let spacing = state.spacing;
        let width_mode = state.width_mode;
        let fixed_width = state.fixed_width;
        let scrollbar = state.scrollbar;
        let intent = press(&mut state, ctrl(shortcut));
        assert_eq!(intent, AppIntent::Nothing, "Ctrl-{shortcut} should be inert");
        assert_eq!(state.theme, theme, "Ctrl-{shortcut}");
        assert_eq!(state.symbols, symbols, "Ctrl-{shortcut}");
        assert_eq!(state.spacing, spacing, "Ctrl-{shortcut}");
        assert_eq!(state.width_mode, width_mode, "Ctrl-{shortcut}");
        assert_eq!(state.fixed_width, fixed_width, "Ctrl-{shortcut}");
        assert_eq!(state.scrollbar, scrollbar, "Ctrl-{shortcut}");
        assert!(state.show_settings, "Ctrl-{shortcut}");
    }
}

#[test]
fn ctrl_c_quits() {
    let mut state = AppState::new(issue_resource(), String::new());
    let intent = press(&mut state, ctrl('c'));
    assert_eq!(intent, AppIntent::Quit);
    assert!(state.should_quit);
}

#[test]
fn keyboard_v_toggles_feed_order_and_resets_scroll() {
    let mut state = AppState::new(issue_resource(), String::new());
    state.scroll = 7;
    state.set_scroll_limit(10);
    press(&mut state, key(KeyCode::Char('v')));
    assert!(state.reverse_chronological);
    assert_eq!(state.scroll, 0);
    assert_eq!(state.scroll_limit, u16::MAX);
}

#[test]
fn keyboard_a_toggles_current_tab_expansion() {
    let mut state = AppState::new(issue_resource(), String::new());
    let intent = press(&mut state, key(KeyCode::Char('a')));
    assert_eq!(intent, AppIntent::Nothing);
    assert!(state.block_expanded(&BlockId::Body));
    let intent = press(&mut state, key(KeyCode::Char('a')));
    assert_eq!(intent, AppIntent::Nothing);
    assert!(!state.block_expanded(&BlockId::Body));
}

#[test]
fn keyboard_a_is_inert_for_overlays() {
    let mut state = AppState::new(issue_resource(), String::new());
    state.show_help = true;
    let intent = press(&mut state, key(KeyCode::Char('a')));
    assert_eq!(intent, AppIntent::Nothing);
    assert!(state.expanded_blocks.is_empty());
}

#[test]
fn keyboard_f_loads_full_depth_only_when_partial_warning_is_present() {
    let mut complete_state = AppState::new(issue_resource(), String::new());
    let intent = press(&mut complete_state, key(KeyCode::Char('f')));
    assert_eq!(intent, AppIntent::Nothing);

    let mut partial_state = AppState::new(issue_resource(), String::new());
    partial_state.resource.warnings.push(format!(
        "normal API depth shows the first 100 only for comments; {FULL_DEPTH_WARNING_HINT} for exhaustive pagination"
    ));
    let intent = press(&mut partial_state, key(KeyCode::Char('f')));
    assert_eq!(intent, AppIntent::LoadFullDepth);
}

#[test]
fn mouse_click_on_tab_changes_active_tab() {
    let mut state = AppState::new(issue_resource(), String::new());
    state.hit_areas.push(HitArea::new(Rect::new(0, 0, 10, 1), HitTarget::Tab(Tab::Links)));
    click(&mut state, MouseKind::LeftDown, 4, 0);
    assert_eq!(state.active_tab, Tab::Links);
}

#[test]
fn opening_resource_prompt_clears_stale_click_targets() {
    let mut state = AppState::new(issue_resource(), String::new());
    state.hit_areas.push(HitArea::new(Rect::new(0, 0, 10, 1), HitTarget::Tab(Tab::Links)));
    let open = press(&mut state, key(KeyCode::Char('n')));
    let clicked = click(&mut state, MouseKind::LeftDown, 4, 0);
    assert_eq!(open, AppIntent::Nothing);
    assert_eq!(clicked, AppIntent::Nothing);
    assert!(state.add_resource_prompt.is_some());
    assert_eq!(state.active_tab, Tab::Overview);
}

#[test]
fn mouse_wheel_scrolls_without_using_ctrl_shortcuts() {
    let mut state = AppState::new(issue_resource(), String::new());
    click(&mut state, MouseKind::ScrollDown, 4, 4);
    assert_eq!(state.scroll, 3);
}

#[test]
fn repeated_scroll_down_at_bottom_is_idempotent() {
    let mut state = AppState::new(issue_resource(), String::new());
    state.set_scroll_limit(9);
    state.scroll_to_bottom();
    for _ in 0..20 {
        click(&mut state, MouseKind::ScrollDown, 4, 4);
    }
    assert_eq!(state.scroll, 9);
}

#[test]
fn repeated_key_down_at_bottom_is_idempotent() {
    let mut state = AppState::new(issue_resource(), String::new());
    state.set_scroll_limit(4);
    state.scroll_to_bottom();
    for _ in 0..20 {
        press(&mut state, key(KeyCode::Down));
    }
    assert_eq!(state.scroll, 4);
}

#[test]
fn repeated_page_down_at_bottom_is_idempotent() {
    let mut state = AppState::new(issue_resource(), String::new());
    state.set_scroll_limit(12);
    state.scroll_to_bottom();
    for _ in 0..20 {
        press(&mut state, key(KeyCode::PageDown));
    }
    assert_eq!(state.scroll, 12);
}

#[test]
fn keyboard_o_opens_replace_current_resource_prompt() {
    let mut state = AppState::new(issue_resource(), String::new());
    let intent = press(&mut state, key(KeyCode::Char('o')));
    assert_eq!(intent, AppIntent::Nothing);
    assert!(matches!(
        state.add_resource_prompt.as_ref().map(|prompt| prompt.mode),
        Some(AddResourceMode::ReplaceCurrent)
    ));
}

#[test]
fn replace_current_resource_prompt_confirms_replace_intent() {
    let mut state = AppState::new(issue_resource(), String::new());
    state.open_replace_resource_prompt();
    state.add_resource_input_mut().unwrap().push_str("#42");
    let intent = press(&mut state, key(KeyCode::Enter));
    assert_eq!(
        intent,
        AppIntent::ReplaceResource(ResourceId {
            owner: "owner".into(),
            repo: "repo".into(),
            number: 42,
            kind_hint: None,
        })
    );
}

#[test]
fn keyboard_y_falls_back_to_current_resource_url() {
    let mut state = AppState::new(issue_resource(), String::new());
    let intent = press(&mut state, key(KeyCode::Char('y')));
    assert_eq!(intent, AppIntent::CopyUrl("https://github.com/owner/repo/issues/1".into()));
}

#[test]
fn keyboard_y_copies_first_visible_open_url() {
    let mut state = AppState::new(issue_resource(), String::new());
    state.hit_areas.push(HitArea::new(Rect::new(0, 0, 10, 1), HitTarget::ToggleBlock(BlockId::Body)));
    state.hit_areas.push(HitArea::new(
        Rect::new(0, 1, 10, 1),
        HitTarget::OpenUrl("https://github.com/owner/repo/actions/runs/1".into()),
    ));
    let intent = press(&mut state, key(KeyCode::Char('y')));
    assert_eq!(intent, AppIntent::CopyUrl("https://github.com/owner/repo/actions/runs/1".into()));
}

#[test]
fn keyboard_y_copies_first_visible_navigation_target() {
    let mut state = AppState::new(issue_resource(), String::new());
    state.hit_areas.push(HitArea::new(
        Rect::new(0, 0, 10, 1),
        HitTarget::Navigate(ResourceId {
            owner: "owner".into(),
            repo: "repo".into(),
            number: 2,
            kind_hint: Some(ResourceKind::PullRequest),
        }),
    ));
    let intent = press(&mut state, key(KeyCode::Char('y')));
    assert_eq!(intent, AppIntent::CopyUrl("https://github.com/owner/repo/pull/2".into()));
}

#[test]
fn keyboard_enter_activates_first_visible_content_action() {
    let mut state = AppState::new(issue_resource(), String::new());
    state.hit_areas.push(HitArea::new(Rect::new(0, 0, 10, 1), HitTarget::Tab(Tab::Links)));
    state.hit_areas.push(HitArea::new(Rect::new(0, 1, 10, 1), HitTarget::ToggleBlock(BlockId::Body)));
    let intent = press(&mut state, key(KeyCode::Enter));
    assert_eq!(intent, AppIntent::Nothing);
    assert!(state.block_expanded(&BlockId::Body));
    assert_eq!(state.active_tab, Tab::Overview);
}

#[test]
fn keyboard_enter_navigates_to_first_visible_content_link() {
    let mut state = AppState::new(issue_resource(), String::new());
    let id = ResourceId::from_owner_repo_number("owner/repo", "2").unwrap();
    state.hit_areas.push(HitArea::new(Rect::new(0, 0, 10, 1), HitTarget::Navigate(id.clone())));
    let intent = press(&mut state, key(KeyCode::Enter));
    assert_eq!(intent, AppIntent::Navigate(id));
}

#[test]
fn keyboard_enter_opens_first_visible_url_action() {
    let mut state = AppState::new(issue_resource(), String::new());
    state.hit_areas.push(HitArea::new(
        Rect::new(0, 0, 10, 1),
        HitTarget::OpenUrl("https://github.com/owner/repo/actions/runs/1".into()),
    ));
    let intent = press(&mut state, key(KeyCode::Enter));
    assert_eq!(intent, AppIntent::OpenUrl("https://github.com/owner/repo/actions/runs/1".into()));
}

#[test]
fn keyboard_q_closes_overlays_before_quit_confirmation() {
    let mut state = AppState::new(issue_resource(), String::new());
    state.show_help = true;
    let close_help = press(&mut state, key(KeyCode::Char('q')));
    let ask_quit = press(&mut state, key(KeyCode::Char('q')));
    assert_eq!(close_help, AppIntent::Nothing);
    assert_eq!(ask_quit, AppIntent::Nothing);
    assert!(!state.show_help);
    assert!(state.quit_confirmation);
    assert!(!state.should_quit);
}

#[test]
fn keyboard_q_confirms_quit_only_after_confirmation_is_visible() {
    let mut state = AppState::new(issue_resource(), String::new());
    let ask_quit = press(&mut state, key(KeyCode::Char('q')));
    let confirm_quit = press(&mut state, key(KeyCode::Char('q')));
    assert_eq!(ask_quit, AppIntent::Nothing);
    assert_eq!(confirm_quit, AppIntent::Quit);
    assert!(state.should_quit);
}

#[test]
fn keyboard_x_closes_current_resource_tab_only_in_normal_view() {
    let mut state = AppState::new(issue_resource(), String::new());
    let mut second = issue_resource();
    second.id.number = 2;
    second.title = "Second".into();
    state.open_resource_in_tab(second);
    assert_eq!(state.active_resource_tab, 1);
    let close = press(&mut state, key(KeyCode::Char('x')));
    assert_eq!(close, AppIntent::Nothing);
    assert_eq!(state.resource_tabs.len(), 1);
    assert_eq!(state.resource.id.number, 1);
    state.show_help = true;
    let ignored = press(&mut state, key(KeyCode::Char('x')));
    assert_eq!(ignored, AppIntent::Nothing);
    assert!(state.show_help);
    assert_eq!(state.resource_tabs.len(), 1);
}

#[test]
fn keyboard_x_keeps_last_resource_tab_open() {
    let mut state = AppState::new(issue_resource(), String::new());
    let intent = press(&mut state, key(KeyCode::Char('x')));
    assert_eq!(intent, AppIntent::Nothing);
    assert_eq!(state.resource_tabs.len(), 1);
    assert_eq!(state.resource.id.number, 1);
}

#[test]
fn backspace_requests_resource_history_navigation() {
    let mut state = AppState::new(issue_resource(), String::new());
    assert_eq!(press(&mut state, key(KeyCode::Backspace)), AppIntent::Back);
}

#[test]
fn keyboard_question_mark_toggles_help_overlay() {
    let mut state = AppState::new(issue_resource(), String::new());
    press(&mut state, key(KeyCode::Char('?')));
    assert!(state.show_help);
    press(&mut state, key(KeyCode::Char('?')));
    assert!(!state.show_help);
}

#[test]
fn keyboard_end_jumps_to_bottom_sentinel() {
    let mut state = AppState::new(issue_resource(), String::new());
    press(&mut state, key(KeyCode::End));
    assert_eq!(state.scroll, u16::MAX);
}

#[test]
fn pasted_text_lands_on_one_line_in_the_prompt() {
    let mut state = AppState::new(issue_resource(), String::new());
    assert_eq!(apply_event(&mut state, AppEvent::Paste("ignored".into())), AppIntent::Nothing);
    state.open_add_resource_prompt();
    apply_event(&mut state, AppEvent::Paste("  owner/repo\n#7  ".into()));
    assert_eq!(state.add_resource_prompt.as_ref().unwrap().input, "owner/repo #7");
    assert_eq!(apply_event(&mut state, AppEvent::Tick), AppIntent::Nothing);
}

#[test]
fn scrollbar_drag_follows_the_mouse_and_ends_on_release() {
    let mut state = AppState::new(issue_resource(), String::new());
    state.set_scroll_limit(100);
    state.begin_scrollbar_drag(0, 11, 0);
    click(&mut state, MouseKind::LeftDrag, 0, 10);
    assert_eq!(state.scroll, 100);
    click(&mut state, MouseKind::LeftUp, 0, 10);
    assert!(state.scrollbar_drag.is_none());
    assert_eq!(apply_key(&mut state, key(KeyCode::Home)), AppIntent::Nothing);
    assert_eq!(state.scroll, 0);
}

#[test]
fn keyboard_s_toggles_settings() {
    let mut state = AppState::new(issue_resource(), String::new());
    press(&mut state, key(KeyCode::Char('s')));
    assert!(state.show_settings);
    press(&mut state, key(KeyCode::Esc));
    assert!(!state.show_settings);
}

#[test]
fn mouse_click_on_help_target_toggles_help() {
    let mut state = AppState::new(issue_resource(), String::new());
    state.hit_areas.push(HitArea::new(Rect::new(0, 0, 6, 1), HitTarget::Help));
    click(&mut state, MouseKind::LeftDown, 1, 0);
    assert!(state.show_help);
}

#[test]
fn mouse_wheel_is_inert_while_resource_prompt_is_open() {
    let mut state = AppState::new(issue_resource(), String::new());
    state.set_scroll_limit(12);
    state.scroll = 6;
    state.open_add_resource_prompt();

    for kind in [MouseKind::ScrollDown, MouseKind::ScrollUp] {
        let intent = click(&mut state, kind, 1, 1);
        assert_eq!(intent, AppIntent::Nothing);
        assert_eq!(state.scroll, 6);
    }
}

#[test]
fn mouse_wheel_is_inert_while_resource_link_prompt_is_open() {
    let mut state = AppState::new(issue_resource(), String::new());
    state.set_scroll_limit(12);
    state.scroll = 6;
    state.open_resource_link_prompt(
        ResourceId { owner: "owner".into(), repo: "repo".into(), number: 2, kind_hint: Some(ResourceKind::Issue) },
        Some("https://github.com/owner/repo/issues/2".into()),
    );

    for kind in [MouseKind::ScrollDown, MouseKind::ScrollUp] {
        let intent = click(&mut state, kind, 1, 1);
        assert_eq!(intent, AppIntent::Nothing);
        assert_eq!(state.scroll, 6);
    }
}

#[test]
fn keyboard_y_in_settings_cycles_symbols_instead_of_copying() {
    let mut state = AppState::new(issue_resource(), String::new());
    state.show_settings = true;

    let intent = press(&mut state, key(KeyCode::Char('y')));

    assert_eq!(intent, AppIntent::SaveSettings);
    assert_ne!(state.symbols, SymbolMode::Ascii);
}

#[test]
fn mouse_click_on_open_target_requests_visible_or_current_url() {
    let mut state = AppState::new(issue_resource(), String::new());
    state.hit_areas.push(HitArea::new(
        Rect::new(0, 1, 10, 1),
        HitTarget::Navigate(ResourceId {
            owner: "owner".into(),
            repo: "repo".into(),
            number: 2,
            kind_hint: Some(ResourceKind::PullRequest),
        }),
    ));
    state.hit_areas.push(HitArea::new(Rect::new(0, 0, 6, 1), HitTarget::OpenCurrent));

    let intent = click(&mut state, MouseKind::LeftDown, 1, 0);

    assert_eq!(intent, AppIntent::OpenUrl("https://github.com/owner/repo/pull/2".into()));
}

#[test]
fn mouse_click_on_url_target_requests_open_url() {
    let mut state = AppState::new(issue_resource(), String::new());
    state.hit_areas.push(HitArea::new(
        Rect::new(0, 0, 20, 1),
        HitTarget::OpenUrl("https://github.com/owner/repo/actions/runs/1".into()),
    ));

    let intent = click(&mut state, MouseKind::LeftDown, 1, 0);

    assert_eq!(intent, AppIntent::OpenUrl("https://github.com/owner/repo/actions/runs/1".into()));
}

#[test]
fn mouse_click_on_quit_target_requests_quit() {
    let mut state = AppState::new(issue_resource(), String::new());
    state.hit_areas.push(HitArea::new(Rect::new(0, 0, 6, 1), HitTarget::Quit));

    let intent = click(&mut state, MouseKind::LeftDown, 1, 0);

    assert_eq!(intent, AppIntent::Nothing);
    assert!(state.quit_confirmation);
    assert!(!state.should_quit);
}

#[test]
fn keyboard_n_opens_resource_prompt_and_enter_confirms_relative_number() {
    let mut state = AppState::new(issue_resource(), String::new());

    let open = press(&mut state, key(KeyCode::Char('n')));
    assert_eq!(open, AppIntent::Nothing);
    assert!(state.add_resource_prompt.is_some());

    for ch in ['4', '2'] {
        press(&mut state, key(KeyCode::Char(ch)));
    }
    let confirm = press(&mut state, key(KeyCode::Enter));

    assert_eq!(
        confirm,
        AppIntent::OpenResource(ResourceId { owner: "owner".into(), repo: "repo".into(), number: 42, kind_hint: None })
    );
    assert!(state.add_resource_prompt.is_some());
}

#[test]
fn paste_into_add_resource_prompt_flattens_newlines() {
    let mut state = AppState::new(issue_resource(), String::new());
    state.open_add_resource_prompt();
    apply_event(&mut state, AppEvent::Paste("owner/repo\n#12".into()));
    assert_eq!(
        state.add_resource_prompt.as_ref().map(|prompt| prompt.input.clone()),
        Some("owner/repo #12".into())
    );
}

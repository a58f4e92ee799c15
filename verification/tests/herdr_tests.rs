use ghzinga::github::dto::{JsonLeaf, JsonScalar, JsonValue};
use ghzinga::herdr::{
    herdr_scope_key, herdr_source_key, normalize_github_issue_or_pr_url, plugin_focuses_viewer,
    plugin_pane_id_from_response, run_command, stable_key_for_text, state_key_for_pane,
    viewer_session_file, open_pane_args, open_start, open_step, OpenAction, OpenContext, OpenEvent,
    OpenState, PluginCommand, PLUGIN_USAGE,
};

fn json(texts: &[(&[&str], &str)]) -> JsonValue {
    JsonValue {
        leaves: texts
            .iter()
            .map(|(path, text)| JsonLeaf {
                path: path.iter().map(|k| k.to_string()).collect(),
                value: JsonScalar::Text(text.to_string()),
            })
            .collect(),
    }
}

#[test]
fn normalize_github_issue_or_pr_url_strips_suffixes_and_preserves_kind() {
    assert_eq!(
        normalize_github_issue_or_pr_url("https://github.com/dutifuldev/ghzinga/pull/29/files#diff")
            .unwrap(),
        "https://github.com/dutifuldev/ghzinga/pull/29"
    );
    assert_eq!(
        normalize_github_issue_or_pr_url(
            "https://github.com/dutifuldev/ghzinga/issues/32/?utm_source=test#note"
        )
        .unwrap(),
        "https://github.com/dutifuldev/ghzinga/issues/32"
    );
}

#[test]
fn normalize_github_issue_or_pr_url_rejects_other_github_paths() {
    let error =
        normalize_github_issue_or_pr_url("https://github.com/dutifuldev/ghzinga/tree/main").unwrap_err();
    assert!(error.contains("unsupported GitHub issue/PR URL"));
    assert!(normalize_github_issue_or_pr_url("dutifuldev/ghzinga#29").is_err());
}

#[test]
fn pane_and_scope_keys_are_stable_for_state_files() {
    assert_eq!(state_key_for_pane("w1:p1"), "w1_p1");
    assert_eq!(state_key_for_pane("tab/pane:3"), "tab_pane_3");
    assert_eq!(
        stable_key_for_text("/tmp/herdr-a.sock"),
        stable_key_for_text("/tmp/herdr-a.sock")
    );
    assert_ne!(
        stable_key_for_text("/tmp/herdr-a.sock"),
        stable_key_for_text("/tmp/herdr-b.sock")
    );
}

#[test]
fn stable_key_is_the_fnv1a_hash_in_hex() {
    assert_eq!(stable_key_for_text(""), "cbf29ce484222325");
    assert_eq!(stable_key_for_text("a"), "af63dc4c8601ec8c");
    assert_eq!(stable_key_for_text("a").len(), 16);
}

#[test]
fn scope_key_prefers_socket_then_session() {
    assert_eq!(
        herdr_scope_key(Some("/s"), Some("x")),
        format!("socket_{}", stable_key_for_text("/s"))
    );
    assert_eq!(
        herdr_scope_key(Some(""), Some("x")),
        format!("session_{}", stable_key_for_text("x"))
    );
    assert_eq!(herdr_scope_key(None, None), "default");
    assert_eq!(herdr_source_key("default", "w1:p1"), "default_w1_p1");
    assert_eq!(viewer_session_file("/state", "default_w1_p1"), "/state/default_w1_p1.session");
}

#[test]
fn plugin_focus_validation_requires_matching_plugin_and_viewer() {
    let response = Some(json(&[
        (&["result", "plugin_pane", "plugin_id"], "dutifuldev.ghzinga"),
        (&["result", "plugin_pane", "entrypoint"], "viewer"),
        (&["result", "plugin_pane", "pane", "pane_id"], "w1:p9"),
    ]));
    assert!(plugin_focuses_viewer(&response, "dutifuldev.ghzinga"));
    assert!(!plugin_focuses_viewer(&response, "example.other"));
    let wrong_entrypoint = Some(json(&[
        (&["result", "plugin_pane", "plugin_id"], "dutifuldev.ghzinga"),
        (&["result", "plugin_pane", "entrypoint"], "other"),
    ]));
    assert!(!plugin_focuses_viewer(&wrong_entrypoint, "dutifuldev.ghzinga"));
    assert!(!plugin_focuses_viewer(&None, "dutifuldev.ghzinga"));
}

#[test]
fn plugin_pane_id_is_read_from_herdr_response() {
    let nested = Some(json(&[(&["result", "plugin_pane", "pane", "pane_id"], "w1:p9")]));
    assert_eq!(plugin_pane_id_from_response(&nested).as_deref(), Some("w1:p9"));
    let direct = Some(json(&[(&["result", "plugin_pane", "pane_id"], "w1:p10")]));
    assert_eq!(plugin_pane_id_from_response(&direct).as_deref(), Some("w1:p10"));
    assert_eq!(plugin_pane_id_from_response(&None), None);
}

#[test]
fn plugin_command_line_picks_the_entrypoint() {
    let args = |v: &[&str]| v.iter().map(|s| s.to_string()).collect::<Vec<String>>();
    assert_eq!(run_command(&args(&["open"])), PluginCommand::Open);
    assert_eq!(run_command(&args(&["viewer", "extra"])), PluginCommand::Viewer);
    assert_eq!(run_command(&args(&["-h"])), PluginCommand::Help);
    assert_eq!(run_command(&args(&["--help"])), PluginCommand::Help);
    assert_eq!(run_command(&args(&["launch"])), PluginCommand::Usage);
    assert_eq!(run_command(&[]), PluginCommand::Usage);
    assert_eq!(PLUGIN_USAGE, "usage: gzg herdr-plugin <open|viewer>");
}

fn open_context() -> OpenContext {
    OpenContext {
        target: "https://github.com/owner/repo/pull/7".into(),
        source_pane: "p1".into(),
        plugin_id: "dutifuldev.ghzinga".into(),
        viewer_bin: "/bin/gzg".into(),
        state_dir: "/state".into(),
        scope_key: "default".into(),
    }
}

#[test]
fn open_reuses_a_focused_viewer_session() {
    let c = open_context();
    let (state, action) = open_start(&c);
    assert_eq!(action, OpenAction::ReadSession("/state/default_p1.session".into()));
    let (state, action) = open_step(&c, state, OpenEvent::SessionRead(Some("herdr-ghzinga-x".into())));
    assert_eq!(action, OpenAction::CheckFocus("p1".into()));
    let (state, action) = open_step(&c, state, OpenEvent::FocusChecked(true));
    assert_eq!(state, OpenState::Done);
    assert_eq!(
        action,
        OpenAction::OpenInSession {
            session: "herdr-ghzinga-x".into(),
            target: "https://github.com/owner/repo/pull/7".into()
        }
    );
}

#[test]
fn open_uses_the_current_context_when_no_session_is_recorded() {
    let c = open_context();
    let (state, _) = open_start(&c);
    let (state, _) = open_step(&c, state, OpenEvent::SessionRead(None));
    let (_, action) = open_step(&c, state, OpenEvent::FocusChecked(true));
    assert_eq!(action, OpenAction::OpenHere { target: "https://github.com/owner/repo/pull/7".into() });
}

#[test]
fn open_reuses_the_stored_pane_or_opens_and_records_a_new_one() {
    let c = open_context();
    let (state, _) = open_start(&c);
    let (state, _) = open_step(&c, state, OpenEvent::SessionRead(None));
    let (state, action) = open_step(&c, state, OpenEvent::FocusChecked(false));
    assert_eq!(action, OpenAction::ReadStoredPane("/state/default_p1.pane".into()));
    let (reuse_state, action) = open_step(&c, state.clone(), OpenEvent::StoredPaneRead(Some("p9".into())));
    assert_eq!(action, OpenAction::CheckStoredPane("p9".into()));
    let (_, action) = open_step(&c, reuse_state.clone(), OpenEvent::StoredPaneChecked(true));
    assert_eq!(
        action,
        OpenAction::OpenInSession {
            session: "herdr-ghzinga-default_p1".into(),
            target: "https://github.com/owner/repo/pull/7".into()
        }
    );

    let (state, action) = open_step(&c, reuse_state, OpenEvent::StoredPaneChecked(false));
    assert_eq!(action, OpenAction::OpenPane(open_pane_args(&c)));
    let args = open_pane_args(&c);
    assert_eq!(args[4], "dutifuldev.ghzinga");
    assert_eq!(args[14], "GHZINGA_TARGET=https://github.com/owner/repo/pull/7");
    assert_eq!(args[16], "GHZINGA_SESSION=herdr-ghzinga-default_p1");
    assert_eq!(args.last().map(String::as_str), Some("--focus"));

    let (state2, action) = open_step(&c, state.clone(), OpenEvent::PaneOpened(Some("p2".into())));
    assert_eq!(state2, OpenState::Done);
    assert_eq!(
        action,
        OpenAction::Record {
            pane_file: "/state/default_p1.pane".into(),
            pane_line: "p2\n".into(),
            session_file: "/state/default_p2.session".into(),
            session_line: "herdr-ghzinga-default_p1\n".into(),
        }
    );
    let (_, action) = open_step(&c, state, OpenEvent::PaneOpened(None));
    assert_eq!(action, OpenAction::WarnNoPane);
    let (_, action) = open_step(&c, OpenState::Done, OpenEvent::FocusChecked(true));
    assert_eq!(action, OpenAction::Nothing);
}

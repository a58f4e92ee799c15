use ghzinga::domain::{ResourceId, ResourceKind};
use ghzinga::launch::{
    auto_refresh_due, open_command_args, refresh_label, url_open_command, url_open_report,
    web_open_report, CommandRun, Platform,
};
use std::time::Duration;

fn nanos(d: Duration) -> u128 {
    d.as_nanos()
}

#[test]
fn open_command_uses_pr_web_view_for_pull_requests() {
    let id = ResourceId {
        owner: "openclaw".into(),
        repo: "openclaw".into(),
        number: 81834,
        kind_hint: Some(ResourceKind::PullRequest),
    };
    assert_eq!(
        open_command_args(&id),
        ["pr", "view", "81834", "-R", "openclaw/openclaw", "--web"]
    );
}

#[test]
fn open_command_uses_issue_web_view_for_issues() {
    let id = ResourceId {
        owner: "openclaw".into(),
        repo: "openclaw".into(),
        number: 88499,
        kind_hint: Some(ResourceKind::Issue),
    };
    assert_eq!(
        open_command_args(&id),
        ["issue", "view", "88499", "-R", "openclaw/openclaw", "--web"]
    );
}

#[test]
fn open_command_browses_when_the_kind_is_unknown() {
    let id = ResourceId {
        owner: "o".into(),
        repo: "r".into(),
        number: 5,
        kind_hint: None,
    };
    assert_eq!(open_command_args(&id), ["browse", "5", "-R", "o/r"]);
}

#[test]
fn url_open_command_uses_browser_env_when_available() {
    assert_eq!(
        url_open_command(
            "https://github.com/openclaw/openclaw/actions/runs/1",
            Some("echo"),
            Platform::Other
        ),
        (
            "echo".into(),
            vec!["https://github.com/openclaw/openclaw/actions/runs/1".into()]
        )
    );
}

#[test]
fn url_open_command_preserves_browser_arguments() {
    assert_eq!(
        url_open_command(
            "https://github.com/openclaw/openclaw/actions/runs/1",
            Some("browser --new-window"),
            Platform::Other
        ),
        (
            "browser".into(),
            vec![
                "--new-window".into(),
                "https://github.com/openclaw/openclaw/actions/runs/1".into()
            ]
        )
    );
}

#[test]
fn url_open_command_falls_back_to_the_system_opener() {
    assert_eq!(
        url_open_command("u", Some("   "), Platform::Other),
        ("xdg-open".to_string(), vec!["u".to_string()])
    );
    assert_eq!(
        url_open_command("u", None, Platform::MacOs),
        ("open".to_string(), vec!["u".to_string()])
    );
    assert_eq!(
        url_open_command("u", None, Platform::Windows),
        (
            "cmd".to_string(),
            vec!["/C".to_string(), "start".to_string(), String::new(), "u".to_string()]
        )
    );
    assert_eq!(
        url_open_command("u", Some("  a \t b  c "), Platform::Other),
        ("a".to_string(), vec!["b".to_string(), "c".to_string(), "u".to_string()])
    );
}

#[test]
fn auto_refresh_due_requires_live_mode_positive_interval_and_elapsed_time() {
    assert!(auto_refresh_due(true, nanos(Duration::from_secs(30)), nanos(Duration::from_secs(30))));
    assert!(!auto_refresh_due(false, nanos(Duration::from_secs(30)), nanos(Duration::from_secs(30))));
    assert!(!auto_refresh_due(true, nanos(Duration::from_secs(0)), nanos(Duration::from_secs(30))));
    assert!(!auto_refresh_due(true, nanos(Duration::from_secs(30)), nanos(Duration::from_secs(29))));
    assert!(!auto_refresh_due(true, nanos(Duration::from_millis(999)), nanos(Duration::from_secs(5))));
}

#[test]
fn open_reports_name_the_program_and_details() {
    assert_eq!(
        url_open_report("https://x", "xdg-open", &CommandRun::Succeeded),
        Ok("opened https://x".to_string())
    );
    assert_eq!(
        url_open_report("https://x", "xdg-open", &CommandRun::Failed(" no display \n".into())),
        Err("`xdg-open` failed to open URL: no display".to_string())
    );
    assert_eq!(
        url_open_report("https://x", "xdg-open", &CommandRun::Failed(String::new())),
        Err("`xdg-open` failed to open URL without an error message".to_string())
    );
    assert_eq!(
        url_open_report("https://x", "xdg-open", &CommandRun::NotStarted("missing".into())),
        Err("failed to execute `xdg-open` for URL open: missing".to_string())
    );
    let id = ResourceId::parse("o/r#3").unwrap();
    assert_eq!(web_open_report(&id, &CommandRun::Succeeded), Ok("opened o/r#3".to_string()));
    assert_eq!(
        web_open_report(&id, &CommandRun::Failed("x".into())),
        Err("`gh` web open failed: x".to_string())
    );
}

#[test]
fn refresh_label_is_the_utc_time_of_day() {
    assert_eq!(refresh_label(0), "00:00:00 UTC");
    assert_eq!(refresh_label(86_400 + 3_600 * 12 + 60 * 34 + 56), "12:34:56 UTC");
    assert_eq!(refresh_label(86_399), "23:59:59 UTC");
}

use ghzinga::app::placeholder::loading_resource_placeholder;
use ghzinga::app::state::{parse_resource_reference, Tab};
use ghzinga::domain::{ResourceId, ResourceIdError, ResourceKind};

#[test]
fn parses_tab_names() {
    assert_eq!("overview".parse::<Tab>().unwrap(), Tab::Overview);
    assert_eq!("ci".parse::<Tab>().unwrap(), Tab::Checks);
    assert!("unknown".parse::<Tab>().is_err());
}

#[test]
fn add_resource_parser_accepts_links_owner_repo_and_relative_numbers() {
    let fallback = ResourceId::from_owner_repo_number("owner/repo", "1").unwrap();

    assert_eq!(
        parse_resource_reference("https://github.com/other/project/pull/42", &fallback)
            .unwrap()
            .canonical_name(),
        "other/project#42"
    );
    assert_eq!(
        parse_resource_reference("other/project#43", &fallback)
            .unwrap()
            .canonical_name(),
        "other/project#43"
    );
    assert_eq!(
        parse_resource_reference("other/project 44", &fallback)
            .unwrap()
            .canonical_name(),
        "other/project#44"
    );
    assert_eq!(
        parse_resource_reference("#45", &fallback)
            .unwrap()
            .canonical_name(),
        "owner/repo#45"
    );
    assert_eq!(
        parse_resource_reference("46", &fallback)
            .unwrap()
            .canonical_name(),
        "owner/repo#46"
    );
}

#[test]
fn loading_placeholder_for_ambiguous_resource_shows_pr_shell() {
    let resource = loading_resource_placeholder(ResourceId {
        owner: "openclaw".into(),
        repo: "openclaw".into(),
        number: 81834,
        kind_hint: None,
    });

    assert_eq!(resource.title, "Loading openclaw/openclaw#81834");
    assert_eq!(resource.state, "LOADING");
    assert!(resource.is_pull_request());
    assert_eq!(
        resource.web_url(),
        "https://github.com/openclaw/openclaw/issues/81834"
    );
    assert!(resource.body.contains("The TUI is ready"));
}

#[test]
fn loading_placeholder_for_issue_url_keeps_issue_shell() {
    let resource = loading_resource_placeholder(ResourceId {
        owner: "openclaw".into(),
        repo: "openclaw".into(),
        number: 88499,
        kind_hint: Some(ResourceKind::Issue),
    });

    assert!(!resource.is_pull_request());
    assert_eq!(
        resource.web_url(),
        "https://github.com/openclaw/openclaw/issues/88499"
    );
}

#[test]
fn tab_names_ignore_case_whitespace_and_aliases() {
    assert_eq!(" Comments ".parse::<Tab>().unwrap(), Tab::Activity);
    assert_eq!("FILES".parse::<Tab>().unwrap(), Tab::Files);
    assert_eq!(
        "nope".parse::<Tab>().unwrap_err(),
        "expected one of overview, activity, commits, checks, files, links"
    );
    assert_eq!(Tab::Checks.name(), "checks");
    assert_eq!(Tab::Checks.label(), "Checks");
}

#[test]
fn tabs_follow_the_resource_kind() {
    assert_eq!(
        Tab::all_for(ResourceKind::Issue),
        vec![Tab::Overview, Tab::Activity, Tab::Links]
    );
    assert_eq!(Tab::all_for(ResourceKind::PullRequest).len(), 6);
}

#[test]
fn reference_parser_rejects_blank_and_stray_text() {
    let fallback = ResourceId::from_owner_repo_number("owner/repo", "1").unwrap();
    assert_eq!(parse_resource_reference("   ", &fallback), Err(ResourceIdError::Invalid));
    assert_eq!(parse_resource_reference("#", &fallback), Err(ResourceIdError::Invalid));
    assert_eq!(parse_resource_reference("a b c", &fallback), Err(ResourceIdError::Invalid));
    assert_eq!(parse_resource_reference("abc", &fallback), Err(ResourceIdError::Invalid));
    assert_eq!(
        parse_resource_reference("#0", &fallback),
        Err(ResourceIdError::InvalidNumber)
    );
}

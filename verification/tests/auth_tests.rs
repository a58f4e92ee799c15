use ghzinga::github::auth::{
    github_token_from_env, github_token_from_gh_output, is_auth_unavailable,
    should_try_public_rest_fallback, GhAuthTokenOutput, GithubAuthError, GithubError,
};
use ghzinga::github::gh_cli::{gh_execute_error, gh_failure_message};

#[test]
fn env_token_prefers_gh_token_and_trims_whitespace() {
    let token = github_token_from_env(Some("  gh-token\n".into()), Some("github-token".into()));
    assert_eq!(token.as_deref(), Some("gh-token"));
}

#[test]
fn env_token_uses_github_token_when_gh_token_is_blank() {
    let token = github_token_from_env(Some("   ".into()), Some("\tgithub-token\n".into()));
    assert_eq!(token.as_deref(), Some("github-token"));
}

#[test]
fn env_token_returns_none_when_no_nonempty_env_token_exists() {
    let token = github_token_from_env(Some(" ".into()), None);
    assert!(token.is_none());
}

#[test]
fn gh_auth_token_output_returns_trimmed_token_when_authenticated() {
    let token = github_token_from_gh_output(GhAuthTokenOutput {
        success: true,
        stdout: "  gh-authed-token\n".into(),
        stderr: String::new(),
    })
    .expect("token from gh output");
    assert_eq!(token, "gh-authed-token");
}

#[test]
fn gh_auth_token_output_rejects_empty_success_output() {
    let error = github_token_from_gh_output(GhAuthTokenOutput {
        success: true,
        stdout: "\n".into(),
        stderr: String::new(),
    })
    .expect_err("empty token should fail");
    assert!(error.message().contains("returned an empty token"));
    assert!(is_auth_unavailable(&GithubError::Auth(error)));
}

#[test]
fn gh_auth_token_output_reports_auth_failure_as_unavailable() {
    let error = github_token_from_gh_output(GhAuthTokenOutput {
        success: false,
        stdout: String::new(),
        stderr: "To get started with GitHub CLI, please run: gh auth login".into(),
    })
    .expect_err("auth failure should fail");
    assert!(error.message().contains("not authenticated"));
    assert!(is_auth_unavailable(&GithubError::Auth(error)));
}

#[test]
fn auth_missing_gh_error_mentions_install_and_auth_status() {
    let message = gh_execute_error("gh auth token", true, "no gh in path");
    assert!(message.contains("`gh` was not found"));
    assert!(message.contains("gh auth status"));
}

#[test]
fn auth_non_auth_failure_keeps_command_and_stderr() {
    let message = gh_failure_message("gh auth token", "token retrieval failed");
    assert_eq!(message, "`gh auth token` failed: token retrieval failed");
}

#[test]
fn public_rest_fallback_includes_unavailable_auth() {
    let error = GithubError::Auth(GithubAuthError::Unavailable(
        "`gh auth token` returned an empty token".into(),
    ));
    assert!(should_try_public_rest_fallback(&error));
}

#[test]
fn public_rest_fallback_includes_rejected_token_errors() {
    for message in [
        "GitHub GraphQL request failed with HTTP 401 Unauthorized: {\"message\":\"Bad credentials\"}",
        "GitHub GraphQL request returned errors: FORBIDDEN: Resource not accessible by personal access token",
        "GitHub GraphQL request failed: Although you appear to have the correct authorization credentials, the organization requires SAML SSO.",
    ] {
        let error = GithubError::Failed(vec![message.to_string()]);
        assert!(should_try_public_rest_fallback(&error), "{message}");
    }
}

#[test]
fn public_rest_fallback_does_not_include_unrelated_api_errors() {
    let error = GithubError::Failed(vec![
        "GitHub GraphQL request failed with HTTP 500: server error".to_string(),
    ]);
    assert!(!should_try_public_rest_fallback(&error));
    assert!(!is_auth_unavailable(&error));
}

#[test]
fn token_rejection_is_found_in_any_cause() {
    let error = GithubError::Failed(vec![
        "loading owner/repo#1 failed".to_string(),
        "Requires authentication".to_string(),
    ]);
    assert!(should_try_public_rest_fallback(&error));
}

#[test]
fn auth_auth_failure_mentions_auth_status_and_login() {
    let message = gh_failure_message(
        "gh auth token",
        "To get started with GitHub CLI, please run: gh auth login",
    );

    assert!(message.contains("not authenticated"));
    assert!(message.contains("gh auth status"));
    assert!(message.contains("gh auth login"));
}

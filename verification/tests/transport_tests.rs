use ghzinga::github::transport::{
    check_graphql_response, check_rest_response, compact_whitespace, rest_url,
    summarize_graphql_errors, GraphqlError, GraphqlErrors,
};

fn error(error_type: Option<&str>, message: Option<&str>, raw: &str) -> GraphqlError {
    GraphqlError {
        error_type: error_type.map(str::to_string),
        message: message.map(str::to_string),
        raw: raw.to_string(),
    }
}

#[test]
fn compacts_runs_of_whitespace() {
    assert_eq!(compact_whitespace("  a \n\t b  c "), "a b c");
    assert_eq!(compact_whitespace(""), "");
    assert_eq!(compact_whitespace(" \u{3000} "), "");
    assert_eq!(compact_whitespace("one"), "one");
}

#[test]
fn graphql_errors_payload_fails_with_summary() {
    let errors = Some(GraphqlErrors::List(vec![error(None, Some("bad query"), "{}")]));
    let result = check_graphql_response(true, "200 OK", "{}", &errors);
    let message = result.unwrap_err();
    assert!(message.contains("GitHub GraphQL request returned errors"));
    assert!(message.contains("GraphQL error: bad query"));
}

#[test]
fn graphql_scope_errors_are_explained() {
    let errors = GraphqlErrors::List(vec![
        error(
            Some("INSUFFICIENT_SCOPES"),
            Some("Your token has not been granted the required scopes to execute this query. The 'id' field requires one of the following scopes: ['read:project'], but your token has only been granted the: ['repo'] scopes."),
            "{\"locations\":[]}",
        ),
        error(Some("INSUFFICIENT_SCOPES"), Some("same scope issue"), "{}"),
    ]);
    let message = summarize_graphql_errors(&errors);
    assert!(message.contains("INSUFFICIENT_SCOPES: token lacks read:project"));
    assert!(message.contains("https://github.com/settings/tokens"));
    assert!(message.ends_with("; INSUFFICIENT_SCOPES: same scope issue"));
    assert!(!message.contains("\"locations\""));
}

#[test]
fn graphql_summary_keeps_three_and_counts_the_rest() {
    let errors = GraphqlErrors::List(vec![
        error(Some("A"), Some("one"), "{}"),
        error(Some("B"), Some("two"), "{}"),
        error(None, None, "{\"x\":  1}"),
        error(Some("D"), Some("four"), "{}"),
        error(Some("E"), Some("five"), "{}"),
    ]);
    assert_eq!(
        summarize_graphql_errors(&errors),
        "A: one; B: two; GraphQL error: {\"x\": 1}; 2 more error(s)"
    );
    assert_eq!(summarize_graphql_errors(&GraphqlErrors::Other("  \"oops\"  ".into())), "\"oops\"");
}

#[test]
fn http_failures_carry_status_and_body() {
    assert_eq!(
        check_graphql_response(false, "500 Internal Server Error", "server error", &None),
        Err("GitHub GraphQL request failed with HTTP 500 Internal Server Error: server error".to_string())
    );
    assert_eq!(check_graphql_response(true, "200 OK", "{}", &None), Ok(()));
    assert_eq!(
        check_rest_response("/missing", false, "404 Not Found", "{\"message\":\"Not Found\"}"),
        Err("GitHub REST request to /missing failed with HTTP 404 Not Found: {\"message\":\"Not Found\"}".to_string())
    );
    assert_eq!(check_rest_response("/ok", true, "200 OK", ""), Ok(()));
    assert_eq!(rest_url("/repos/o/r/pulls/1"), "https://api.github.com/repos/o/r/pulls/1");
}

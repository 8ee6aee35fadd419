use wingman::github::{
    check_gist_content, delay_before_retry, deletion_done, failed_request,
    gist_creation_failure, poll_github_device_flow, resolve_filename, signed_in, signed_out,
    GitHubError,
};

fn invalid(outcome: Result<(), GitHubError>) -> String {
    match outcome {
        Err(GitHubError::InvalidContent(reason)) => reason,
        _ => panic!("expected invalid content"),
    }
}

fn api_error(error: GitHubError) -> String {
    match error {
        GitHubError::ApiError(reason) => reason,
        _ => panic!("expected an API error"),
    }
}

#[test]
fn gist_content_is_checked() {
    assert!(check_gist_content("fn main() {}", "main.rs").is_ok());
    assert_eq!(invalid(check_gist_content("", "a.txt")), "Content cannot be empty");
    assert_eq!(invalid(check_gist_content(" \n\t", "a.txt")), "Content cannot be empty");
    assert_eq!(invalid(check_gist_content("x", "")), "Filename cannot be empty");
    assert_eq!(invalid(check_gist_content("x", "  ")), "Filename cannot be empty");
    let exactly = "a".repeat(10 * 1024 * 1024);
    assert!(check_gist_content(&exactly, "a.txt").is_ok());
    let too_large = "a".repeat(10 * 1024 * 1024 + 1);
    assert_eq!(
        invalid(check_gist_content(&too_large, "")),
        "Content is too large (10 MB). Maximum size is 10 MB."
    );
    // the size counts bytes, not characters
    let wide = "\u{e9}".repeat(6 * 1024 * 1024);
    assert_eq!(
        invalid(check_gist_content(&wide, "a.txt")),
        "Content is too large (12 MB). Maximum size is 10 MB."
    );
}

#[test]
fn refused_gist_creation_is_read_by_its_status() {
    assert!(matches!(gist_creation_failure(401, "x"), GitHubError::TokenRevoked));
    assert!(matches!(gist_creation_failure(403, "API rate limit exceeded"), GitHubError::RateLimit));
    assert!(matches!(gist_creation_failure(403, "secondary rate limit"), GitHubError::RateLimit));
    assert_eq!(
        api_error(gist_creation_failure(403, "Rate Limit")),
        "Access forbidden. Your GitHub token may lack gist permissions: Rate Limit"
    );
    match gist_creation_failure(422, "bad file") {
        GitHubError::InvalidContent(reason) => assert_eq!(reason, "Invalid gist content: bad file"),
        _ => panic!("expected invalid content"),
    }
    assert_eq!(
        api_error(gist_creation_failure(500, "ignored")),
        "GitHub server error (500). Please try again later."
    );
    assert_eq!(
        api_error(gist_creation_failure(599, "ignored")),
        "GitHub server error (599). Please try again later."
    );
    assert_eq!(api_error(gist_creation_failure(600, "body")), "Failed to create gist (600): body");
    assert_eq!(api_error(gist_creation_failure(404, "")), "Failed to create gist (404): ");
    assert_eq!(api_error(gist_creation_failure(0, "z")), "Failed to create gist (0): z");
    assert_eq!(api_error(gist_creation_failure(65535, "z")), "Failed to create gist (65535): z");
}

#[test]
fn refused_requests_name_what_was_tried() {
    assert!(matches!(failed_request("list gists", 401, "x"), GitHubError::TokenRevoked));
    assert_eq!(
        api_error(failed_request("list gists", 500, "oops")),
        "Failed to list gists (500): oops"
    );
    assert_eq!(
        api_error(failed_request("update gist abc123", 404, "Not Found")),
        "Failed to update gist abc123 (404): Not Found"
    );
    assert_eq!(api_error(failed_request("get user info", 403, "")), "Failed to get user info (403): ");
}

#[test]
fn only_failing_connections_are_tried_again() {
    assert_eq!(delay_before_retry(1, true), Some(500));
    assert_eq!(delay_before_retry(2, true), Some(1000));
    assert_eq!(delay_before_retry(3, true), None);
    assert_eq!(delay_before_retry(4, true), None);
    assert_eq!(delay_before_retry(1, false), None);
    assert_eq!(delay_before_retry(0, true), Some(0));
    assert_eq!(delay_before_retry(u32::MAX, true), None);
}

#[test]
fn a_missing_gist_counts_as_deleted() {
    assert!(deletion_done(200));
    assert!(deletion_done(204));
    assert!(deletion_done(299));
    assert!(deletion_done(404));
    assert!(!deletion_done(199));
    assert!(!deletion_done(300));
    assert!(!deletion_done(401));
    assert!(!deletion_done(500));
}

#[test]
fn polling_for_a_token() {
    let text = |t: &str| Some(t.to_string());
    assert!(matches!(
        poll_github_device_flow(text("authorization_pending"), None, text("tok")),
        Err(GitHubError::AuthPending)
    ));
    assert!(matches!(
        poll_github_device_flow(text("expired_token"), None, None),
        Err(GitHubError::AuthTimeout)
    ));
    match poll_github_device_flow(text("slow_down"), Some(15), None) {
        Err(e) => assert_eq!(api_error(e), "slow_down:15"),
        _ => panic!("expected an error"),
    }
    match poll_github_device_flow(text("slow_down"), None, None) {
        Err(e) => assert_eq!(api_error(e), "slow_down:10"),
        _ => panic!("expected an error"),
    }
    match poll_github_device_flow(text("access_denied"), Some(5), None) {
        Err(e) => assert_eq!(api_error(e), "Device flow error: access_denied"),
        _ => panic!("expected an error"),
    }
    assert_eq!(poll_github_device_flow(None, Some(5), text("tok")).unwrap(), text("tok"));
    assert_eq!(poll_github_device_flow(None, None, None).unwrap(), None);
}

#[test]
fn file_names_of_gists() {
    assert_eq!(resolve_filename(Some("a.rs".to_string()), "listed.rs".to_string()), "a.rs");
    assert_eq!(resolve_filename(Some("  ".to_string()), "listed.rs".to_string()), "listed.rs");
    assert_eq!(resolve_filename(Some("".to_string()), "listed.rs".to_string()), "listed.rs");
    assert_eq!(resolve_filename(None, "listed.rs".to_string()), "listed.rs");
    assert_eq!(resolve_filename(Some(" a ".to_string()), "listed.rs".to_string()), " a ");
}

#[test]
fn sign_in_status() {
    let status = signed_in("octocat".to_string());
    assert!(status.is_authenticated);
    assert_eq!(status.username, Some("octocat".to_string()));
    assert_eq!(status.scopes, vec!["gist".to_string()]);
    let status = signed_out();
    assert!(!status.is_authenticated);
    assert_eq!(status.username, None);
    assert!(status.scopes.is_empty());
}

#[test]
fn github_errors_read_as_they_are_shown() {
    assert_eq!(GitHubError::Network("x".to_string()).to_string(), "Network error: x");
    assert_eq!(GitHubError::TokenSave("x".to_string()).to_string(), "Failed to save token: x");
    assert_eq!(GitHubError::TokenLoad("x".to_string()).to_string(), "Failed to load token: x");
    assert_eq!(
        GitHubError::NotAuthenticated.to_string(),
        "Not authenticated. Please authorize GitHub in Settings."
    );
    assert_eq!(
        GitHubError::TokenRevoked.to_string(),
        "Token has been revoked. Please re-authorize in Settings."
    );
    assert_eq!(GitHubError::RateLimit.to_string(), "Rate limit exceeded. Try again later.");
    assert_eq!(GitHubError::InvalidContent("x".to_string()).to_string(), "Invalid content: x");
    assert_eq!(GitHubError::ApiError("x".to_string()).to_string(), "GitHub API error: x");
    assert_eq!(GitHubError::AuthTimeout.to_string(), "Device flow authorization timed out");
    assert_eq!(GitHubError::AuthPending.to_string(), "Device flow authorization pending");
    assert_eq!(GitHubError::Io("x".to_string()).to_string(), "IO error: x");
    assert_eq!(GitHubError::Json("x".to_string()).to_string(), "JSON error: x");
}

//! The records that the gist synchronisation exchanges.

use vstd::prelude::*;
use vstd::string::StringExecFns;
use vstd::utf8::encode_utf8;
use crate::strings::{
    chars_of, contains_chars, contains_text, str_contains, str_equals, string_of,
};
use crate::text::{
    append_chars, append_decimal, decimal_of, is_blank, is_blank_chars, trim_chars, trimmed,
    trimmed_empty_iff_blank,
};
use crate::unicode::lowercase_of;

verus! {

/// The marker that tells this application's gists from others.
pub const WINGMAN_GIST_MARKER: &'static str = "[Wingman]";

/// How gists are shared, and as whom.
#[derive(Debug, Clone)]
pub struct GitHubConfig {
    pub is_authenticated: bool,
    pub username: Option<String>,
    pub default_public: bool,
    pub auto_copy_url: bool,
}

impl Default for GitHubConfig {
    /// Not signed in; gists are private unless asked otherwise, and their
    /// address is copied once they are made.
    fn default() -> (config: Self)
        ensures
            !config.is_authenticated,
            config.username is None,
            !config.default_public,
            config.auto_copy_url,
    {
        GitHubConfig {
            is_authenticated: false,
            username: None,
            default_public: false,
            auto_copy_url: true,
        }
    }
}

/// The start of a device authorisation.
#[derive(Debug, Clone)]
pub struct DeviceFlowStart {
    pub device_code: String,
    pub user_code: String,
    pub verification_uri: String,
    pub expires_in: u32,
    pub interval: u32,
}

/// Whether the user is signed in, and with which rights.
#[derive(Debug, Clone)]
pub struct GitHubAuthStatus {
    pub is_authenticated: bool,
    pub username: Option<String>,
    pub scopes: Vec<String>,
}

/// Where a gist that was made can be found.
#[derive(Debug, Clone)]
pub struct GistResult {
    pub gist_id: String,
    pub url: String,
    pub html_url: String,
}

/// A gist of this application, with its one file.
#[derive(Debug, Clone)]
pub struct WingmanGist {
    pub gist_id: String,
    pub url: String,
    pub html_url: String,
    pub description: String,
    pub filename: String,
    pub content: String,
    pub updated_at: String,
    pub is_public: bool,
}

/// Whether a description carries the marker, in whatever case.
pub open spec fn marked(description: Seq<char>) -> bool {
    contains_text(lowercase_of(description), lowercase_of(WINGMAN_GIST_MARKER@))
}

/// A description that carries the marker: the given one without the
/// whitespace around it if it carries the marker already, else the marker
/// and the description, or the marker and a standard text where no
/// description is given.
pub open spec fn with_marker(description: Seq<char>) -> Seq<char> {
    let given = trimmed(description);
    if marked(given) {
        given
    } else if given.len() == 0 {
        WINGMAN_GIST_MARKER@ + " Created with Wingman"@
    } else {
        WINGMAN_GIST_MARKER@ + " "@ + given
    }
}

fn lowercase_chars(s: &Vec<char>) -> (lower: Vec<char>)
    ensures
        lower@ == lowercase_of(s@),
{
    let text = string_of(s);
    let lower = text.as_str().to_lowercase();
    chars_of(lower.as_str())
}

fn is_marked(description: &Vec<char>) -> (yes: bool)
    ensures
        yes == marked(description@),
{
    let lower = lowercase_chars(description);
    let marker = lowercase_chars(&chars_of(WINGMAN_GIST_MARKER));
    contains_chars(&lower, &marker)
}

/// Whether a description carries the marker, in whatever case.
pub fn has_wingman_marker(description: &str) -> (yes: bool)
    ensures
        yes == marked(description@),
{
    is_marked(&chars_of(description))
}

/// A description that carries the marker.
pub fn ensure_wingman_marker(description: &str) -> (out: String)
    ensures
        out@ == with_marker(description@),
{
    let given = trim_chars(&chars_of(description));
    if is_marked(&given) {
        return string_of(&given);
    }
    if given.len() == 0 {
        return String::from_str(WINGMAN_GIST_MARKER).concat(" Created with Wingman");
    }
    String::from_str(WINGMAN_GIST_MARKER).concat(" ").concat(string_of(&given).as_str())
}

/// The largest file that a gist takes, in bytes.
pub const MAX_GIST_SIZE: usize = 10_485_760;

/// How often a request is sent before a failing connection is given up.
pub const MAX_ATTEMPTS: u32 = 3;

/// Why an exchange with GitHub failed.
#[derive(Debug)]
pub enum GitHubError {
    Network(String),
    TokenSave(String),
    TokenLoad(String),
    NotAuthenticated,
    TokenRevoked,
    RateLimit,
    InvalidContent(String),
    ApiError(String),
    AuthTimeout,
    AuthPending,
    Io(String),
    Json(String),
}

/// The mathematical content of a [`GitHubError`].
pub enum GitHubErrorView {
    Network(Seq<char>),
    TokenSave(Seq<char>),
    TokenLoad(Seq<char>),
    NotAuthenticated,
    TokenRevoked,
    RateLimit,
    InvalidContent(Seq<char>),
    ApiError(Seq<char>),
    AuthTimeout,
    AuthPending,
    Io(Seq<char>),
    Json(Seq<char>),
}

impl View for GitHubError {
    type V = GitHubErrorView;

    open spec fn view(&self) -> GitHubErrorView {
        match self {
            GitHubError::Network(m) => GitHubErrorView::Network(m@),
            GitHubError::TokenSave(m) => GitHubErrorView::TokenSave(m@),
            GitHubError::TokenLoad(m) => GitHubErrorView::TokenLoad(m@),
            GitHubError::NotAuthenticated => GitHubErrorView::NotAuthenticated,
            GitHubError::TokenRevoked => GitHubErrorView::TokenRevoked,
            GitHubError::RateLimit => GitHubErrorView::RateLimit,
            GitHubError::InvalidContent(m) => GitHubErrorView::InvalidContent(m@),
            GitHubError::ApiError(m) => GitHubErrorView::ApiError(m@),
            GitHubError::AuthTimeout => GitHubErrorView::AuthTimeout,
            GitHubError::AuthPending => GitHubErrorView::AuthPending,
            GitHubError::Io(m) => GitHubErrorView::Io(m@),
            GitHubError::Json(m) => GitHubErrorView::Json(m@),
        }
    }
}

impl GitHubErrorView {
    /// The text shown to the user for this error.
    pub open spec fn message(self) -> Seq<char> {
        match self {
            GitHubErrorView::Network(m) => "Network error: "@ + m,
            GitHubErrorView::TokenSave(m) => "Failed to save token: "@ + m,
            GitHubErrorView::TokenLoad(m) => "Failed to load token: "@ + m,
            GitHubErrorView::NotAuthenticated =>
                "Not authenticated. Please authorize GitHub in Settings."@,
            GitHubErrorView::TokenRevoked =>
                "Token has been revoked. Please re-authorize in Settings."@,
            GitHubErrorView::RateLimit => "Rate limit exceeded. Try again later."@,
            GitHubErrorView::InvalidContent(m) => "Invalid content: "@ + m,
            GitHubErrorView::ApiError(m) => "GitHub API error: "@ + m,
            GitHubErrorView::AuthTimeout => "Device flow authorization timed out"@,
            GitHubErrorView::AuthPending => "Device flow authorization pending"@,
            GitHubErrorView::Io(m) => "IO error: "@ + m,
            GitHubErrorView::Json(m) => "JSON error: "@ + m,
        }
    }
}

impl GitHubError {
    /// The text shown to the user for this error.
    pub fn to_string(&self) -> (text: String)
        ensures
            text@ == self@.message(),
    {
        match self {
            GitHubError::Network(m) => String::from_str("Network error: ").concat(m.as_str()),
            GitHubError::TokenSave(m) => String::from_str("Failed to save token: ").concat(
                m.as_str(),
            ),
            GitHubError::TokenLoad(m) => String::from_str("Failed to load token: ").concat(
                m.as_str(),
            ),
            GitHubError::NotAuthenticated => String::from_str(
                "Not authenticated. Please authorize GitHub in Settings.",
            ),
            GitHubError::TokenRevoked => String::from_str(
                "Token has been revoked. Please re-authorize in Settings.",
            ),
            GitHubError::RateLimit => String::from_str("Rate limit exceeded. Try again later."),
            GitHubError::InvalidContent(m) => String::from_str("Invalid content: ").concat(
                m.as_str(),
            ),
            GitHubError::ApiError(m) => String::from_str("GitHub API error: ").concat(m.as_str()),
            GitHubError::AuthTimeout => String::from_str("Device flow authorization timed out"),
            GitHubError::AuthPending => String::from_str("Device flow authorization pending"),
            GitHubError::Io(m) => String::from_str("IO error: ").concat(m.as_str()),
            GitHubError::Json(m) => String::from_str("JSON error: ").concat(m.as_str()),
        }
    }
}

/// Whether an HTTP status reports success.
pub open spec fn is_success(status: u16) -> bool {
    200 <= status < 300
}

/// Whether an HTTP status reports an error of the server.
pub open spec fn is_server_error(status: u16) -> bool {
    500 <= status < 600
}

/// `(status): body`, as it ends the report of a failed request.
pub open spec fn status_and_body(status: u16, body: Seq<char>) -> Seq<char> {
    "("@ + decimal_of(status as nat) + "): "@ + body
}

/// The length of a text in bytes, as `str::len` returns it.
pub open spec fn byte_length(text: Seq<char>) -> usize {
    encode_utf8(text).len() as usize
}

/// Why a file is not taken as a gist, if it is not: the content must hold
/// something other than whitespace and at most ten megabytes, and the file
/// must have a name.
pub open spec fn gist_refusal(content: Seq<char>, filename: Seq<char>) -> Option<Seq<char>> {
    if is_blank(content) {
        Some("Content cannot be empty"@)
    } else if byte_length(content) > 10_485_760 {
        Some(
            "Content is too large ("@ + decimal_of((byte_length(content) / 1_048_576) as nat)
                + " MB). Maximum size is 10 MB."@,
        )
    } else if is_blank(filename) {
        Some("Filename cannot be empty"@)
    } else {
        None
    }
}

/// The error that a refused attempt to make a gist stands for, by its HTTP
/// status and the body of the answer.
pub open spec fn creation_failure(status: u16, body: Seq<char>) -> GitHubErrorView {
    if status == 401 {
        GitHubErrorView::TokenRevoked
    } else if status == 403 {
        if contains_text(body, "rate limit"@) || contains_text(body, "API rate limit"@) {
            GitHubErrorView::RateLimit
        } else {
            GitHubErrorView::ApiError(
                "Access forbidden. Your GitHub token may lack gist permissions: "@ + body,
            )
        }
    } else if status == 422 {
        GitHubErrorView::InvalidContent("Invalid gist content: "@ + body)
    } else if is_server_error(status) {
        GitHubErrorView::ApiError(
            "GitHub server error ("@ + decimal_of(status as nat) + "). Please try again later."@,
        )
    } else {
        GitHubErrorView::ApiError("Failed to create gist "@ + status_and_body(status, body))
    }
}

/// The error that a refused request stands for: a revoked token for status
/// 401, and for any other status what was tried, the status and the body.
pub open spec fn request_failure(tried: Seq<char>, status: u16, body: Seq<char>)
    -> GitHubErrorView {
    if status == 401 {
        GitHubErrorView::TokenRevoked
    } else {
        GitHubErrorView::ApiError("Failed to "@ + tried + " "@ + status_and_body(status, body))
    }
}

/// How long to wait before a request is sent again, in milliseconds, after
/// the given number of attempts; `None` where it is given up. Only a
/// failing connection is tried again, and at most three times in all.
pub open spec fn retry_delay(attempts: u32, connection_failed: bool) -> Option<u64> {
    if attempts >= 3 || !connection_failed {
        None
    } else {
        Some((500 * attempts) as u64)
    }
}

/// What an answer to polling for a token means.
pub open spec fn poll_verdict(
    error: Option<Seq<char>>,
    interval: Option<u32>,
    access_token: Option<Seq<char>>,
) -> Result<Option<Seq<char>>, GitHubErrorView> {
    match error {
        Some(e) => if e == "authorization_pending"@ {
            Err(GitHubErrorView::AuthPending)
        } else if e == "slow_down"@ {
            Err(
                GitHubErrorView::ApiError(
                    "slow_down:"@ + decimal_of(
                        (match interval {
                            Some(n) => n,
                            None => 10u32,
                        }) as nat,
                    ),
                ),
            )
        } else if e == "expired_token"@ {
            Err(GitHubErrorView::AuthTimeout)
        } else {
            Err(GitHubErrorView::ApiError("Device flow error: "@ + e))
        },
        None => Ok(access_token),
    }
}

/// The name of a gist's file: the name that the file gives itself, unless
/// it is blank; else the name under which the gist lists the file.
pub open spec fn resolved_filename(own: Option<Seq<char>>, listed: Seq<char>) -> Seq<char> {
    match own {
        Some(name) => if is_blank(name) {
            listed
        } else {
            name
        },
        None => listed,
    }
}

fn is_blank_text(text: &str) -> (blank: bool)
    ensures
        blank == is_blank(text@),
{
    is_blank_chars(&chars_of(text))
}

fn with_status_and_body(prefix: &str, status: u16, body: &str) -> (text: String)
    ensures
        text@ == prefix@ + status_and_body(status, body@),
{
    let mut out = chars_of(prefix);
    out.push('(');
    append_decimal(&mut out, status as u128);
    out.push(')');
    out.push(':');
    out.push(' ');
    append_chars(&mut out, &chars_of(body));
    proof {
        reveal_strlit("(");
        reveal_strlit("): ");
        assert("("@ =~= seq!['(']);
        assert("): "@ =~= seq![')', ':', ' ']);
        assert(out@ =~= prefix@ + status_and_body(status, body@));
    }
    string_of(&out)
}

/// Whether a file is taken as a gist.
pub fn check_gist_content(content: &str, filename: &str) -> (checked: Result<(), GitHubError>)
    ensures
        match checked {
            Ok(_) => gist_refusal(content@, filename@) is None,
            Err(e) => gist_refusal(content@, filename@) matches Some(reason) && e@
                == GitHubErrorView::InvalidContent(reason),
        },
{
    if is_blank_text(content) {
        return Err(GitHubError::InvalidContent(String::from_str("Content cannot be empty")));
    }
    let size = content.len();
    if size > MAX_GIST_SIZE {
        let mut out = chars_of("Content is too large (");
        append_decimal(&mut out, (size / 1_048_576) as u128);
        append_chars(&mut out, &chars_of(" MB). Maximum size is 10 MB."));
        return Err(GitHubError::InvalidContent(string_of(&out)));
    }
    if is_blank_text(filename) {
        return Err(GitHubError::InvalidContent(String::from_str("Filename cannot be empty")));
    }
    Ok(())
}

/// The error that a refused attempt to make a gist stands for.
pub fn gist_creation_failure(status: u16, body: &str) -> (error: GitHubError)
    ensures
        error@ == creation_failure(status, body@),
{
    if status == 401 {
        GitHubError::TokenRevoked
    } else if status == 403 {
        if str_contains(body, "rate limit") || str_contains(body, "API rate limit") {
            GitHubError::RateLimit
        } else {
            GitHubError::ApiError(
                String::from_str(
                    "Access forbidden. Your GitHub token may lack gist permissions: ",
                ).concat(body),
            )
        }
    } else if status == 422 {
        GitHubError::InvalidContent(String::from_str("Invalid gist content: ").concat(body))
    } else if 500 <= status && status < 600 {
        let mut out = chars_of("GitHub server error (");
        append_decimal(&mut out, status as u128);
        append_chars(&mut out, &chars_of("). Please try again later."));
        GitHubError::ApiError(string_of(&out))
    } else {
        GitHubError::ApiError(with_status_and_body("Failed to create gist ", status, body))
    }
}

/// The error that a refused request stands for; `tried` says what was
/// tried, as in `list gists`.
pub fn failed_request(tried: &str, status: u16, body: &str) -> (error: GitHubError)
    ensures
        error@ == request_failure(tried@, status, body@),
{
    if status == 401 {
        GitHubError::TokenRevoked
    } else {
        let prefix = String::from_str("Failed to ").concat(tried).concat(" ");
        GitHubError::ApiError(with_status_and_body(prefix.as_str(), status, body))
    }
}

/// How long to wait before a request is sent again, in milliseconds;
/// `None` where it is given up.
pub fn delay_before_retry(attempts: u32, connection_failed: bool) -> (delay: Option<u64>)
    ensures
        delay == retry_delay(attempts, connection_failed),
{
    if attempts >= MAX_ATTEMPTS || !connection_failed {
        None
    } else {
        Some(500 * (attempts as u64))
    }
}

/// Whether a gist counts as deleted after a request with the given status:
/// it does where the request passed, and where the gist was not there.
pub fn deletion_done(status: u16) -> (done: bool)
    ensures
        done == (is_success(status) || status == 404),
{
    (200 <= status && status < 300) || status == 404
}

/// What an answer to polling for a token means: the token where
/// authorisation is complete, nothing where the answer holds neither a
/// token nor an error, and an error for each way of waiting or failing.
pub fn poll_github_device_flow(
    error: Option<String>,
    interval: Option<u32>,
    access_token: Option<String>,
) -> (verdict: Result<Option<String>, GitHubError>)
    ensures
        match verdict {
            Ok(token) => poll_verdict(error.deep_view(), interval, access_token.deep_view())
                == Ok::<Option<Seq<char>>, GitHubErrorView>(token.deep_view()),
            Err(e) => poll_verdict(error.deep_view(), interval, access_token.deep_view())
                == Err::<Option<Seq<char>>, GitHubErrorView>(e@),
        },
{
    match error {
        Some(e) => {
            if str_equals(e.as_str(), "authorization_pending") {
                Err(GitHubError::AuthPending)
            } else if str_equals(e.as_str(), "slow_down") {
                let seconds = match interval {
                    Some(n) => n,
                    None => 10,
                };
                let mut out = chars_of("slow_down:");
                append_decimal(&mut out, seconds as u128);
                Err(GitHubError::ApiError(string_of(&out)))
            } else if str_equals(e.as_str(), "expired_token") {
                Err(GitHubError::AuthTimeout)
            } else {
                Err(GitHubError::ApiError(String::from_str("Device flow error: ").concat(e.as_str())))
            }
        },
        None => Ok(access_token),
    }
}

/// The name of a gist's file.
pub fn resolve_filename(own: Option<String>, listed: String) -> (name: String)
    ensures
        name@ == resolved_filename(own.deep_view(), listed@),
{
    match own {
        Some(name) => {
            if is_blank_text(name.as_str()) {
                listed
            } else {
                name
            }
        },
        None => listed,
    }
}

/// The status of a user for whom a token is stored and GitHub has
/// confirmed the name.
pub fn signed_in(username: String) -> (status: GitHubAuthStatus)
    ensures
        status.is_authenticated,
        status.username.deep_view() == Some(username@),
        status.scopes.deep_view() == seq!["gist"@],
{
    let mut scopes: Vec<String> = Vec::new();
    scopes.push(String::from_str("gist"));
    assert(scopes.deep_view() =~= seq!["gist"@]);
    GitHubAuthStatus { is_authenticated: true, username: Some(username), scopes }
}

/// The status of a user for whom no token is stored, or whose token was
/// revoked.
pub fn signed_out() -> (status: GitHubAuthStatus)
    ensures
        !status.is_authenticated,
        status.username is None,
        status.scopes@.len() == 0,
{
    GitHubAuthStatus { is_authenticated: false, username: None, scopes: Vec::new() }
}

/// The content of a gist as it is sent: without the whitespace around it.
/// Content of nothing but whitespace is refused.
pub fn trimmed_content(content: &str) -> (sent: Result<String, GitHubError>)
    ensures
        match sent {
            Ok(text) => !is_blank(content@) && text@ == trimmed(content@),
            Err(e) => is_blank(content@) && e@ == GitHubErrorView::InvalidContent(
                "Content cannot be empty"@,
            ),
        },
{
    let kept = trim_chars(&chars_of(content));
    proof {
        trimmed_empty_iff_blank(content@);
    }
    if kept.len() == 0 {
        Err(GitHubError::InvalidContent(String::from_str("Content cannot be empty")))
    } else {
        Ok(string_of(&kept))
    }
}

} // verus!

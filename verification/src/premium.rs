//! The Premium subscription: what the service's answers mean, and the local
//! configuration of the AI features and the Obsidian vault.

use vstd::prelude::*;
use vstd::string::StringExecFns;
use vstd::utf8::encode_utf8;
use crate::encoding::{percent_encoded, url_encode};
use crate::license::types::LicenseCache;
use crate::strings::{chars_of, str_equals, string_of};
use crate::time::{first_of_next_month, next_month_start};
use crate::text::{
    copy_range, is_blank, replace_chars, replaced, trim_chars, trimmed, trimmed_empty_iff_blank,
};

verus! {

/// Tokens that a Premium subscription may spend in a month.
pub const MONTHLY_TOKEN_LIMIT: i64 = 1_000_000;

/// Why a Premium operation failed.
#[derive(Debug)]
pub enum PremiumError {
    NetworkError(String),
    InvalidLicense,
    PremiumRequired,
    SubscriptionExpired,
    TokenLimitExceeded(String),
    StorageError(String),
    AIServiceError(String),
    ObsidianError(String),
    ValidationError(String),
}

/// The mathematical content of a [`PremiumError`].
pub enum PremiumErrorView {
    NetworkError(Seq<char>),
    InvalidLicense,
    PremiumRequired,
    SubscriptionExpired,
    TokenLimitExceeded(Seq<char>),
    StorageError(Seq<char>),
    AIServiceError(Seq<char>),
    ObsidianError(Seq<char>),
    ValidationError(Seq<char>),
}

impl View for PremiumError {
    type V = PremiumErrorView;

    open spec fn view(&self) -> PremiumErrorView {
        match self {
            PremiumError::NetworkError(m) => PremiumErrorView::NetworkError(m@),
            PremiumError::InvalidLicense => PremiumErrorView::InvalidLicense,
            PremiumError::PremiumRequired => PremiumErrorView::PremiumRequired,
            PremiumError::SubscriptionExpired => PremiumErrorView::SubscriptionExpired,
            PremiumError::TokenLimitExceeded(m) => PremiumErrorView::TokenLimitExceeded(m@),
            PremiumError::StorageError(m) => PremiumErrorView::StorageError(m@),
            PremiumError::AIServiceError(m) => PremiumErrorView::AIServiceError(m@),
            PremiumError::ObsidianError(m) => PremiumErrorView::ObsidianError(m@),
            PremiumError::ValidationError(m) => PremiumErrorView::ValidationError(m@),
        }
    }
}

impl PremiumErrorView {
    /// The text shown to the user for this error.
    pub open spec fn message(self) -> Seq<char> {
        match self {
            PremiumErrorView::NetworkError(m) => "Network error: "@ + m,
            PremiumErrorView::InvalidLicense => "Invalid license"@,
            PremiumErrorView::PremiumRequired => "Premium subscription required"@,
            PremiumErrorView::SubscriptionExpired => "Subscription expired"@,
            PremiumErrorView::TokenLimitExceeded(m) => "Token limit exceeded: "@ + m,
            PremiumErrorView::StorageError(m) => "Storage error: "@ + m,
            PremiumErrorView::AIServiceError(m) => "AI service error: "@ + m,
            PremiumErrorView::ObsidianError(m) => "Obsidian error: "@ + m,
            PremiumErrorView::ValidationError(m) => "Validation error: "@ + m,
        }
    }
}

impl PremiumError {
    /// The text shown to the user for this error.
    pub fn to_string(&self) -> (text: String)
        ensures
            text@ == self@.message(),
    {
        match self {
            PremiumError::NetworkError(m) => String::from_str("Network error: ").concat(m.as_str()),
            PremiumError::InvalidLicense => String::from_str("Invalid license"),
            PremiumError::PremiumRequired => String::from_str("Premium subscription required"),
            PremiumError::SubscriptionExpired => String::from_str("Subscription expired"),
            PremiumError::TokenLimitExceeded(m) => String::from_str(
                "Token limit exceeded: ",
            ).concat(m.as_str()),
            PremiumError::StorageError(m) => String::from_str("Storage error: ").concat(m.as_str()),
            PremiumError::AIServiceError(m) => String::from_str("AI service error: ").concat(
                m.as_str(),
            ),
            PremiumError::ObsidianError(m) => String::from_str("Obsidian error: ").concat(
                m.as_str(),
            ),
            PremiumError::ValidationError(m) => String::from_str("Validation error: ").concat(
                m.as_str(),
            ),
        }
    }
}

/// Where a subscription stands.
#[derive(Debug, Clone)]
pub struct SubscriptionStatus {
    /// `free`, `pro` or `premium`.
    pub tier: String,
    pub is_active: bool,
    /// The end of the current period, as RFC 3339 text.
    pub expires_at: Option<String>,
    pub tokens_used: i64,
    pub tokens_remaining: i64,
}

/// How much of the month's AI allowance is spent.
#[derive(Debug, Clone)]
pub struct UsageStats {
    pub tokens_used: i64,
    pub tokens_remaining: i64,
    pub request_count: i32,
    /// The day of the next reset: the first of next month.
    pub resets_at: String,
}

/// The answer of an AI feature.
#[derive(Debug, Clone)]
pub struct AIResponse {
    pub result: String,
    pub tokens_used_this_request: i64,
    pub tokens_remaining: i64,
}

/// Where a note goes in the vault.
#[derive(Debug, Clone, Copy, PartialEq, Eq, Structural)]
pub enum ObsidianLocation {
    DailyNote,
    SpecificNote,
    NewNote,
}

impl Default for ObsidianLocation {
    fn default() -> (location: Self)
        ensures
            location == ObsidianLocation::DailyNote,
    {
        ObsidianLocation::DailyNote
    }
}

/// The Obsidian vault and how notes are added to it.
#[derive(Debug, Clone)]
pub struct ObsidianConfig {
    pub vault_path: String,
    pub default_location: ObsidianLocation,
    pub specific_note_path: Option<String>,
    pub new_note_folder: Option<String>,
    pub template: Option<String>,
}

impl Default for ObsidianConfig {
    fn default() -> (config: Self)
        ensures
            config.vault_path@.len() == 0,
            config.default_location == ObsidianLocation::DailyNote,
            config.specific_note_path is None,
            config.new_note_folder is None,
            config.template is None,
    {
        ObsidianConfig {
            vault_path: String::new(),
            default_location: ObsidianLocation::DailyNote,
            specific_note_path: None,
            new_note_folder: None,
            template: None,
        }
    }
}

/// The instructions that the AI features start from where the user has set
/// none.
pub const DEFAULT_SYSTEM_INSTRUCTIONS: &'static str =
    "You are an expert at refining text for AI prompts. Take the user's stream of consciousness or rough notes and transform them into clear, well-structured prompts optimized for AI assistants. Focus on clarity, specificity, and actionable instructions.";

/// The configuration of the AI features.
#[derive(Debug, Clone)]
pub struct AIConfig {
    pub system_instructions: String,
}

impl Default for AIConfig {
    fn default() -> (config: Self)
        ensures
            config.system_instructions@ == DEFAULT_SYSTEM_INSTRUCTIONS@,
    {
        AIConfig { system_instructions: String::from_str(DEFAULT_SYSTEM_INSTRUCTIONS) }
    }
}

/// A named prompt for the AI features.
#[derive(Debug, Clone)]
pub struct AIPreset {
    pub id: String,
    pub name: String,
    pub description: String,
    pub system_prompt: String,
    pub enabled: bool,
}

/// The stored presets.
#[derive(Debug, Clone)]
pub struct AIPresetsConfig {
    pub presets: Vec<AIPreset>,
}

impl Default for AIPresetsConfig {
    fn default() -> (config: Self)
        ensures
            config.presets@.len() == 0,
    {
        AIPresetsConfig { presets: Vec::new() }
    }
}

/// The AI features of the Premium tier.
#[derive(Debug, Clone, Copy, PartialEq, Eq, Structural)]
pub enum PremiumFeature {
    PromptOptimizer,
    QuickNote,
    ObsidianIntegration,
}

impl PremiumFeature {
    /// The name of the feature in requests to the service.
    pub open spec fn name(self) -> Seq<char> {
        match self {
            PremiumFeature::PromptOptimizer => "prompt_optimizer"@,
            PremiumFeature::QuickNote => "quick_note"@,
            PremiumFeature::ObsidianIntegration => "obsidian"@,
        }
    }

    /// The name of the feature in requests to the service.
    pub fn as_str(&self) -> (name: &'static str)
        ensures
            name@ == self.name(),
    {
        match self {
            PremiumFeature::PromptOptimizer => "prompt_optimizer",
            PremiumFeature::QuickNote => "quick_note",
            PremiumFeature::ObsidianIntegration => "obsidian",
        }
    }
}

/// What adding a note to the vault came to.
#[derive(Debug, Clone)]
pub struct ObsidianResult {
    pub note_name: String,
    pub vault_name: String,
    pub open_uri: String,
}

/// One row of the service's answer to the question of Premium access.
#[derive(Debug, Clone)]
pub struct PremiumAccessResponse {
    pub has_access: bool,
    pub tier: String,
    pub is_active: bool,
    pub tokens_used: i64,
    pub tokens_remaining: i64,
    pub current_period_end: Option<String>,
}

/// The service's answer to the question of Premium access.
#[derive(Debug, Clone)]
pub enum PremiumAccessReply {
    /// The request failed; the text is the body of the answer.
    Refused(String),
    /// The rows that the service returned.
    Rows(Vec<PremiumAccessResponse>),
}

/// The answer of the AI proxy.
#[derive(Debug, Clone)]
pub struct AiProxyResponse {
    pub result: Option<String>,
    pub tokens_used_this_request: Option<i64>,
    pub tokens_remaining: Option<i64>,
    pub error: Option<String>,
    pub code: Option<String>,
    pub message: Option<String>,
}

/// The answer to a request for a customer portal session.
#[derive(Debug, Clone)]
pub struct PortalSessionResponse {
    pub success: Option<bool>,
    pub url: Option<String>,
    pub error: Option<String>,
}

/// Why a path is no vault, if it is none: it must exist, be a directory and
/// hold a `.obsidian` folder.
pub open spec fn vault_refusal(exists: bool, is_dir: bool, has_obsidian_folder: bool) -> Option<
    Seq<char>,
> {
    if !exists {
        Some("Vault path does not exist"@)
    } else if !is_dir {
        Some("Vault path is not a directory"@)
    } else if !has_obsidian_folder {
        Some("Not a valid Obsidian vault (missing .obsidian folder)"@)
    } else {
        None
    }
}

/// Whether a path is an Obsidian vault, given what the file system says of
/// it: whether it exists, whether it is a directory, and whether it holds a
/// `.obsidian` folder.
pub fn validate_obsidian_vault(exists: bool, is_dir: bool, has_obsidian_folder: bool) -> (valid:
    Result<bool, PremiumError>)
    ensures
        match valid {
            Ok(yes) => yes && vault_refusal(exists, is_dir, has_obsidian_folder) is None,
            Err(e) => vault_refusal(exists, is_dir, has_obsidian_folder) matches Some(reason)
                && e@ == PremiumErrorView::ObsidianError(reason),
        },
{
    if !exists {
        return Err(PremiumError::ObsidianError(String::from_str("Vault path does not exist")));
    }
    if !is_dir {
        return Err(PremiumError::ObsidianError(String::from_str("Vault path is not a directory")));
    }
    if !has_obsidian_folder {
        return Err(
            PremiumError::ObsidianError(
                String::from_str("Not a valid Obsidian vault (missing .obsidian folder)"),
            ),
        );
    }
    Ok(true)
}

/// Reads the service's answer to the question of Premium access: the first
/// row decides, and it must grant access.
pub fn validate_premium_license(reply: PremiumAccessReply) -> (status: Result<
    SubscriptionStatus,
    PremiumError,
>)
    ensures
        match reply {
            PremiumAccessReply::Refused(text) => status matches Err(e) && e@
                == PremiumErrorView::ValidationError(text@),
            PremiumAccessReply::Rows(rows) => if rows@.len() > 0 && rows@[0].has_access {
                status matches Ok(s) && s.tier@ == rows@[0].tier@ && s.is_active
                    == rows@[0].is_active && s.expires_at.deep_view()
                    == rows@[0].current_period_end.deep_view() && s.tokens_used
                    == rows@[0].tokens_used && s.tokens_remaining == rows@[0].tokens_remaining
            } else {
                status matches Err(e) && e@ == PremiumErrorView::InvalidLicense
            },
        },
{
    match reply {
        PremiumAccessReply::Refused(text) => Err(PremiumError::ValidationError(text)),
        PremiumAccessReply::Rows(rows) => {
            if rows.len() == 0 {
                return Err(PremiumError::InvalidLicense);
            }
            let access = &rows[0];
            if !access.has_access {
                return Err(PremiumError::InvalidLicense);
            }
            Ok(
                SubscriptionStatus {
                    tier: access.tier.clone(),
                    is_active: access.is_active,
                    expires_at: match &access.current_period_end {
                        Some(end) => Some(end.clone()),
                        None => None,
                    },
                    tokens_used: access.tokens_used,
                    tokens_remaining: access.tokens_remaining,
                },
            )
        },
    }
}

/// The prompt as it is sent: without the whitespace around it. A prompt of
/// nothing but whitespace is refused.
pub fn checked_prompt(prompt: &str) -> (sent: Result<String, PremiumError>)
    ensures
        match sent {
            Ok(text) => !is_blank(prompt@) && text@ == trimmed(prompt@),
            Err(e) => is_blank(prompt@) && e@ == PremiumErrorView::ValidationError(
                "Prompt cannot be empty"@,
            ),
        },
{
    let chars = chars_of(prompt);
    let kept = trim_chars(&chars);
    proof {
        trimmed_empty_iff_blank(prompt@);
    }
    if kept.len() == 0 {
        Err(PremiumError::ValidationError(String::from_str("Prompt cannot be empty")))
    } else {
        Ok(string_of(&kept))
    }
}

/// The error that an answer of the AI proxy with a failing status stands
/// for, by its code.
pub open spec fn ai_refusal(
    code: Option<Seq<char>>,
    error: Option<Seq<char>>,
    message: Option<Seq<char>>,
) -> PremiumErrorView {
    let error_message = match error {
        Some(text) => text,
        None => "Unknown error"@,
    };
    if code == Some("INVALID_LICENSE"@) {
        PremiumErrorView::InvalidLicense
    } else if code == Some("PREMIUM_REQUIRED"@) {
        PremiumErrorView::PremiumRequired
    } else if code == Some("SUBSCRIPTION_EXPIRED"@) {
        PremiumErrorView::SubscriptionExpired
    } else if code == Some("TOKEN_LIMIT_EXCEEDED"@) {
        PremiumErrorView::TokenLimitExceeded(
            match message {
                Some(text) => text,
                None => error_message,
            },
        )
    } else {
        PremiumErrorView::AIServiceError(error_message)
    }
}

/// Reads the answer of the AI proxy. A failing status is an error by its
/// code; a passing one must carry a result, and counts that are missing are
/// taken as nothing spent and the whole allowance left.
pub fn call_ai_feature(http_success: bool, body: AiProxyResponse) -> (answer: Result<
    AIResponse,
    PremiumError,
>)
    ensures
        match answer {
            Ok(response) => {
                &&& http_success
                &&& body.result.deep_view() == Some(response.result@)
                &&& response.tokens_used_this_request == (match body.tokens_used_this_request {
                    Some(n) => n,
                    None => 0,
                })
                &&& response.tokens_remaining == (match body.tokens_remaining {
                    Some(n) => n,
                    None => MONTHLY_TOKEN_LIMIT,
                })
            },
            Err(e) => if http_success {
                body.result is None && e@ == PremiumErrorView::AIServiceError(
                    "No result in response"@,
                )
            } else {
                e@ == ai_refusal(
                    body.code.deep_view(),
                    body.error.deep_view(),
                    body.message.deep_view(),
                )
            },
        },
{
    if !http_success {
        let error_message = match body.error {
            Some(text) => text,
            None => String::from_str("Unknown error"),
        };
        let code = match body.code {
            Some(code) => code,
            None => String::new(),
        };
        proof {
            reveal_strlit("INVALID_LICENSE");
            reveal_strlit("PREMIUM_REQUIRED");
            reveal_strlit("SUBSCRIPTION_EXPIRED");
            reveal_strlit("TOKEN_LIMIT_EXCEEDED");
            assert("INVALID_LICENSE"@.len() > 0 && "PREMIUM_REQUIRED"@.len() > 0
                && "SUBSCRIPTION_EXPIRED"@.len() > 0 && "TOKEN_LIMIT_EXCEEDED"@.len() > 0);
        }
        return if str_equals(code.as_str(), "INVALID_LICENSE") {
            Err(PremiumError::InvalidLicense)
        } else if str_equals(code.as_str(), "PREMIUM_REQUIRED") {
            Err(PremiumError::PremiumRequired)
        } else if str_equals(code.as_str(), "SUBSCRIPTION_EXPIRED") {
            Err(PremiumError::SubscriptionExpired)
        } else if str_equals(code.as_str(), "TOKEN_LIMIT_EXCEEDED") {
            Err(
                PremiumError::TokenLimitExceeded(
                    match body.message {
                        Some(text) => text,
                        None => error_message,
                    },
                ),
            )
        } else {
            Err(PremiumError::AIServiceError(error_message))
        };
    }
    let result = match body.result {
        Some(result) => result,
        None => {
            return Err(PremiumError::AIServiceError(String::from_str("No result in response")));
        },
    };
    Ok(
        AIResponse {
            result,
            tokens_used_this_request: match body.tokens_used_this_request {
                Some(n) => n,
                None => 0,
            },
            tokens_remaining: match body.tokens_remaining {
                Some(n) => n,
                None => MONTHLY_TOKEN_LIMIT,
            },
        },
    )
}

/// Reads the answer to a request for a customer portal session: the address
/// of the portal, where the request passed and the answer holds one.
pub fn create_customer_portal_session(http_success: bool, body: PortalSessionResponse) -> (url:
    Result<String, PremiumError>)
    ensures
        match url {
            Ok(address) => http_success && body.url.deep_view() == Some(address@),
            Err(e) => if !http_success {
                e@ == PremiumErrorView::ValidationError(
                    match body.error {
                        Some(text) => text@,
                        None => "Failed to create portal session"@,
                    },
                )
            } else {
                body.url is None && e@ == PremiumErrorView::ValidationError(
                    "No portal URL in response"@,
                )
            },
        },
{
    if !http_success {
        let error_message = match body.error {
            Some(text) => text,
            None => String::from_str("Failed to create portal session"),
        };
        return Err(PremiumError::ValidationError(error_message));
    }
    match body.url {
        Some(address) => Ok(address),
        None => Err(PremiumError::ValidationError(String::from_str("No portal URL in response"))),
    }
}

/// The usage of a subscription, as of a day in the given year and month:
/// the allowance is reset on the first of the month after.
pub fn get_ai_usage(status: &SubscriptionStatus, year: i32, month: u32) -> (usage: UsageStats)
    ensures
        usage.tokens_used == status.tokens_used,
        usage.tokens_remaining == status.tokens_remaining,
        usage.request_count == 0,
        usage.resets_at@ == next_month_start(year, month),
{
    UsageStats {
        tokens_used: status.tokens_used,
        tokens_remaining: status.tokens_remaining,
        request_count: 0,
        resets_at: first_of_next_month(year, month),
    }
}

/// The moment at which a note is made, written in the three ways that a
/// note uses.
#[derive(Debug, Clone)]
pub struct NoteStamps {
    /// Day and time as in a file name: `2024-01-31 174502`.
    pub file: String,
    /// Day and time to the minute: `2024-01-31 17:45`.
    pub minute: String,
    /// The day: `2024-01-31`.
    pub date: String,
}

/// A note to be made in the vault.
#[derive(Debug, Clone)]
pub struct ObsidianNote {
    /// What is reported once the note is made.
    pub result: ObsidianResult,
    /// The address that makes the note when it is opened.
    pub create_uri: String,
}

/// How many slashes `s` begins with.
pub open spec fn leading_slashes(s: Seq<char>) -> int
    decreases s.len(),
{
    if s.len() > 0 && s[0] == '/' {
        1 + leading_slashes(s.drop_first())
    } else {
        0
    }
}

/// How many slashes `s` ends with.
pub open spec fn trailing_slashes(s: Seq<char>) -> int
    decreases s.len(),
{
    if s.len() > 0 && s.last() == '/' {
        1 + trailing_slashes(s.drop_last())
    } else {
        0
    }
}

/// `s` without the slashes at either end.
pub open spec fn without_slashes(s: Seq<char>) -> Seq<char> {
    let rest = s.skip(leading_slashes(s));
    rest.take(rest.len() - trailing_slashes(rest))
}

/// The name of a note made at the given moment, in the folder for new notes
/// where one is set.
pub open spec fn note_name(folder: Option<Seq<char>>, file_stamp: Seq<char>) -> Seq<char> {
    match folder {
        Some(f) => without_slashes(f) + "/Wingman "@ + file_stamp,
        None => "Wingman "@ + file_stamp,
    }
}

/// The text of a note: the content, or the template with the content, the
/// time and the day put in.
pub open spec fn note_text(
    template: Option<Seq<char>>,
    content: Seq<char>,
    minute_stamp: Seq<char>,
    date_stamp: Seq<char>,
) -> Seq<char> {
    match template {
        Some(t) => replaced(
            replaced(replaced(t, "{{content}}"@, content), "{{timestamp}}"@, minute_stamp),
            "{{date}}"@,
            date_stamp,
        ),
        None => content,
    }
}

/// A text as it stands in an address.
pub open spec fn in_address(text: Seq<char>) -> Seq<char> {
    percent_encoded(encode_utf8(text))
}

/// The address that makes a note.
pub open spec fn create_address(vault: Seq<char>, name: Seq<char>, text: Seq<char>) -> Seq<char> {
    "obsidian://new?vault="@ + in_address(vault) + "&name="@ + in_address(name) + "&content="@
        + in_address(text)
}

/// The address that opens a note.
pub open spec fn open_address(vault: Seq<char>, name: Seq<char>) -> Seq<char> {
    "obsidian://open?vault="@ + in_address(vault) + "&file="@ + in_address(name)
}

/// The slashes at the start are a run of slashes that another character, or
/// the end, follows.
pub proof fn leading_slashes_is(s: Seq<char>, n: int)
    requires
        0 <= n <= s.len(),
        forall|k: int| 0 <= k < n ==> s[k] == '/',
        n < s.len() ==> s[n] != '/',
    ensures
        leading_slashes(s) == n,
    decreases s.len(),
{
    if n > 0 {
        let rest = s.drop_first();
        assert forall|k: int| 0 <= k < n - 1 implies rest[k] == '/' by {
            assert(rest[k] == s[k + 1]);
        }
        if n - 1 < rest.len() {
            assert(rest[n - 1] == s[n]);
        }
        leading_slashes_is(rest, n - 1);
    }
}

/// The slashes at the end are a run of slashes that another character, or
/// the beginning, precedes.
pub proof fn trailing_slashes_is(s: Seq<char>, n: int)
    requires
        0 <= n <= s.len(),
        forall|k: int| s.len() - n <= k < s.len() ==> s[k] == '/',
        n < s.len() ==> s[s.len() - n - 1] != '/',
    ensures
        trailing_slashes(s) == n,
    decreases s.len(),
{
    if n > 0 {
        let rest = s.drop_last();
        assert forall|k: int| rest.len() - (n - 1) <= k < rest.len() implies rest[k] == '/' by {
            assert(rest[k] == s[k]);
        }
        if n - 1 < rest.len() {
            assert(rest[rest.len() - (n - 1) - 1] == s[s.len() - n - 1]);
        }
        trailing_slashes_is(rest, n - 1);
    }
}

fn strip_slashes(s: &Vec<char>) -> (out: Vec<char>)
    ensures
        out@ == without_slashes(s@),
{
    let mut from: usize = 0;
    while from < s.len() && s[from] == '/'
        invariant
            from <= s.len(),
            forall|k: int| 0 <= k < from ==> s@[k] == '/',
        decreases s.len() - from,
    {
        from += 1;
    }
    let mut to: usize = s.len();
    while to > from && s[to - 1] == '/'
        invariant
            from <= to <= s.len(),
            forall|k: int| to <= k < s.len() ==> s@[k] == '/',
        decreases to,
    {
        to -= 1;
    }
    let out = copy_range(s, from, to);
    proof {
        leading_slashes_is(s@, from as int);
        let rest = s@.skip(from as int);
        assert forall|k: int| rest.len() - (s.len() - to) <= k < rest.len() implies rest[k]
            == '/' by {
            assert(rest[k] == s@[k + from]);
        }
        if s.len() - to < rest.len() {
            assert(rest[rest.len() - (s.len() - to) - 1] == s@[to - 1]);
        }
        trailing_slashes_is(rest, s.len() - to);
        assert(out@ =~= rest.take(rest.len() - (s.len() - to)));
    }
    out
}

/// The note that adding `content` to the vault named `vault_name` makes, at
/// the moment that `stamps` write. A new note is always made.
pub fn add_to_obsidian_vault(
    content: &str,
    config: &ObsidianConfig,
    vault_name: &str,
    stamps: &NoteStamps,
) -> (note: ObsidianNote)
    ensures
        note.result.vault_name@ == vault_name@,
        note.result.note_name@ == note_name(config.new_note_folder.deep_view(), stamps.file@),
        note.result.open_uri@ == open_address(vault_name@, note.result.note_name@),
        note.create_uri@ == create_address(
            vault_name@,
            note.result.note_name@,
            note_text(config.template.deep_view(), content@, stamps.minute@, stamps.date@),
        ),
{
    let name = match &config.new_note_folder {
        Some(folder) => string_of(&strip_slashes(&chars_of(folder.as_str()))).concat(
            "/Wingman ",
        ).concat(stamps.file.as_str()),
        None => String::from_str("Wingman ").concat(stamps.file.as_str()),
    };
    let text = match &config.template {
        Some(template) => {
            let t = chars_of(template.as_str());
            let t1 = replace_chars(&t, &chars_of("{{content}}"), &chars_of(content));
            let t2 = replace_chars(
                &t1,
                &chars_of("{{timestamp}}"),
                &chars_of(stamps.minute.as_str()),
            );
            let t3 = replace_chars(&t2, &chars_of("{{date}}"), &chars_of(stamps.date.as_str()));
            string_of(&t3)
        },
        None => content.to_owned(),
    };
    let vault_part = url_encode(vault_name);
    let name_part = url_encode(name.as_str());
    let text_part = url_encode(text.as_str());
    let create_uri = String::from_str("obsidian://new?vault=").concat(vault_part.as_str()).concat(
        "&name=",
    ).concat(name_part.as_str()).concat("&content=").concat(text_part.as_str());
    let open_uri = String::from_str("obsidian://open?vault=").concat(vault_part.as_str()).concat(
        "&file=",
    ).concat(name_part.as_str());
    ObsidianNote {
        result: ObsidianResult { note_name: name, vault_name: vault_name.to_owned(), open_uri },
        create_uri,
    }
}

/// The license key and the email for which a customer portal is asked:
/// both must be cached.
pub fn portal_credentials(cache: &LicenseCache) -> (found: Result<(String, String), String>)
    ensures
        match found {
            Ok(pair) => cache@.license_key == Some(pair.0@) && cache@.email == Some(pair.1@),
            Err(reason) => if cache@.license_key is None {
                reason@ == "No active license key found"@
            } else {
                cache@.email is None && reason@ == "No active license email found"@
            },
        },
{
    let license_key = match &cache.license_key {
        Some(key) => key.clone(),
        None => {
            return Err(String::from_str("No active license key found"));
        },
    };
    match &cache.email {
        Some(email) => Ok((license_key, email.clone())),
        None => Err(String::from_str("No active license email found")),
    }
}

/// Whether a vault is configured at all: notes are added only to a vault
/// that has a path.
pub fn vault_configured(config: &ObsidianConfig) -> (configured: Result<(), String>)
    ensures
        match configured {
            Ok(_) => config.vault_path@.len() > 0,
            Err(reason) => config.vault_path@.len() == 0 && reason@
                == "Obsidian vault not configured. Please configure in Settings."@,
        },
{
    if config.vault_path.as_str().is_empty() {
        Err(String::from_str("Obsidian vault not configured. Please configure in Settings."))
    } else {
        Ok(())
    }
}

} // verus!

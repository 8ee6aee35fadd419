//! What the remote authority's answers mean for the local record.
//!
//! The network exchange itself happens outside this library. Here stand the
//! request bodies, the interpretation of each reply, and what is to become of
//! the cache file afterwards.

use vstd::prelude::*;
use vstd::string::StringExecFns;
use crate::json::{json_object_bytes, write_object};
use crate::license::codec::loaded_record;
use crate::license::status::{copy_text, status_of, OFFLINE_CHECK_DAYS};
use crate::license::types::{
    LicenseCache, LicenseCacheView, LicenseError, LicenseErrorView, LicenseStatus,
    LicenseStatusInfo, LicenseStatusInfoView, LicenseTier,
};
use crate::strings::{contains_text, str_contains, str_equals};
use crate::time::{rfc3339_text, Timestamp};

verus! {

/// The authority's reply to an activation request.
#[derive(Debug, Clone)]
pub struct ValidateLicenseResponse {
    pub valid: bool,
    pub tier: Option<String>,
    pub error: Option<String>,
    pub message: Option<String>,
}

/// The mathematical content of a [`ValidateLicenseResponse`].
pub struct ValidateLicenseResponseView {
    pub valid: bool,
    pub tier: Option<Seq<char>>,
    pub error: Option<Seq<char>>,
    pub message: Option<Seq<char>>,
}

impl View for ValidateLicenseResponse {
    type V = ValidateLicenseResponseView;

    open spec fn view(&self) -> ValidateLicenseResponseView {
        ValidateLicenseResponseView {
            valid: self.valid,
            tier: self.tier.deep_view(),
            error: self.error.deep_view(),
            message: self.message.deep_view(),
        }
    }
}

/// The authority's reply to a deactivation request.
#[derive(Debug, Clone)]
pub struct DeactivateResponse {
    pub success: bool,
    pub error: Option<String>,
}

/// The mathematical content of a [`DeactivateResponse`].
pub struct DeactivateResponseView {
    pub success: bool,
    pub error: Option<Seq<char>>,
}

impl View for DeactivateResponse {
    type V = DeactivateResponseView;

    open spec fn view(&self) -> DeactivateResponseView {
        DeactivateResponseView { success: self.success, error: self.error.deep_view() }
    }
}

/// What is to be done with the cache file after an operation.
#[derive(Debug, Clone, Copy, PartialEq, Eq, Structural)]
pub enum CacheAction {
    /// Leave the file as it is.
    Keep,
    /// Delete the file.
    Clear,
}

/// What a refresh has to do next.
#[derive(Debug, Clone)]
pub enum RefreshStep {
    /// Nothing is activated: report this status and stop.
    Report(LicenseStatusInfo),
    /// Validate this license key and email online.
    Validate(String, String),
}

/// The content of a result of building or reading a record.
pub open spec fn outcome_view(outcome: Result<LicenseCache, LicenseError>) -> Result<
    LicenseCacheView,
    LicenseErrorView,
> {
    match outcome {
        Ok(cache) => Ok(cache@),
        Err(e) => Err(e@),
    }
}

/// The content of a result that carries no value.
pub open spec fn unit_outcome_view(outcome: Result<(), LicenseError>) -> Result<
    (),
    LicenseErrorView,
> {
    match outcome {
        Ok(_) => Ok(()),
        Err(e) => Err(e@),
    }
}

/// The tier that a reply grants: `Pro` for `"pro"`, `Free` for anything else.
pub open spec fn tier_granted(tier: Option<Seq<char>>) -> LicenseTier {
    if tier == Some("pro"@) {
        LicenseTier::Pro
    } else {
        LicenseTier::Free
    }
}

/// How an activation reply is to be read. A reply that is not valid is
/// refused by its error text; a valid one that came with a failing HTTP
/// status is refused too; any other grants a tier.
pub open spec fn validation_verdict(response: ValidateLicenseResponseView, http_success: bool)
    -> Result<LicenseTier, LicenseErrorView> {
    if !response.valid {
        match response.error {
            Some(error) => if contains_text(error, "device limit"@) {
                Err(LicenseErrorView::DeviceLimitExceeded)
            } else {
                Err(LicenseErrorView::ValidationError(error))
            },
            None => Err(LicenseErrorView::InvalidLicense),
        }
    } else if !http_success {
        Err(
            LicenseErrorView::ValidationError(
                match response.message {
                    Some(message) => message,
                    None => "Validation failed"@,
                },
            ),
        )
    } else {
        Ok(tier_granted(response.tier))
    }
}

/// The record of a license that was just validated.
pub open spec fn activated_record(
    license_key: Seq<char>,
    email: Seq<char>,
    tier: LicenseTier,
    device_id: Seq<char>,
    last_validated: Seq<char>,
    validation_expires: Seq<char>,
) -> LicenseCacheView {
    LicenseCacheView {
        license_key: Some(license_key),
        email: Some(email),
        tier,
        status: LicenseStatus::Valid,
        device_id,
        last_validated: Some(last_validated),
        validation_expires: Some(validation_expires),
        grace_period_start: None,
    }
}

/// The two timestamps of a validation at `now`, as stored: `now` itself and
/// the instant thirty days later. `None` where one of them lies outside what
/// the calendar can write.
pub open spec fn validation_stamps(now: Timestamp) -> Option<(Seq<char>, Seq<char>)> {
    match (rfc3339_text(now.secs, now.nanos), now.later_by_days(30)) {
        (Some(validated), Some(later)) => match rfc3339_text(later.secs, later.nanos) {
            Some(expires) => Some((validated, expires)),
            None => None,
        },
        _ => None,
    }
}

/// What an activation at `now` comes to.
pub open spec fn validation_outcome(
    response: ValidateLicenseResponseView,
    http_success: bool,
    license_key: Seq<char>,
    email: Seq<char>,
    device_id: Seq<char>,
    now: Timestamp,
) -> Result<LicenseCacheView, LicenseErrorView> {
    match validation_verdict(response, http_success) {
        Err(e) => Err(e),
        Ok(tier) => match validation_stamps(now) {
            Some(stamps) => Ok(
                activated_record(license_key, email, tier, device_id, stamps.0, stamps.1),
            ),
            None => Err(LicenseErrorView::ValidationError("Validation time out of range"@)),
        },
    }
}

/// How a deactivation reply is to be read.
pub open spec fn deactivation_verdict(response: DeactivateResponseView) -> Result<
    (),
    LicenseErrorView,
> {
    if response.success {
        Ok(())
    } else {
        Err(
            LicenseErrorView::ValidationError(
                match response.error {
                    Some(error) => error,
                    None => "Deactivation failed"@,
                },
            ),
        )
    }
}

/// What becomes of the cache after a deactivation attempt: it is cleared
/// when the authority confirmed, and kept in every other case.
pub open spec fn action_after(outcome: Result<(), LicenseErrorView>) -> CacheAction {
    match outcome {
        Ok(_) => CacheAction::Clear,
        Err(_) => CacheAction::Keep,
    }
}

/// What the cache file holds once `action` was carried out.
pub open spec fn stored_after(stored: Option<Seq<char>>, action: CacheAction) -> Option<
    Seq<char>,
> {
    match action {
        CacheAction::Keep => stored,
        CacheAction::Clear => None,
    }
}

/// The status reported right after a successful online validation.
pub open spec fn fresh_status(cache: LicenseCacheView) -> LicenseStatusInfoView {
    LicenseStatusInfoView {
        tier: cache.tier,
        status: cache.status,
        email: cache.email,
        days_until_expiry: Some(30),
        needs_revalidation: false,
    }
}

/// The status reported where nothing is activated.
pub open spec fn idle_status() -> LicenseStatusInfoView {
    LicenseStatusInfoView {
        tier: LicenseTier::Free,
        status: LicenseStatus::NotActivated,
        email: None,
        days_until_expiry: None,
        needs_revalidation: false,
    }
}

/// The members of an activation request.
pub open spec fn validation_request_members(
    license_key: Seq<char>,
    email: Seq<char>,
    device_id: Seq<char>,
    device_name: Seq<char>,
    os: Seq<char>,
) -> Seq<(Seq<char>, Option<Seq<char>>)> {
    seq![
        ("license_key"@, Some(license_key)),
        ("email"@, Some(email)),
        ("device_id"@, Some(device_id)),
        ("device_name"@, Some(device_name)),
        ("os"@, Some(os)),
    ]
}

/// The members of a deactivation request.
pub open spec fn deactivation_request_members(license_key: Seq<char>, device_id: Seq<char>) -> Seq<
    (Seq<char>, Option<Seq<char>>),
> {
    seq![("license_key"@, Some(license_key)), ("device_id"@, Some(device_id))]
}

/// The body of an activation request.
pub fn validation_request(
    license_key: &str,
    email: &str,
    device_id: &str,
    device_name: &str,
    os: &str,
) -> (body: Result<Vec<u8>, LicenseError>)
    ensures
        body matches Ok(bytes) && bytes@ == json_object_bytes(
            validation_request_members(license_key@, email@, device_id@, device_name@, os@),
        ),
{
    let mut members: Vec<(String, Option<String>)> = Vec::new();
    members.push((String::from_str("license_key"), Some(license_key.to_owned())));
    members.push((String::from_str("email"), Some(email.to_owned())));
    members.push((String::from_str("device_id"), Some(device_id.to_owned())));
    members.push((String::from_str("device_name"), Some(device_name.to_owned())));
    members.push((String::from_str("os"), Some(os.to_owned())));
    assert(members.deep_view() =~= validation_request_members(
        license_key@,
        email@,
        device_id@,
        device_name@,
        os@,
    ));
    match write_object(&members) {
        Ok(bytes) => Ok(bytes),
        Err(message) => Err(LicenseError::NetworkError(message)),
    }
}

/// The body of a deactivation request.
pub fn deactivation_request(license_key: &str, device_id: &str) -> (body: Result<
    Vec<u8>,
    LicenseError,
>)
    ensures
        body matches Ok(bytes) && bytes@ == json_object_bytes(
            deactivation_request_members(license_key@, device_id@),
        ),
{
    let mut members: Vec<(String, Option<String>)> = Vec::new();
    members.push((String::from_str("license_key"), Some(license_key.to_owned())));
    members.push((String::from_str("device_id"), Some(device_id.to_owned())));
    assert(members.deep_view() =~= deactivation_request_members(license_key@, device_id@));
    match write_object(&members) {
        Ok(bytes) => Ok(bytes),
        Err(message) => Err(LicenseError::NetworkError(message)),
    }
}

/// Reads an activation reply: the tier it grants, or why it was refused.
pub fn interpret_validation(response: &ValidateLicenseResponse, http_success: bool) -> (verdict:
    Result<LicenseTier, LicenseError>)
    ensures
        match verdict {
            Ok(tier) => validation_verdict(response@, http_success) == Ok::<
                LicenseTier,
                LicenseErrorView,
            >(tier),
            Err(e) => validation_verdict(response@, http_success) == Err::<
                LicenseTier,
                LicenseErrorView,
            >(e@),
        },
{
    if !response.valid {
        return match &response.error {
            Some(error) => {
                if str_contains(error.as_str(), "device limit") {
                    Err(LicenseError::DeviceLimitExceeded)
                } else {
                    Err(LicenseError::ValidationError(error.clone()))
                }
            },
            None => Err(LicenseError::InvalidLicense),
        };
    }
    if !http_success {
        let message = match &response.message {
            Some(message) => message.clone(),
            None => String::from_str("Validation failed"),
        };
        return Err(LicenseError::ValidationError(message));
    }
    let tier = match &response.tier {
        Some(name) => {
            if str_equals(name.as_str(), "pro") {
                LicenseTier::Pro
            } else {
                LicenseTier::Free
            }
        },
        None => LicenseTier::Free,
    };
    Ok(tier)
}

/// The record of a license validated just now, with its two timestamps as
/// they are to be stored.
pub fn activated_cache(
    license_key: &str,
    email: &str,
    tier: LicenseTier,
    device_id: &str,
    last_validated: String,
    validation_expires: String,
) -> (cache: LicenseCache)
    ensures
        cache@ == activated_record(
            license_key@,
            email@,
            tier,
            device_id@,
            last_validated@,
            validation_expires@,
        ),
        cache@.well_formed(),
{
    LicenseCache {
        license_key: Some(license_key.to_owned()),
        email: Some(email.to_owned()),
        tier,
        status: LicenseStatus::Valid,
        device_id: device_id.to_owned(),
        last_validated: Some(last_validated),
        validation_expires: Some(validation_expires),
        grace_period_start: None,
    }
}

/// Turns the authority's reply to an activation request, received at `now`,
/// into the record to persist, or into the error to report.
///
/// The record is valid from `now` and trusted offline for thirty days. An
/// instant that the calendar cannot write is refused with a validation error.
pub fn validate_license_online(
    response: &ValidateLicenseResponse,
    http_success: bool,
    license_key: &str,
    email: &str,
    device_id: &str,
    now: Timestamp,
) -> (outcome: Result<LicenseCache, LicenseError>)
    ensures
        outcome_view(outcome) == validation_outcome(
            response@,
            http_success,
            license_key@,
            email@,
            device_id@,
            now,
        ),
{
    let tier = match interpret_validation(response, http_success) {
        Ok(tier) => tier,
        Err(e) => {
            return Err(e);
        },
    };
    let validated = now.to_rfc3339();
    let expires = match now.plus_days(30) {
        Some(later) => later.to_rfc3339(),
        None => None,
    };
    match (validated, expires) {
        (Some(validated), Some(expires)) => Ok(
            activated_cache(license_key, email, tier, device_id, validated, expires),
        ),
        _ => Err(LicenseError::ValidationError(String::from_str("Validation time out of range"))),
    }
}

/// Reads the outcome of a deactivation attempt: the reply of the authority,
/// or the error that kept it from arriving.
///
/// The cache is to be cleared only when the authority confirmed. After any
/// failure it is kept as it is.
pub fn deactivate_license_online(reply: Result<DeactivateResponse, LicenseError>) -> (result: (
    Result<(), LicenseError>,
    CacheAction,
))
    ensures
        unit_outcome_view(result.0) == (match reply {
            Ok(response) => deactivation_verdict(response@),
            Err(e) => Err(e@),
        }),
        result.1 == action_after(unit_outcome_view(result.0)),
{
    match reply {
        Ok(response) => {
            if response.success {
                (Ok(()), CacheAction::Clear)
            } else {
                let message = match response.error {
                    Some(error) => error,
                    None => String::from_str("Deactivation failed"),
                };
                (Err(LicenseError::ValidationError(message)), CacheAction::Keep)
            }
        },
        Err(e) => (Err(e), CacheAction::Keep),
    }
}

/// The status to report right after a successful online validation.
pub fn status_after_validation(cache: &LicenseCache) -> (info: LicenseStatusInfo)
    ensures
        info@ == fresh_status(cache@),
{
    LicenseStatusInfo {
        tier: cache.tier,
        status: cache.status,
        email: copy_text(&cache.email),
        days_until_expiry: Some(OFFLINE_CHECK_DAYS),
        needs_revalidation: false,
    }
}

/// The first step of a refresh: a record with both a key and an email is
/// validated online again; any other has nothing to refresh.
pub fn refresh_license(cache: &LicenseCache) -> (step: RefreshStep)
    ensures
        match step {
            RefreshStep::Validate(license_key, email) => cache@.license_key == Some(license_key@)
                && cache@.email == Some(email@),
            RefreshStep::Report(info) => (cache@.license_key is None || cache@.email is None)
                && info@ == idle_status(),
        },
{
    match (&cache.license_key, &cache.email) {
        (Some(license_key), Some(email)) => RefreshStep::Validate(
            license_key.clone(),
            email.clone(),
        ),
        _ => RefreshStep::Report(
            LicenseStatusInfo {
                tier: LicenseTier::Free,
                status: LicenseStatus::NotActivated,
                email: None,
                days_until_expiry: None,
                needs_revalidation: false,
            },
        ),
    }
}

/// A deactivation that failed, for whatever reason, leaves the cache file as
/// it was, and with it the record that is read and every status derived
/// from it.
pub proof fn failed_deactivation_keeps_status(
    outcome: Result<(), LicenseErrorView>,
    device_id: Seq<char>,
    stored: Option<Seq<char>>,
    now: Timestamp,
)
    requires
        outcome is Err,
    ensures
        stored_after(stored, action_after(outcome)) == stored,
        loaded_record(device_id, stored_after(stored, action_after(outcome))) == loaded_record(
            device_id,
            stored,
        ),
        loaded_record(device_id, stored) matches Some(cache) ==> status_of(
            loaded_record(device_id, stored_after(stored, action_after(outcome))).unwrap(),
            now,
        ) == status_of(cache, now),
{
}

/// A confirmed deactivation clears the cache, and the device then reads as
/// never activated.
pub proof fn confirmed_deactivation_clears(device_id: Seq<char>, stored: Option<Seq<char>>)
    ensures
        loaded_record(device_id, stored_after(stored, action_after(Ok(()))))
            == Some(LicenseCacheView::never_activated(device_id)),
{
}

} // verus!

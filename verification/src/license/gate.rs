//! The feature gate: which capabilities a cached record unlocks.

use vstd::prelude::*;
use vstd::string::StringExecFns;
use crate::strings::str_equals;
use crate::license::status::{check_license_status, status_of, status_spec};
use crate::license::types::{
    LicenseCache, LicenseCacheView, LicenseError, LicenseStatus, LicenseStatusInfo,
    LicenseStatusInfoView, LicenseTier, ProFeature,
};
use crate::time::Timestamp;

verus! {

/// Whether a status report unlocks paid features: the license is valid or in
/// its grace window, and its tier is `Pro`.
pub open spec fn grants_pro(info: LicenseStatusInfoView) -> bool {
    (info.status == LicenseStatus::Valid || info.status == LicenseStatus::GracePeriod)
        && info.tier == LicenseTier::Pro
}

/// Whether paid features are unlocked at `now`, given how reading the cache
/// went: a cache that could not be read or decrypted unlocks nothing.
pub open spec fn gate_open(loaded: Result<LicenseCache, LicenseError>, now: Timestamp) -> bool {
    match loaded {
        Ok(cache) => grants_pro(status_of(cache@, now)),
        Err(_) => false,
    }
}

/// Every gated capability, in the order in which it is reported.
pub open spec fn all_features() -> Seq<ProFeature> {
    seq![
        ProFeature::History,
        ProFeature::SyntaxHighlighting,
        ProFeature::Snippets,
        ProFeature::CustomThemes,
        ProFeature::StatsDisplay,
        ProFeature::ExportHistory,
    ]
}

/// Whether a status report unlocks paid features.
pub fn unlocks_pro(info: &LicenseStatusInfo) -> (open: bool)
    ensures
        open == grants_pro(info@),
{
    match info.status {
        LicenseStatus::Valid | LicenseStatus::GracePeriod => match info.tier {
            LicenseTier::Pro => true,
            LicenseTier::Free => false,
        },
        _ => false,
    }
}

/// Whether `feature` is enabled at `now`, given the outcome of reading the
/// cache. Today every feature shares one answer.
pub fn is_feature_enabled(
    feature: ProFeature,
    loaded: &Result<LicenseCache, LicenseError>,
    now: Timestamp,
) -> (enabled: bool)
    ensures
        enabled == gate_open(*loaded, now),
{
    match loaded {
        Ok(cache) => {
            let info = check_license_status(cache, now);
            unlocks_pro(&info)
        },
        Err(_) => false,
    }
}

/// Every gated capability with its answer at `now`.
pub fn get_feature_status(loaded: &Result<LicenseCache, LicenseError>, now: Timestamp) -> (report:
    Vec<(ProFeature, bool)>)
    ensures
        report@.len() == all_features().len(),
        forall|i: int|
            0 <= i < report@.len() ==> report@[i] == (
                #[trigger] all_features()[i],
                gate_open(*loaded, now),
            ),
{
    let is_pro = is_feature_enabled(ProFeature::History, loaded, now);
    let mut report: Vec<(ProFeature, bool)> = Vec::new();
    report.push((ProFeature::History, is_pro));
    report.push((ProFeature::SyntaxHighlighting, is_pro));
    report.push((ProFeature::Snippets, is_pro));
    report.push((ProFeature::CustomThemes, is_pro));
    report.push((ProFeature::StatsDisplay, is_pro));
    report.push((ProFeature::ExportHistory, is_pro));
    report
}

/// A `Pro` record unlocks features while it is valid or in grace, and none
/// once it has expired or where it was never activated.
pub proof fn gate_follows_status(
    cache: LicenseCacheView,
    expires: Option<Timestamp>,
    grace_start: Option<Timestamp>,
    now: Timestamp,
)
    ensures
        ({
            let info = status_spec(cache, expires, grace_start, now);
            &&& info.status == LicenseStatus::Expired ==> !grants_pro(info)
            &&& info.status == LicenseStatus::NotActivated ==> !grants_pro(info)
            &&& info.status == LicenseStatus::Invalid ==> !grants_pro(info)
            &&& info.status == LicenseStatus::GracePeriod ==> (grants_pro(info) <==> cache.tier
                == LicenseTier::Pro)
            &&& info.status == LicenseStatus::Valid ==> (grants_pro(info) <==> cache.tier
                == LicenseTier::Pro)
        }),
{
}

/// A record without a license key grants nothing at any instant, whatever
/// else it holds: it reads as never activated, and no paid feature is
/// unlocked.
pub proof fn no_key_grants_nothing(cache: LicenseCacheView, now: Timestamp)
    requires
        cache.license_key is None,
    ensures
        status_of(cache, now).status == LicenseStatus::NotActivated,
        status_of(cache, now).tier == LicenseTier::Free,
        status_of(cache, now).email is None,
        status_of(cache, now).days_until_expiry is None,
        !status_of(cache, now).needs_revalidation,
        !grants_pro(status_of(cache, now)),
{
}

/// The feature that a name stands for.
pub open spec fn feature_named(name: Seq<char>) -> Option<ProFeature> {
    if name == "history"@ {
        Some(ProFeature::History)
    } else if name == "syntax_highlighting"@ {
        Some(ProFeature::SyntaxHighlighting)
    } else if name == "snippets"@ {
        Some(ProFeature::Snippets)
    } else if name == "custom_themes"@ {
        Some(ProFeature::CustomThemes)
    } else if name == "stats_display"@ {
        Some(ProFeature::StatsDisplay)
    } else if name == "export_history"@ {
        Some(ProFeature::ExportHistory)
    } else {
        None
    }
}

/// The feature that a name stands for.
pub fn feature_from_name(name: &str) -> (feature: Option<ProFeature>)
    ensures
        feature == feature_named(name@),
{
    if str_equals(name, "history") {
        Some(ProFeature::History)
    } else if str_equals(name, "syntax_highlighting") {
        Some(ProFeature::SyntaxHighlighting)
    } else if str_equals(name, "snippets") {
        Some(ProFeature::Snippets)
    } else if str_equals(name, "custom_themes") {
        Some(ProFeature::CustomThemes)
    } else if str_equals(name, "stats_display") {
        Some(ProFeature::StatsDisplay)
    } else if str_equals(name, "export_history") {
        Some(ProFeature::ExportHistory)
    } else {
        None
    }
}

/// Whether the feature of the given name is enabled at `now`. A name that
/// stands for no feature is an error.
pub fn check_feature_enabled(
    feature: &str,
    loaded: &Result<LicenseCache, LicenseError>,
    now: Timestamp,
) -> (enabled: Result<bool, String>)
    ensures
        match enabled {
            Ok(yes) => feature_named(feature@) is Some && yes == gate_open(*loaded, now),
            Err(reason) => feature_named(feature@) is None && reason@ == "Unknown feature: "@
                + feature@,
        },
{
    match feature_from_name(feature) {
        Some(pro_feature) => Ok(is_feature_enabled(pro_feature, loaded, now)),
        None => Err(String::from_str("Unknown feature: ").concat(feature)),
    }
}

} // verus!

//! What is known of the running version and of a newer one.

use vstd::prelude::*;
use vstd::string::StringExecFns;

verus! {

/// The version of this library.
pub const VERSION: &'static str = "0.1.0";

/// The outcome of looking for an update.
#[derive(Debug, Clone)]
pub struct UpdateInfo {
    pub current_version: String,
    pub latest_version: Option<String>,
    pub has_update: bool,
    pub release_notes: Option<String>,
    pub download_url: Option<String>,
}

/// The version that is running.
pub fn get_current_version() -> (version: String)
    ensures
        version@ == VERSION@,
{
    String::from_str(VERSION)
}

/// A newer version that the update service offers.
#[derive(Debug, Clone)]
pub struct AvailableUpdate {
    pub version: String,
    pub notes: Option<String>,
    pub download_url: String,
}

/// The report for a check that found `found`, or nothing newer: then the
/// latest version is the running one.
pub fn check_for_updates(found: Option<AvailableUpdate>) -> (info: UpdateInfo)
    ensures
        info.current_version@ == VERSION@,
        match found {
            Some(update) => {
                &&& info.has_update
                &&& info.latest_version.deep_view() == Some(update.version@)
                &&& info.release_notes.deep_view() == update.notes.deep_view()
                &&& info.download_url.deep_view() == Some(update.download_url@)
            },
            None => {
                &&& !info.has_update
                &&& info.latest_version.deep_view() == Some(VERSION@)
                &&& info.release_notes is None
                &&& info.download_url is None
            },
        },
{
    match found {
        Some(update) => UpdateInfo {
            current_version: get_current_version(),
            latest_version: Some(update.version),
            has_update: true,
            release_notes: update.notes,
            download_url: Some(update.download_url),
        },
        None => UpdateInfo {
            current_version: get_current_version(),
            latest_version: Some(get_current_version()),
            has_update: false,
            release_notes: None,
            download_url: None,
        },
    }
}

} // verus!

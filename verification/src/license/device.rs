//! What identifies the device to the remote authority. The readings
//! themselves come from the platform; here stands what is made of them.

use vstd::prelude::*;
use vstd::string::StringExecFns;
use crate::license::types::{LicenseError, LicenseErrorView};
use crate::strings::str_equals;

verus! {

/// The name under which an operating system is reported, by the name of the
/// build target.
pub open spec fn os_display_name(target_os: Seq<char>) -> Seq<char> {
    if target_os == "macos"@ {
        "macOS"@
    } else if target_os == "windows"@ {
        "Windows"@
    } else if target_os == "linux"@ {
        "Linux"@
    } else {
        "Unknown"@
    }
}

/// The device identifier, or the error that is fatal to every other
/// operation: without an identity there is no key and no cache.
pub fn get_device_id(reading: Result<String, String>) -> (id: Result<String, LicenseError>)
    ensures
        match (reading, id) {
            (Ok(found), Ok(id)) => id@ == found@,
            (Err(reason), Err(e)) => e@ == LicenseErrorView::DeviceIdError(reason@),
            _ => false,
        },
{
    match reading {
        Ok(found) => Ok(found),
        Err(reason) => Err(LicenseError::DeviceIdError(reason)),
    }
}

/// The human-readable device name: the host name where there is one.
pub fn get_device_name(host_name: Option<String>) -> (name: String)
    ensures
        name@ == (match host_name {
            Some(host) => host@,
            None => "Unknown Device"@,
        }),
{
    match host_name {
        Some(host) => host,
        None => String::from_str("Unknown Device"),
    }
}

/// The operating system's name as it is reported to the authority.
pub fn get_os_name(target_os: &str) -> (name: &'static str)
    ensures
        name@ == os_display_name(target_os@),
{
    if str_equals(target_os, "macos") {
        "macOS"
    } else if str_equals(target_os, "windows") {
        "Windows"
    } else if str_equals(target_os, "linux") {
        "Linux"
    } else {
        "Unknown"
    }
}

} // verus!

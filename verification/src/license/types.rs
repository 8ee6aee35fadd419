//! The entitlement record, the status report derived from it, and the errors
//! of the licensing operations.

use vstd::prelude::*;
use vstd::string::StringExecFns;

verus! {

/// The access tier that a license grants.
#[derive(Debug, Clone, Copy, PartialEq, Eq, Structural)]
pub enum LicenseTier {
    Free,
    Pro,
}

impl Default for LicenseTier {
    fn default() -> (tier: Self)
        ensures
            tier == LicenseTier::Free,
    {
        LicenseTier::Free
    }
}

/// Where a license stands with respect to its last online validation.
#[derive(Debug, Clone, Copy, PartialEq, Eq, Structural)]
pub enum LicenseStatus {
    Valid,
    GracePeriod,
    Expired,
    Invalid,
    NotActivated,
}

impl Default for LicenseStatus {
    fn default() -> (status: Self)
        ensures
            status == LicenseStatus::NotActivated,
    {
        LicenseStatus::NotActivated
    }
}

/// The capabilities that a Pro entitlement unlocks.
#[derive(Debug, Clone, Copy, PartialEq, Eq, Structural)]
pub enum ProFeature {
    History,
    SyntaxHighlighting,
    Snippets,
    CustomThemes,
    StatsDisplay,
    ExportHistory,
}

/// The persisted entitlement record. Timestamps are RFC 3339 text in UTC.
#[derive(Debug, Clone)]
pub struct LicenseCache {
    pub license_key: Option<String>,
    pub email: Option<String>,
    pub tier: LicenseTier,
    pub status: LicenseStatus,
    pub device_id: String,
    pub last_validated: Option<String>,
    pub validation_expires: Option<String>,
    pub grace_period_start: Option<String>,
}

/// The mathematical content of a [`LicenseCache`].
pub struct LicenseCacheView {
    pub license_key: Option<Seq<char>>,
    pub email: Option<Seq<char>>,
    pub tier: LicenseTier,
    pub status: LicenseStatus,
    pub device_id: Seq<char>,
    pub last_validated: Option<Seq<char>>,
    pub validation_expires: Option<Seq<char>>,
    pub grace_period_start: Option<Seq<char>>,
}

impl View for LicenseCache {
    type V = LicenseCacheView;

    open spec fn view(&self) -> LicenseCacheView {
        LicenseCacheView {
            license_key: self.license_key.deep_view(),
            email: self.email.deep_view(),
            tier: self.tier,
            status: self.status,
            device_id: self.device_id@,
            last_validated: self.last_validated.deep_view(),
            validation_expires: self.validation_expires.deep_view(),
            grace_period_start: self.grace_period_start.deep_view(),
        }
    }
}

impl LicenseCacheView {
    /// The record of a device on which no license was ever activated.
    pub open spec fn never_activated(device_id: Seq<char>) -> LicenseCacheView {
        LicenseCacheView {
            license_key: None,
            email: None,
            tier: LicenseTier::Free,
            status: LicenseStatus::NotActivated,
            device_id,
            last_validated: None,
            validation_expires: None,
            grace_period_start: None,
        }
    }

    /// A record without a license key grants nothing: its tier is `Free` and
    /// its status `NotActivated`.
    pub open spec fn well_formed(self) -> bool {
        self.license_key is None ==> self.tier == LicenseTier::Free && self.status
            == LicenseStatus::NotActivated
    }
}

impl Default for LicenseCache {
    fn default() -> (cache: Self)
        ensures
            cache@ == LicenseCacheView::never_activated(Seq::empty()),
            cache@.well_formed(),
    {
        LicenseCache {
            license_key: None,
            email: None,
            tier: LicenseTier::Free,
            status: LicenseStatus::NotActivated,
            device_id: String::new(),
            last_validated: None,
            validation_expires: None,
            grace_period_start: None,
        }
    }
}

/// What a status query reports.
#[derive(Debug, Clone)]
pub struct LicenseStatusInfo {
    pub tier: LicenseTier,
    pub status: LicenseStatus,
    pub email: Option<String>,
    pub days_until_expiry: Option<i64>,
    pub needs_revalidation: bool,
}

/// The mathematical content of a [`LicenseStatusInfo`].
pub struct LicenseStatusInfoView {
    pub tier: LicenseTier,
    pub status: LicenseStatus,
    pub email: Option<Seq<char>>,
    pub days_until_expiry: Option<int>,
    pub needs_revalidation: bool,
}

impl View for LicenseStatusInfo {
    type V = LicenseStatusInfoView;

    open spec fn view(&self) -> LicenseStatusInfoView {
        LicenseStatusInfoView {
            tier: self.tier,
            status: self.status,
            email: self.email.deep_view(),
            days_until_expiry: match self.days_until_expiry {
                Some(days) => Some(days as int),
                None => None,
            },
            needs_revalidation: self.needs_revalidation,
        }
    }
}

/// Why a licensing operation failed.
#[derive(Debug)]
pub enum LicenseError {
    DeviceIdError(String),
    EncryptionError(String),
    NetworkError(String),
    InvalidLicense,
    LicenseExpired,
    DeviceLimitExceeded,
    StorageError(String),
    ValidationError(String),
}

/// The mathematical content of a [`LicenseError`].
pub enum LicenseErrorView {
    DeviceIdError(Seq<char>),
    EncryptionError(Seq<char>),
    NetworkError(Seq<char>),
    InvalidLicense,
    LicenseExpired,
    DeviceLimitExceeded,
    StorageError(Seq<char>),
    ValidationError(Seq<char>),
}

impl View for LicenseError {
    type V = LicenseErrorView;

    open spec fn view(&self) -> LicenseErrorView {
        match self {
            LicenseError::DeviceIdError(m) => LicenseErrorView::DeviceIdError(m@),
            LicenseError::EncryptionError(m) => LicenseErrorView::EncryptionError(m@),
            LicenseError::NetworkError(m) => LicenseErrorView::NetworkError(m@),
            LicenseError::InvalidLicense => LicenseErrorView::InvalidLicense,
            LicenseError::LicenseExpired => LicenseErrorView::LicenseExpired,
            LicenseError::DeviceLimitExceeded => LicenseErrorView::DeviceLimitExceeded,
            LicenseError::StorageError(m) => LicenseErrorView::StorageError(m@),
            LicenseError::ValidationError(m) => LicenseErrorView::ValidationError(m@),
        }
    }
}

impl LicenseErrorView {
    /// The text shown to the user for this error.
    pub open spec fn message(self) -> Seq<char> {
        match self {
            LicenseErrorView::DeviceIdError(m) => "Device ID generation failed: "@ + m,
            LicenseErrorView::EncryptionError(m) => "Encryption error: "@ + m,
            LicenseErrorView::NetworkError(m) => "Network error: "@ + m,
            LicenseErrorView::InvalidLicense => "Invalid license key"@,
            LicenseErrorView::LicenseExpired => "License expired"@,
            LicenseErrorView::DeviceLimitExceeded => "Device limit exceeded"@,
            LicenseErrorView::StorageError(m) => "Storage error: "@ + m,
            LicenseErrorView::ValidationError(m) => "Validation error: "@ + m,
        }
    }
}

impl LicenseError {
    /// The text shown to the user for this error.
    pub fn to_string(&self) -> (text: String)
        ensures
            text@ == self@.message(),
    {
        match self {
            LicenseError::DeviceIdError(m) => String::from_str("Device ID generation failed: ").concat(
                m.as_str(),
            ),
            LicenseError::EncryptionError(m) => String::from_str("Encryption error: ").concat(
                m.as_str(),
            ),
            LicenseError::NetworkError(m) => String::from_str("Network error: ").concat(m.as_str()),
            LicenseError::InvalidLicense => String::from_str("Invalid license key"),
            LicenseError::LicenseExpired => String::from_str("License expired"),
            LicenseError::DeviceLimitExceeded => String::from_str("Device limit exceeded"),
            LicenseError::StorageError(m) => String::from_str("Storage error: ").concat(m.as_str()),
            LicenseError::ValidationError(m) => String::from_str("Validation error: ").concat(
                m.as_str(),
            ),
        }
    }
}

} // verus!

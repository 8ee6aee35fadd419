//! Device-bound software entitlement: the encrypted cache, the offline status
//! engine, the interpretation of the remote authority's answers, and the
//! feature gate.

pub mod activation;
pub mod codec;
pub mod device;
pub mod gate;
pub mod status;
pub mod types;

pub use activation::{
    activated_cache, deactivate_license_online, deactivation_request, interpret_validation,
    refresh_license, status_after_validation, validate_license_online, validation_request,
    CacheAction, DeactivateResponse, RefreshStep, ValidateLicenseResponse,
};
pub use codec::{
    decrypt_cache, derive_key, encrypt_cache, encrypt_cache_with_nonce, load_license_cache,
};
pub use device::{get_device_id, get_device_name, get_os_name};
pub use gate::{
    check_feature_enabled, feature_from_name, get_feature_status, is_feature_enabled, unlocks_pro,
};
pub use status::{check_license_status, status_at};
pub use types::{
    LicenseCache, LicenseCacheView, LicenseError, LicenseErrorView, LicenseStatus,
    LicenseStatusInfo, LicenseStatusInfoView, LicenseTier, ProFeature,
};

use wingman::license::{
    activated_cache, check_license_status, deactivate_license_online, deactivation_request,
    decrypt_cache, encrypt_cache, get_device_id, get_device_name, get_os_name,
    interpret_validation, load_license_cache, refresh_license, status_after_validation,
    validate_license_online, validation_request, CacheAction, DeactivateResponse, LicenseCache,
    LicenseError, LicenseStatus, LicenseTier, RefreshStep, ValidateLicenseResponse,
};
use wingman::time::Timestamp;

fn at(text: &str) -> Timestamp {
    let moment = chrono::DateTime::parse_from_rfc3339(text).unwrap();
    Timestamp { secs: moment.timestamp(), nanos: moment.timestamp_subsec_nanos() }
}

fn reply(valid: bool, tier: Option<&str>, error: Option<&str>, message: Option<&str>)
    -> ValidateLicenseResponse {
    ValidateLicenseResponse {
        valid,
        tier: tier.map(|t| t.to_string()),
        error: error.map(|t| t.to_string()),
        message: message.map(|t| t.to_string()),
    }
}

#[test]
fn refused_activation_is_read_by_its_error_text() {
    let r = reply(false, Some("pro"), Some("You have reached the device limit (3)"), None);
    assert!(matches!(interpret_validation(&r, true), Err(LicenseError::DeviceLimitExceeded)));
    assert!(matches!(interpret_validation(&r, false), Err(LicenseError::DeviceLimitExceeded)));
    let r = reply(false, None, Some("License revoked"), Some("ignored"));
    match interpret_validation(&r, true) {
        Err(LicenseError::ValidationError(message)) => assert_eq!(message, "License revoked"),
        _ => panic!("an error text must be passed on"),
    }
    // the words are looked for as they are written
    let r = reply(false, None, Some("Device Limit reached"), None);
    assert!(matches!(interpret_validation(&r, true), Err(LicenseError::ValidationError(_))));
    let r = reply(false, Some("pro"), None, Some("ignored"));
    assert!(matches!(interpret_validation(&r, true), Err(LicenseError::InvalidLicense)));
}

#[test]
fn failing_http_status_refuses_a_valid_reply() {
    let r = reply(true, Some("pro"), None, Some("Service unavailable"));
    match interpret_validation(&r, false) {
        Err(LicenseError::ValidationError(message)) => assert_eq!(message, "Service unavailable"),
        _ => panic!("a failing status must refuse"),
    }
    let r = reply(true, Some("pro"), Some("unused"), None);
    match interpret_validation(&r, false) {
        Err(LicenseError::ValidationError(message)) => assert_eq!(message, "Validation failed"),
        _ => panic!("a failing status must refuse"),
    }
}

#[test]
fn granted_tier_defaults_to_free() {
    assert_eq!(interpret_validation(&reply(true, Some("pro"), None, None), true).unwrap(),
        LicenseTier::Pro);
    assert_eq!(interpret_validation(&reply(true, Some("free"), None, None), true).unwrap(),
        LicenseTier::Free);
    assert_eq!(interpret_validation(&reply(true, Some("Pro"), None, None), true).unwrap(),
        LicenseTier::Free);
    assert_eq!(interpret_validation(&reply(true, Some("premium"), None, None), true).unwrap(),
        LicenseTier::Free);
    assert_eq!(interpret_validation(&reply(true, None, None, None), true).unwrap(),
        LicenseTier::Free);
}

#[test]
fn activation_builds_a_fresh_record() {
    let now = at("2024-01-01T00:00:00Z");
    let r = reply(true, Some("pro"), None, None);
    let cache = validate_license_online(&r, true, "KEY-1", "a@b.c", "dev-1", now).unwrap();
    assert_eq!(cache.license_key, Some("KEY-1".to_string()));
    assert_eq!(cache.email, Some("a@b.c".to_string()));
    assert_eq!(cache.tier, LicenseTier::Pro);
    assert_eq!(cache.status, LicenseStatus::Valid);
    assert_eq!(cache.device_id, "dev-1");
    assert_eq!(cache.last_validated, Some("2024-01-01T00:00:00+00:00".to_string()));
    assert_eq!(cache.validation_expires, Some("2024-01-31T00:00:00+00:00".to_string()));
    assert_eq!(cache.grace_period_start, None);
    let expires = cache.validation_expires.unwrap();
    assert_eq!(Timestamp::parse_rfc3339(&expires), Some(at("2024-01-31T00:00:00Z")));
}

#[test]
fn activation_passes_refusals_on() {
    let now = at("2024-01-01T00:00:00Z");
    let r = reply(false, None, None, None);
    assert!(matches!(
        validate_license_online(&r, true, "KEY-1", "a@b.c", "dev-1", now),
        Err(LicenseError::InvalidLicense)
    ));
    let r = reply(true, Some("pro"), None, None);
    let out_of_range = Timestamp { secs: i64::MAX - 5, nanos: 0 };
    match validate_license_online(&r, true, "KEY-1", "a@b.c", "dev-1", out_of_range) {
        Err(LicenseError::ValidationError(message)) => {
            assert_eq!(message, "Validation time out of range")
        }
        _ => panic!("an instant beyond the calendar must be refused"),
    }
}

#[test]
fn end_to_end_from_activation_to_expiry() {
    let r = reply(true, Some("pro"), None, None);
    let cache =
        validate_license_online(&r, true, "KEY-1", "a@b.c", "dev-1", at("2024-01-01T00:00:00Z"))
            .unwrap();
    // what is persisted is what is read back later
    let stored = encrypt_cache(&cache, "dev-1").unwrap();
    let loaded = load_license_cache("dev-1", Some(&stored)).unwrap();
    assert_eq!(
        Timestamp::parse_rfc3339(loaded.validation_expires.as_deref().unwrap()),
        Some(at("2024-01-31T00:00:00Z"))
    );
    let info = check_license_status(&loaded, at("2024-01-15T00:00:00Z"));
    assert_eq!(info.status, LicenseStatus::Valid);
    assert_eq!(info.tier, LicenseTier::Pro);
    assert_eq!(info.days_until_expiry, Some(16));
    let info = check_license_status(&loaded, at("2024-02-10T00:00:00Z"));
    assert_eq!(info.status, LicenseStatus::GracePeriod);
    assert_eq!(info.tier, LicenseTier::Pro);
    let info = check_license_status(&loaded, at("2024-05-10T00:00:00Z"));
    assert_eq!(info.status, LicenseStatus::Expired);
    assert_eq!(info.tier, LicenseTier::Free);
}

#[test]
fn failed_deactivation_leaves_the_status_as_it_was() {
    let r = reply(true, Some("pro"), None, None);
    let cache =
        validate_license_online(&r, true, "KEY-1", "a@b.c", "dev-1", at("2024-01-01T00:00:00Z"))
            .unwrap();
    let stored = Some(encrypt_cache(&cache, "dev-1").unwrap());
    let now = at("2024-01-15T00:00:00Z");
    let before = check_license_status(
        &load_license_cache("dev-1", stored.as_deref()).unwrap(),
        now,
    );

    let (outcome, action) =
        deactivate_license_online(Err(LicenseError::NetworkError("timed out".to_string())));
    match outcome {
        Err(LicenseError::NetworkError(message)) => assert_eq!(message, "timed out"),
        _ => panic!("the network error must be passed on"),
    }
    assert_eq!(action, CacheAction::Keep);
    let stored_after = match action {
        CacheAction::Keep => stored.clone(),
        CacheAction::Clear => None,
    };
    let after = check_license_status(
        &load_license_cache("dev-1", stored_after.as_deref()).unwrap(),
        now,
    );
    assert_eq!(after.status, before.status);
    assert_eq!(after.tier, before.tier);
    assert_eq!(after.email, before.email);
    assert_eq!(after.days_until_expiry, before.days_until_expiry);
    assert_eq!(after.needs_revalidation, before.needs_revalidation);
    assert_eq!(after.status, LicenseStatus::Valid);
}

#[test]
fn deactivation_clears_only_when_confirmed() {
    let (outcome, action) =
        deactivate_license_online(Ok(DeactivateResponse { success: true, error: None }));
    assert!(outcome.is_ok());
    assert_eq!(action, CacheAction::Clear);
    let (outcome, action) = deactivate_license_online(Ok(DeactivateResponse {
        success: true,
        error: Some("ignored".to_string()),
    }));
    assert!(outcome.is_ok());
    assert_eq!(action, CacheAction::Clear);
    let (outcome, action) = deactivate_license_online(Ok(DeactivateResponse {
        success: false,
        error: Some("Unknown device".to_string()),
    }));
    match outcome {
        Err(LicenseError::ValidationError(message)) => assert_eq!(message, "Unknown device"),
        _ => panic!("a refusal must be passed on"),
    }
    assert_eq!(action, CacheAction::Keep);
    let (outcome, action) =
        deactivate_license_online(Ok(DeactivateResponse { success: false, error: None }));
    match outcome {
        Err(LicenseError::ValidationError(message)) => assert_eq!(message, "Deactivation failed"),
        _ => panic!("a refusal must be passed on"),
    }
    assert_eq!(action, CacheAction::Keep);
    // after a confirmed deactivation the device reads as never activated
    let cache = load_license_cache("dev-1", None).unwrap();
    let info = check_license_status(&cache, at("2024-01-15T00:00:00Z"));
    assert_eq!(info.status, LicenseStatus::NotActivated);
}

#[test]
fn refresh_validates_only_what_is_activated() {
    let cache = activated_cache(
        "KEY-1",
        "a@b.c",
        LicenseTier::Pro,
        "dev-1",
        "2024-01-01T00:00:00+00:00".to_string(),
        "2024-01-31T00:00:00+00:00".to_string(),
    );
    match refresh_license(&cache) {
        RefreshStep::Validate(key, email) => {
            assert_eq!(key, "KEY-1");
            assert_eq!(email, "a@b.c");
        }
        RefreshStep::Report(_) => panic!("an activated record is validated again"),
    }
    let mut without_email = cache.clone();
    without_email.email = None;
    match refresh_license(&without_email) {
        RefreshStep::Report(info) => {
            assert_eq!(info.status, LicenseStatus::NotActivated);
            assert_eq!(info.tier, LicenseTier::Free);
            assert_eq!(info.email, None);
            assert_eq!(info.days_until_expiry, None);
            assert!(!info.needs_revalidation);
        }
        RefreshStep::Validate(_, _) => panic!("nothing to validate without an email"),
    }
    assert!(matches!(refresh_license(&LicenseCache::default()), RefreshStep::Report(_)));
    let info = status_after_validation(&cache);
    assert_eq!(info.tier, LicenseTier::Pro);
    assert_eq!(info.status, LicenseStatus::Valid);
    assert_eq!(info.email, Some("a@b.c".to_string()));
    assert_eq!(info.days_until_expiry, Some(30));
    assert!(!info.needs_revalidation);
}

#[test]
fn request_bodies_hold_the_protocol_fields() {
    let body = validation_request("KEY-1", "a@b.c", "dev-1", "My \"Mac\"", "macOS").unwrap();
    let value: serde_json::Value = serde_json::from_slice(&body).unwrap();
    let object = value.as_object().unwrap();
    assert_eq!(object.len(), 5);
    assert_eq!(value["license_key"], serde_json::Value::from("KEY-1"));
    assert_eq!(value["email"], serde_json::Value::from("a@b.c"));
    assert_eq!(value["device_id"], serde_json::Value::from("dev-1"));
    assert_eq!(value["device_name"], serde_json::Value::from("My \"Mac\""));
    assert_eq!(value["os"], serde_json::Value::from("macOS"));
    let body = deactivation_request("KEY-1", "dev-1").unwrap();
    let value: serde_json::Value = serde_json::from_slice(&body).unwrap();
    assert_eq!(value.as_object().unwrap().len(), 2);
    assert_eq!(value["license_key"], serde_json::Value::from("KEY-1"));
    assert_eq!(value["device_id"], serde_json::Value::from("dev-1"));
}

#[test]
fn device_readings_and_their_fallbacks() {
    assert_eq!(get_device_id(Ok("abc-123".to_string())).unwrap(), "abc-123");
    match get_device_id(Err("no machine id".to_string())) {
        Err(LicenseError::DeviceIdError(reason)) => assert_eq!(reason, "no machine id"),
        _ => panic!("a missing identity is an error"),
    }
    assert_eq!(get_device_name(Some("workstation".to_string())), "workstation");
    assert_eq!(get_device_name(None), "Unknown Device");
    assert_eq!(get_os_name("macos"), "macOS");
    assert_eq!(get_os_name("windows"), "Windows");
    assert_eq!(get_os_name("linux"), "Linux");
    assert_eq!(get_os_name("freebsd"), "Unknown");
    assert_eq!(get_os_name(""), "Unknown");
}

#[test]
fn errors_read_as_they_are_shown() {
    assert_eq!(
        LicenseError::DeviceIdError("x".to_string()).to_string(),
        "Device ID generation failed: x"
    );
    assert_eq!(LicenseError::EncryptionError("x".to_string()).to_string(), "Encryption error: x");
    assert_eq!(LicenseError::NetworkError("x".to_string()).to_string(), "Network error: x");
    assert_eq!(LicenseError::InvalidLicense.to_string(), "Invalid license key");
    assert_eq!(LicenseError::LicenseExpired.to_string(), "License expired");
    assert_eq!(LicenseError::DeviceLimitExceeded.to_string(), "Device limit exceeded");
    assert_eq!(LicenseError::StorageError("x".to_string()).to_string(), "Storage error: x");
    assert_eq!(LicenseError::ValidationError("x".to_string()).to_string(), "Validation error: x");
    // a record opened on the wrong device is an encryption error
    let cache = LicenseCache::default();
    let stored = encrypt_cache(&cache, "a").unwrap();
    assert!(matches!(decrypt_cache(&stored, "b"), Err(LicenseError::EncryptionError(_))));
}

#[test]
fn test_device_id_generation() {
    let device_id = get_device_id(machine_uid::get().map_err(|e| e.to_string()));
    assert!(device_id.is_ok());
    let id = device_id.unwrap();
    assert!(!id.is_empty());
}

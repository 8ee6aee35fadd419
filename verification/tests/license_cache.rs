use aes_gcm::aead::{Aead, KeyInit};
use base64::Engine;
use sha2::Digest;
use wingman::license::codec::{frame, record_from_members, record_members, unframe};
use wingman::json::JsonMember;
use wingman::license::{
    decrypt_cache, derive_key, encrypt_cache, encrypt_cache_with_nonce, load_license_cache,
    LicenseCache, LicenseError, LicenseStatus, LicenseTier,
};

fn sample_cache(device_id: &str) -> LicenseCache {
    LicenseCache {
        license_key: Some("TEST-KEY-1234".to_string()),
        email: Some("test@example.com".to_string()),
        tier: LicenseTier::Pro,
        status: LicenseStatus::Valid,
        device_id: device_id.to_string(),
        last_validated: Some(chrono::Utc::now().to_rfc3339()),
        validation_expires: None,
        grace_period_start: None,
    }
}

fn same_record(a: &LicenseCache, b: &LicenseCache) -> bool {
    a.license_key == b.license_key
        && a.email == b.email
        && a.tier == b.tier
        && a.status == b.status
        && a.device_id == b.device_id
        && a.last_validated == b.last_validated
        && a.validation_expires == b.validation_expires
        && a.grace_period_start == b.grace_period_start
}

#[test]
fn test_encryption_roundtrip() {
    let device_id = "test-device-id";
    let cache = LicenseCache {
        license_key: Some("TEST-KEY-1234".to_string()),
        email: Some("test@example.com".to_string()),
        tier: LicenseTier::Pro,
        status: LicenseStatus::Valid,
        device_id: device_id.to_string(),
        last_validated: Some(chrono::Utc::now().to_rfc3339()),
        validation_expires: None,
        grace_period_start: None,
    };

    let encrypted = encrypt_cache(&cache, device_id).unwrap();
    let decrypted = decrypt_cache(&encrypted, device_id).unwrap();

    assert_eq!(decrypted.license_key, cache.license_key);
    assert_eq!(decrypted.email, cache.email);
    assert_eq!(decrypted.tier, cache.tier);
}

#[test]
fn test_feature_check_free_tier() {
    // Default cache should be free tier
    let cache = LicenseCache::default();
    assert_eq!(cache.tier, LicenseTier::Free);
    assert_eq!(cache.status, LicenseStatus::NotActivated);
}

#[test]
fn roundtrip_keeps_every_field() {
    let device_id = "device-\u{e9}\u{4e2d}";
    let cache = LicenseCache {
        license_key: Some("K\"EY\\ with \n odd \u{1F600} text".to_string()),
        email: None,
        tier: LicenseTier::Free,
        status: LicenseStatus::GracePeriod,
        device_id: device_id.to_string(),
        last_validated: Some("2024-01-01T00:00:00+00:00".to_string()),
        validation_expires: Some("2024-01-31T00:00:00+00:00".to_string()),
        grace_period_start: Some("".to_string()),
    };
    let encrypted = encrypt_cache(&cache, device_id).unwrap();
    let decrypted = decrypt_cache(&encrypted, device_id).unwrap();
    assert!(same_record(&decrypted, &cache));
}

#[test]
fn roundtrip_of_every_tier_and_status() {
    let statuses = [
        LicenseStatus::Valid,
        LicenseStatus::GracePeriod,
        LicenseStatus::Expired,
        LicenseStatus::Invalid,
        LicenseStatus::NotActivated,
    ];
    for tier in [LicenseTier::Free, LicenseTier::Pro] {
        for status in statuses {
            let mut cache = sample_cache("dev");
            cache.tier = tier;
            cache.status = status;
            let encrypted = encrypt_cache(&cache, "dev").unwrap();
            let decrypted = decrypt_cache(&encrypted, "dev").unwrap();
            assert!(same_record(&decrypted, &cache));
        }
    }
}

#[test]
fn derived_key_is_sha256_of_id_and_salt() {
    let expected: [u8; 32] = sha2::Sha256::digest(b"abcwingman-license-key-salt-v1").into();
    assert_eq!(derive_key("abc"), expected);
    // SHA-256 of the salt alone, for the empty identifier
    let of_salt: [u8; 32] = sha2::Sha256::digest(b"wingman-license-key-salt-v1").into();
    assert_eq!(derive_key(""), of_salt);
    assert_ne!(derive_key("abc"), derive_key("abd"));
}

#[test]
fn stored_text_is_nonce_then_sealed_bytes_in_base64() {
    let cache = sample_cache("dev-1");
    let nonce = [7u8; 12];
    let text = encrypt_cache_with_nonce(&cache, "dev-1", &nonce).unwrap();
    let data = base64::engine::general_purpose::STANDARD.decode(&text).unwrap();
    assert_eq!(&data[..12], &nonce[..]);
    let cipher = aes_gcm::Aes256Gcm::new_from_slice(&derive_key("dev-1")).unwrap();
    let plaintext = cipher.decrypt(aes_gcm::Nonce::from_slice(&nonce), &data[12..]).unwrap();
    assert_eq!(data.len(), 12 + plaintext.len() + 16);
    let value: serde_json::Value = serde_json::from_slice(&plaintext).unwrap();
    assert_eq!(value["license_key"], serde_json::Value::from("TEST-KEY-1234"));
    assert_eq!(value["tier"], serde_json::Value::from("pro"));
    assert_eq!(value["status"], serde_json::Value::from("valid"));
    assert_eq!(value["device_id"], serde_json::Value::from("dev-1"));
    assert_eq!(value["validation_expires"], serde_json::Value::Null);
    // the same inputs give the same text
    assert_eq!(encrypt_cache_with_nonce(&cache, "dev-1", &nonce).unwrap(), text);
}

#[test]
fn fresh_nonce_for_every_write() {
    let cache = sample_cache("dev-1");
    let a = encrypt_cache(&cache, "dev-1").unwrap();
    let b = encrypt_cache(&cache, "dev-1").unwrap();
    assert_ne!(a, b);
}

#[test]
fn another_device_cannot_open_the_cache() {
    let cache = sample_cache("device-a");
    let encrypted = encrypt_cache(&cache, "device-a").unwrap();
    let opened = decrypt_cache(&encrypted, "device-b");
    assert!(matches!(opened, Err(LicenseError::EncryptionError(_))));
}

#[test]
fn flipping_any_byte_is_detected() {
    let cache = sample_cache("dev-1");
    let encrypted = encrypt_cache(&cache, "dev-1").unwrap();
    let data = base64::engine::general_purpose::STANDARD.decode(&encrypted).unwrap();
    for i in 0..data.len() {
        let mut changed = data.clone();
        changed[i] ^= 0x01;
        let text = base64::engine::general_purpose::STANDARD.encode(&changed);
        let opened = decrypt_cache(&text, "dev-1");
        assert!(matches!(opened, Err(LicenseError::EncryptionError(_))));
    }
    // a changed character of the stored text itself
    let mut bytes = encrypted.clone().into_bytes();
    for i in 0..bytes.len() {
        let saved = bytes[i];
        bytes[i] = if saved == b'A' { b'B' } else { b'A' };
        let text = String::from_utf8(bytes.clone()).unwrap();
        assert!(decrypt_cache(&text, "dev-1").is_err());
        bytes[i] = saved;
    }
}

#[test]
fn short_or_malformed_text_is_refused() {
    let short = base64::engine::general_purpose::STANDARD.encode([1u8; 11]);
    match decrypt_cache(&short, "dev") {
        Err(LicenseError::EncryptionError(message)) => {
            assert_eq!(message, "Invalid encrypted data")
        }
        _ => panic!("eleven bytes must be refused"),
    }
    match decrypt_cache("", "dev") {
        Err(LicenseError::EncryptionError(message)) => {
            assert_eq!(message, "Invalid encrypted data")
        }
        _ => panic!("an empty file must be refused"),
    }
    assert!(matches!(decrypt_cache("not base64!", "dev"), Err(LicenseError::EncryptionError(_))));
    // twelve bytes hold a nonce but no tag
    let nonce_only = base64::engine::general_purpose::STANDARD.encode([1u8; 12]);
    assert!(matches!(decrypt_cache(&nonce_only, "dev"), Err(LicenseError::EncryptionError(_))));
}

#[test]
fn sealed_text_that_is_no_record_is_refused() {
    let seal = |plaintext: &[u8]| -> String {
        let nonce = [3u8; 12];
        let cipher = aes_gcm::Aes256Gcm::new_from_slice(&derive_key("dev")).unwrap();
        let sealed = cipher.encrypt(aes_gcm::Nonce::from_slice(&nonce), plaintext).unwrap();
        let mut data = nonce.to_vec();
        data.extend(sealed);
        base64::engine::general_purpose::STANDARD.encode(&data)
    };
    assert!(decrypt_cache(&seal(b"not json"), "dev").is_err());
    assert!(decrypt_cache(&seal(b"{}"), "dev").is_err());
    assert!(decrypt_cache(&seal(b"[1,2]"), "dev").is_err());
    let unknown_tier =
        br#"{"license_key":null,"email":null,"tier":"gold","status":"valid","device_id":"dev"}"#;
    assert!(decrypt_cache(&seal(unknown_tier), "dev").is_err());
    let number_for_email =
        br#"{"license_key":null,"email":5,"tier":"pro","status":"valid","device_id":"dev"}"#;
    assert!(decrypt_cache(&seal(number_for_email), "dev").is_err());
    // absent optional members read as none; unknown members are passed over
    let minimal = br#"{"tier":"pro","status":"expired","device_id":"dev","extra":[1]}"#;
    let cache = decrypt_cache(&seal(minimal), "dev").unwrap();
    assert_eq!(cache.license_key, None);
    assert_eq!(cache.validation_expires, None);
    assert_eq!(cache.tier, LicenseTier::Pro);
    assert_eq!(cache.status, LicenseStatus::Expired);
    assert_eq!(cache.device_id, "dev");
}

#[test]
fn missing_file_reads_as_never_activated() {
    let cache = load_license_cache("this-device", None).unwrap();
    assert_eq!(cache.license_key, None);
    assert_eq!(cache.email, None);
    assert_eq!(cache.tier, LicenseTier::Free);
    assert_eq!(cache.status, LicenseStatus::NotActivated);
    assert_eq!(cache.device_id, "this-device");
    assert_eq!(cache.last_validated, None);
    assert_eq!(cache.validation_expires, None);
    assert_eq!(cache.grace_period_start, None);
}

#[test]
fn stored_file_is_opened_on_load() {
    let cache = sample_cache("this-device");
    let encrypted = encrypt_cache(&cache, "this-device").unwrap();
    let loaded = load_license_cache("this-device", Some(&encrypted)).unwrap();
    assert!(same_record(&loaded, &cache));
    assert!(load_license_cache("other-device", Some(&encrypted)).is_err());
    assert!(load_license_cache("this-device", Some("")).is_err());
}

#[test]
fn stored_bytes_are_the_nonce_and_then_the_sealed_bytes() {
    let nonce = [9u8; 12];
    let blob = frame(&nonce, &vec![1, 2, 3]);
    assert_eq!(blob, vec![9, 9, 9, 9, 9, 9, 9, 9, 9, 9, 9, 9, 1, 2, 3]);
    let (first, rest) = unframe(&blob).unwrap();
    assert_eq!(first, &nonce[..]);
    assert_eq!(rest, &[1u8, 2, 3][..]);
    let (first, rest) = unframe(&nonce).unwrap();
    assert_eq!(first, &nonce[..]);
    assert!(rest.is_empty());
    assert_eq!(frame(&nonce, &vec![]), nonce.to_vec());
    match unframe(&[0u8; 11]) {
        Err(LicenseError::EncryptionError(message)) => {
            assert_eq!(message, "Invalid encrypted data")
        }
        _ => panic!("eleven bytes hold no nonce"),
    }
    assert!(unframe(&[]).is_err());
}

#[test]
fn record_as_members_and_back() {
    let cache = sample_cache("dev-9");
    let members = record_members(&cache);
    let keys: Vec<&str> = members.iter().map(|m| m.0.as_str()).collect();
    assert_eq!(
        keys,
        vec![
            "license_key",
            "email",
            "tier",
            "status",
            "device_id",
            "last_validated",
            "validation_expires",
            "grace_period_start"
        ]
    );
    assert_eq!(members[2].1, Some("pro".to_string()));
    assert_eq!(members[3].1, Some("valid".to_string()));
    assert_eq!(members[6].1, None);
    let found: Vec<JsonMember> = members
        .iter()
        .map(|m| match &m.1 {
            Some(text) => JsonMember::Text(text.clone()),
            None => JsonMember::Null,
        })
        .collect();
    let back = record_from_members(&found).unwrap();
    assert!(same_record(&back, &cache));
    assert!(record_from_members(&found[..7].to_vec()).is_none());
    let mut wrong = found.clone();
    wrong[2] = JsonMember::Text("gold".to_string());
    assert!(record_from_members(&wrong).is_none());
    let mut wrong = found.clone();
    wrong[4] = JsonMember::Null;
    assert!(record_from_members(&wrong).is_none());
    let mut wrong = found.clone();
    wrong[0] = JsonMember::Other;
    assert!(record_from_members(&wrong).is_none());
    let mut absent = found;
    absent[0] = JsonMember::Missing;
    absent[3] = JsonMember::Text("not_activated".to_string());
    let back = record_from_members(&absent).unwrap();
    assert_eq!(back.license_key, None);
    assert_eq!(back.status, LicenseStatus::NotActivated);
}

#[test]
fn stored_text_decodes_to_nonce_and_sealed_bytes_for_any_record() {
    let first = sample_cache("dev-1");
    let mut second = sample_cache("dev-1");
    second.email = None;
    second.license_key = Some("K".repeat(5000));
    for cache in [first, second, LicenseCache::default()] {
        let plaintext = serde_json::to_vec(&serde_json::Value::Object(
            record_members(&cache)
                .into_iter()
                .map(|(key, value)| (key, serde_json::Value::from(value)))
                .collect(),
        ))
        .unwrap();
        let text = encrypt_cache(&cache, "dev-1").unwrap();
        let data = base64::engine::general_purpose::STANDARD.decode(&text).unwrap();
        assert_eq!(data.len(), 12 + plaintext.len() + 16);
        let (nonce, sealed) = unframe(&data).unwrap();
        let cipher = aes_gcm::Aes256Gcm::new_from_slice(&derive_key("dev-1")).unwrap();
        assert_eq!(cipher.decrypt(aes_gcm::Nonce::from_slice(nonce), sealed).unwrap(), plaintext);
        let fixed = [5u8; 12];
        let text = encrypt_cache_with_nonce(&cache, "dev-1", &fixed).unwrap();
        let data = base64::engine::general_purpose::STANDARD.decode(&text).unwrap();
        assert_eq!(&data[..12], &fixed[..]);
        assert_eq!(
            &data[12..],
            &cipher.encrypt(aes_gcm::Nonce::from_slice(&fixed), plaintext.as_slice()).unwrap()[..]
        );
    }
}

use wingman::license::{
    check_license_status, get_feature_status, is_feature_enabled, status_at, unlocks_pro,
    LicenseCache, LicenseError, LicenseStatus, LicenseStatusInfo, LicenseTier, ProFeature,
};
use wingman::time::Timestamp;

const DAY: i64 = 86_400;

fn at(text: &str) -> Timestamp {
    let moment = chrono::DateTime::parse_from_rfc3339(text).unwrap();
    Timestamp { secs: moment.timestamp(), nanos: moment.timestamp_subsec_nanos() }
}

fn activated(tier: LicenseTier, validated: &str, expires: &str) -> LicenseCache {
    LicenseCache {
        license_key: Some("KEY".to_string()),
        email: Some("user@example.com".to_string()),
        tier,
        status: LicenseStatus::Valid,
        device_id: "dev".to_string(),
        last_validated: Some(validated.to_string()),
        validation_expires: Some(expires.to_string()),
        grace_period_start: None,
    }
}

fn pro_from_new_year() -> LicenseCache {
    activated(LicenseTier::Pro, "2024-01-01T00:00:00+00:00", "2024-01-31T00:00:00+00:00")
}

fn plus(t: Timestamp, secs: i64) -> Timestamp {
    Timestamp { secs: t.secs + secs, nanos: t.nanos }
}

#[test]
fn never_activated_reports_nothing() {
    let mut cache = LicenseCache::default();
    cache.device_id = "dev".to_string();
    // whatever else is cached, a record without a key grants nothing
    cache.tier = LicenseTier::Pro;
    cache.email = Some("someone@example.com".to_string());
    cache.validation_expires = Some("2999-01-01T00:00:00Z".to_string());
    let info = check_license_status(&cache, at("2024-01-15T00:00:00Z"));
    assert_eq!(info.tier, LicenseTier::Free);
    assert_eq!(info.status, LicenseStatus::NotActivated);
    assert_eq!(info.email, None);
    assert_eq!(info.days_until_expiry, None);
    assert!(!info.needs_revalidation);
}

#[test]
fn status_boundaries_around_the_offline_window() {
    let cache = pro_from_new_year();
    let t = at("2024-01-01T00:00:00Z");
    let just_before = check_license_status(&cache, plus(t, 30 * DAY - 60));
    assert_eq!(just_before.status, LicenseStatus::Valid);
    let exactly = check_license_status(&cache, plus(t, 30 * DAY));
    assert_eq!(exactly.status, LicenseStatus::Valid);
    assert_eq!(exactly.days_until_expiry, Some(0));
    assert_eq!(exactly.tier, LicenseTier::Pro);
    let one_nano_late =
        check_license_status(&cache, Timestamp { secs: t.secs + 30 * DAY, nanos: 1 });
    assert_eq!(one_nano_late.status, LicenseStatus::GracePeriod);
    let just_after = check_license_status(&cache, plus(t, 30 * DAY + 1));
    assert_eq!(just_after.status, LicenseStatus::GracePeriod);
    assert_eq!(just_after.days_until_expiry, Some(89));
    assert_eq!(just_after.tier, LicenseTier::Pro);
    let end_of_grace = check_license_status(&cache, plus(t, 120 * DAY));
    assert_eq!(end_of_grace.status, LicenseStatus::GracePeriod);
    assert_eq!(end_of_grace.days_until_expiry, Some(0));
    let expired = check_license_status(&cache, plus(t, 120 * DAY + 1));
    assert_eq!(expired.status, LicenseStatus::Expired);
    assert_eq!(expired.tier, LicenseTier::Free);
    assert_eq!(expired.days_until_expiry, Some(0));
    assert_eq!(expired.email, Some("user@example.com".to_string()));
}

#[test]
fn revalidation_is_asked_below_seven_days() {
    let cache = pro_from_new_year();
    let expires = at("2024-01-31T00:00:00Z");
    let seven_days_left = check_license_status(&cache, plus(expires, -7 * DAY));
    assert_eq!(seven_days_left.days_until_expiry, Some(7));
    assert!(!seven_days_left.needs_revalidation);
    let a_second_less = check_license_status(&cache, plus(expires, -7 * DAY + 1));
    assert_eq!(a_second_less.days_until_expiry, Some(6));
    assert!(a_second_less.needs_revalidation);
    let fresh = check_license_status(&cache, at("2024-01-01T00:00:00Z"));
    assert_eq!(fresh.days_until_expiry, Some(30));
    assert!(!fresh.needs_revalidation);
    assert!(check_license_status(&cache, plus(expires, 1)).needs_revalidation);
    assert!(check_license_status(&cache, plus(expires, 45 * DAY)).needs_revalidation);
    assert!(check_license_status(&cache, plus(expires, 91 * DAY)).needs_revalidation);
}

#[test]
fn days_are_whole_days() {
    let cache = pro_from_new_year();
    let info = check_license_status(&cache, at("2024-01-15T00:00:00Z"));
    assert_eq!(info.days_until_expiry, Some(16));
    let info = check_license_status(&cache, at("2024-01-15T00:00:01Z"));
    assert_eq!(info.days_until_expiry, Some(15));
    // in grace from 2024-01-31, for ninety days: until 2024-04-30
    let info = check_license_status(&cache, at("2024-02-10T00:00:00Z"));
    assert_eq!(info.status, LicenseStatus::GracePeriod);
    assert_eq!(info.days_until_expiry, Some(80));
    let info = check_license_status(&cache, at("2024-04-29T12:00:00Z"));
    assert_eq!(info.days_until_expiry, Some(0));
}

#[test]
fn deadlines_are_read_in_any_offset() {
    let cache = activated(LicenseTier::Pro, "2024-01-01T00:00:00Z", "2024-01-31T02:00:00+02:00");
    let info = check_license_status(&cache, at("2024-01-31T00:00:00Z"));
    assert_eq!(info.status, LicenseStatus::Valid);
    let info = check_license_status(&cache, at("2024-01-31T00:00:01Z"));
    assert_eq!(info.status, LicenseStatus::GracePeriod);
}

#[test]
fn stored_grace_start_moves_the_grace_window() {
    let mut cache = pro_from_new_year();
    cache.grace_period_start = Some("2024-03-01T00:00:00Z".to_string());
    let info = check_license_status(&cache, at("2024-05-10T00:00:00Z"));
    assert_eq!(info.status, LicenseStatus::GracePeriod);
    assert_eq!(info.days_until_expiry, Some(20));
    let info = check_license_status(&cache, at("2024-05-30T00:00:01Z"));
    assert_eq!(info.status, LicenseStatus::Expired);
    // an unreadable one counts as absent
    cache.grace_period_start = Some("yesterday".to_string());
    let info = check_license_status(&cache, at("2024-02-10T00:00:00Z"));
    assert_eq!(info.days_until_expiry, Some(80));
}

#[test]
fn record_without_a_readable_deadline_grants_nothing() {
    let stored = [
        LicenseStatus::Valid,
        LicenseStatus::GracePeriod,
        LicenseStatus::Expired,
        LicenseStatus::Invalid,
        LicenseStatus::NotActivated,
    ];
    for deadline in [None, Some("not a date".to_string()), Some("".to_string())] {
        for status in stored {
            let mut cache = pro_from_new_year();
            cache.validation_expires = deadline.clone();
            cache.status = status;
            for now in ["1999-01-01T00:00:00Z", "2024-01-15T00:00:00Z", "2124-01-15T00:00:00Z"] {
                let info = check_license_status(&cache, at(now));
                assert_eq!(info.status, LicenseStatus::Expired);
                assert_eq!(info.tier, LicenseTier::Free);
                assert_eq!(info.email, Some("user@example.com".to_string()));
                assert_eq!(info.days_until_expiry, None);
                assert!(info.needs_revalidation);
                let loaded: Result<LicenseCache, LicenseError> = Ok(cache.clone());
                assert!(!is_feature_enabled(ProFeature::History, &loaded, at(now)));
            }
        }
    }
}

#[test]
fn stored_status_plays_no_part() {
    let stored = [
        LicenseStatus::Valid,
        LicenseStatus::GracePeriod,
        LicenseStatus::Expired,
        LicenseStatus::Invalid,
        LicenseStatus::NotActivated,
    ];
    for now in ["2024-01-15T00:00:00Z", "2024-02-10T00:00:00Z", "2024-05-10T00:00:00Z"] {
        let first = check_license_status(&pro_from_new_year(), at(now));
        for status in stored {
            let mut cache = pro_from_new_year();
            cache.status = status;
            let info = check_license_status(&cache, at(now));
            assert_eq!(info.status, first.status);
            assert_eq!(info.tier, first.tier);
            assert_eq!(info.days_until_expiry, first.days_until_expiry);
            assert_eq!(info.needs_revalidation, first.needs_revalidation);
        }
    }
}

#[test]
fn a_second_written_as_sixty_lies_before_the_next_second() {
    // the last second of 2016 was followed by a leap second
    let leap = Timestamp::parse_rfc3339("2016-12-31T23:59:60.5Z").unwrap();
    let last = at("2016-12-31T23:59:59Z");
    assert_eq!(leap, Timestamp { secs: last.secs, nanos: 1_500_000_000 });
    let cache = activated(
        LicenseTier::Pro,
        "2016-12-01T23:59:60.5Z",
        "2016-12-31T23:59:60.5Z",
    );
    let just_before = Timestamp { secs: last.secs, nanos: 999_999_999 };
    assert_eq!(check_license_status(&cache, just_before).status, LicenseStatus::Valid);
    assert_eq!(check_license_status(&cache, leap).status, LicenseStatus::Valid);
    let next = at("2017-01-01T00:00:00Z");
    assert_eq!(check_license_status(&cache, next).status, LicenseStatus::GracePeriod);
    assert_eq!(check_license_status(&cache, next).days_until_expiry, Some(90));
    assert!(next.is_after(&leap));
    assert!(leap.is_after(&just_before));
    assert!(!leap.is_after(&next));
    // ninety days later the grace window ends with the same reading
    let end = Timestamp { secs: last.secs + 90 * DAY, nanos: 1_500_000_000 };
    assert_eq!(check_license_status(&cache, end).status, LicenseStatus::GracePeriod);
    assert_eq!(check_license_status(&cache, end).days_until_expiry, Some(0));
    let after = Timestamp { secs: last.secs + 90 * DAY + 1, nanos: 0 };
    assert_eq!(check_license_status(&cache, after).status, LicenseStatus::Expired);
}

#[test]
fn status_at_takes_the_instants_as_given() {
    let cache = pro_from_new_year();
    let expires = Timestamp { secs: 1_000, nanos: 500 };
    let info = status_at(&cache, Some(expires), None, Timestamp { secs: 1_000, nanos: 500 });
    assert_eq!(info.status, LicenseStatus::Valid);
    let info = status_at(&cache, Some(expires), None, Timestamp { secs: 1_000, nanos: 501 });
    assert_eq!(info.status, LicenseStatus::GracePeriod);
    let info = status_at(&cache, None, Some(expires), Timestamp { secs: 0, nanos: 0 });
    assert_eq!(info.status, LicenseStatus::Expired);
    assert_eq!(info.tier, LicenseTier::Free);
    assert_eq!(info.days_until_expiry, None);
    // far ends of the time line do not overflow
    let info = status_at(
        &cache,
        Some(Timestamp { secs: i64::MAX, nanos: u32::MAX }),
        None,
        Timestamp { secs: i64::MIN, nanos: 0 },
    );
    assert_eq!(info.status, LicenseStatus::Valid);
    assert_eq!(info.days_until_expiry, Some(213_503_982_334_601));
    let info = status_at(
        &cache,
        Some(Timestamp { secs: i64::MIN, nanos: 0 }),
        Some(Timestamp { secs: i64::MAX, nanos: 0 }),
        Timestamp { secs: i64::MAX, nanos: 1 },
    );
    assert_eq!(info.status, LicenseStatus::GracePeriod);
    assert_eq!(info.days_until_expiry, Some(89));
}

#[test]
fn gate_opens_for_pro_while_valid_or_in_grace() {
    let info = |tier, status| LicenseStatusInfo {
        tier,
        status,
        email: None,
        days_until_expiry: None,
        needs_revalidation: true,
    };
    assert!(!unlocks_pro(&info(LicenseTier::Pro, LicenseStatus::Expired)));
    assert!(unlocks_pro(&info(LicenseTier::Pro, LicenseStatus::GracePeriod)));
    assert!(unlocks_pro(&info(LicenseTier::Pro, LicenseStatus::Valid)));
    assert!(!unlocks_pro(&info(LicenseTier::Pro, LicenseStatus::Invalid)));
    assert!(!unlocks_pro(&info(LicenseTier::Pro, LicenseStatus::NotActivated)));
    assert!(!unlocks_pro(&info(LicenseTier::Free, LicenseStatus::Valid)));
    assert!(!unlocks_pro(&info(LicenseTier::Free, LicenseStatus::GracePeriod)));
}

#[test]
fn features_follow_the_status_of_the_cache() {
    let pro: Result<LicenseCache, LicenseError> = Ok(pro_from_new_year());
    assert!(is_feature_enabled(ProFeature::History, &pro, at("2024-01-15T00:00:00Z")));
    assert!(is_feature_enabled(ProFeature::Snippets, &pro, at("2024-02-10T00:00:00Z")));
    assert!(!is_feature_enabled(ProFeature::Snippets, &pro, at("2024-05-10T00:00:00Z")));
    let free: Result<LicenseCache, LicenseError> = Ok(activated(
        LicenseTier::Free,
        "2024-01-01T00:00:00+00:00",
        "2024-01-31T00:00:00+00:00",
    ));
    assert!(!is_feature_enabled(ProFeature::History, &free, at("2024-01-15T00:00:00Z")));
    let unreadable: Result<LicenseCache, LicenseError> =
        Err(LicenseError::EncryptionError("aead::Error".to_string()));
    assert!(!is_feature_enabled(ProFeature::History, &unreadable, at("2024-01-15T00:00:00Z")));
    let never: Result<LicenseCache, LicenseError> = Ok(LicenseCache::default());
    assert!(!is_feature_enabled(ProFeature::History, &never, at("2024-01-15T00:00:00Z")));
}

#[test]
fn feature_report_lists_every_feature_once() {
    let pro: Result<LicenseCache, LicenseError> = Ok(pro_from_new_year());
    let report = get_feature_status(&pro, at("2024-01-15T00:00:00Z"));
    assert_eq!(
        report,
        vec![
            (ProFeature::History, true),
            (ProFeature::SyntaxHighlighting, true),
            (ProFeature::Snippets, true),
            (ProFeature::CustomThemes, true),
            (ProFeature::StatsDisplay, true),
            (ProFeature::ExportHistory, true),
        ]
    );
    let report = get_feature_status(&pro, at("2025-01-15T00:00:00Z"));
    assert_eq!(report.len(), 6);
    assert!(report.iter().all(|entry| !entry.1));
    let unreadable: Result<LicenseCache, LicenseError> =
        Err(LicenseError::StorageError("gone".to_string()));
    let report = get_feature_status(&unreadable, at("2024-01-15T00:00:00Z"));
    assert!(report.iter().all(|entry| !entry.1));
}

#[test]
fn timestamps_are_written_and_read_as_rfc3339() {
    let t = Timestamp { secs: 1_704_067_200, nanos: 0 };
    assert_eq!(t.to_rfc3339(), Some("2024-01-01T00:00:00+00:00".to_string()));
    assert_eq!(Timestamp::parse_rfc3339("2024-01-01T00:00:00Z"), Some(t));
    assert_eq!(Timestamp::parse_rfc3339("2024-01-01T01:00:00+01:00"), Some(t));
    assert_eq!(Timestamp::parse_rfc3339("2024-01-01"), None);
    assert_eq!(Timestamp::parse_rfc3339(""), None);
    let fine = Timestamp { secs: 1_704_067_200, nanos: 123_456_789 };
    assert_eq!(fine.to_rfc3339(), Some("2024-01-01T00:00:00.123456789+00:00".to_string()));
    assert_eq!(Timestamp::parse_rfc3339("2024-01-01T00:00:00.123456789Z"), Some(fine));
    assert_eq!(Timestamp { secs: i64::MAX, nanos: 0 }.to_rfc3339(), None);
    assert_eq!(
        t.plus_days(30),
        Some(Timestamp { secs: 1_704_067_200 + 30 * 86_400, nanos: 0 })
    );
    assert_eq!(Timestamp { secs: i64::MAX - 10, nanos: 0 }.plus_days(1), None);
    assert!(fine.is_after(&t));
    assert!(!t.is_after(&t));
    assert!(!t.is_after(&fine));
    assert_eq!(fine.total_nanos(), 1_704_067_200_123_456_789);
}

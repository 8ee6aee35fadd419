//! The status engine: what a cached record is worth at a given instant.
//!
//! A validation is trusted offline for thirty days. After that a grace window
//! of ninety days still honours the cached tier while asking for
//! revalidation. Past the grace window nothing is granted.

use vstd::prelude::*;
use crate::license::types::{
    LicenseCache, LicenseCacheView, LicenseStatus, LicenseStatusInfo, LicenseStatusInfoView,
    LicenseTier,
};
use crate::time::{Timestamp, NANOS_PER_DAY};

verus! {

/// Days for which a validation is trusted without contacting the authority.
pub const OFFLINE_CHECK_DAYS: i64 = 30;

/// Days of grace after the offline window has run out.
pub const GRACE_PERIOD_DAYS: i64 = 90;

/// Remaining days below which revalidation is suggested.
pub const REVALIDATION_HINT_DAYS: i64 = 7;

/// The stored timestamp as an instant, if there is one and it is readable.
pub open spec fn stored_instant(text: Option<Seq<char>>) -> Option<Timestamp> {
    match text {
        Some(t) => Timestamp::parsed(t),
        None => None,
    }
}

/// The instant from which the grace window is counted: the stored start of
/// grace, or `expires` where none is stored.
pub open spec fn grace_from(expires: Timestamp, grace_start: Option<Timestamp>) -> Timestamp {
    match grace_start {
        Some(start) => start,
        None => expires,
    }
}

/// The end of the grace window, in nanoseconds since the epoch: ninety days
/// after the instant from which it is counted.
pub open spec fn grace_end(expires: Timestamp, grace_start: Option<Timestamp>) -> int {
    grace_from(expires, grace_start).instant() + 90 * 86_400_000_000_000
}

/// Whole days from `now` until `end`, both in nanoseconds since the epoch:
/// none where `end` is not after `now`.
pub open spec fn whole_days_until(end: int, now: int) -> int {
    if end <= now {
        0
    } else {
        (end - now) / 86_400_000_000_000
    }
}

/// The status of a record whose two deadlines have been read, at `now`.
///
/// The stored status plays no part. A record with a key but without a
/// readable deadline grants nothing: it reads as expired and asks for
/// revalidation.
pub open spec fn status_spec(
    cache: LicenseCacheView,
    expires: Option<Timestamp>,
    grace_start: Option<Timestamp>,
    now: Timestamp,
) -> LicenseStatusInfoView {
    if cache.license_key is None {
        LicenseStatusInfoView {
            tier: LicenseTier::Free,
            status: LicenseStatus::NotActivated,
            email: None,
            days_until_expiry: None,
            needs_revalidation: false,
        }
    } else if expires is None {
        LicenseStatusInfoView {
            tier: LicenseTier::Free,
            status: LicenseStatus::Expired,
            email: cache.email,
            days_until_expiry: None,
            needs_revalidation: true,
        }
    } else if now.at_or_before(expires.unwrap()) {
        LicenseStatusInfoView {
            tier: cache.tier,
            status: LicenseStatus::Valid,
            email: cache.email,
            days_until_expiry: Some(whole_days_until(expires.unwrap().instant(), now.instant())),
            needs_revalidation: whole_days_until(expires.unwrap().instant(), now.instant()) < 7,
        }
    } else if now.within_days_after(grace_from(expires.unwrap(), grace_start), 90) {
        LicenseStatusInfoView {
            tier: cache.tier,
            status: LicenseStatus::GracePeriod,
            email: cache.email,
            days_until_expiry: Some(
                whole_days_until(grace_end(expires.unwrap(), grace_start), now.instant()),
            ),
            needs_revalidation: true,
        }
    } else {
        LicenseStatusInfoView {
            tier: LicenseTier::Free,
            status: LicenseStatus::Expired,
            email: cache.email,
            days_until_expiry: Some(0),
            needs_revalidation: true,
        }
    }
}

/// The status of a record at `now`, its deadlines read from their stored text.
pub open spec fn status_of(cache: LicenseCacheView, now: Timestamp) -> LicenseStatusInfoView {
    status_spec(
        cache,
        stored_instant(cache.validation_expires),
        stored_instant(cache.grace_period_start),
        now,
    )
}

/// A copy of an optional string.
pub fn copy_text(text: &Option<String>) -> (copy: Option<String>)
    ensures
        copy.deep_view() == text.deep_view(),
{
    match text {
        Some(t) => Some(t.clone()),
        None => None,
    }
}

fn read_stored(text: &Option<String>) -> (stamp: Option<Timestamp>)
    ensures
        stamp == stored_instant(text.deep_view()),
{
    match text {
        Some(t) => Timestamp::parse_rfc3339(t.as_str()),
        None => None,
    }
}

fn days_between(end: i128, now: i128) -> (days: i64)
    requires
        -10_000_000_000_000_000_000_000_000_000 <= now <= 10_000_000_000_000_000_000_000_000_000,
        -10_000_000_000_000_000_000_000_000_000 <= end <= 10_000_000_000_000_000_000_000_000_000,
    ensures
        days == whole_days_until(end as int, now as int),
        0 <= days,
{
    if end <= now {
        0
    } else {
        ((end - now) / NANOS_PER_DAY) as i64
    }
}

/// The status of `cache` at `now`, given the instants that its stored
/// deadlines denote (`None` for one that is absent or unreadable).
pub fn status_at(
    cache: &LicenseCache,
    expires: Option<Timestamp>,
    grace_start: Option<Timestamp>,
    now: Timestamp,
) -> (info: LicenseStatusInfo)
    ensures
        info@ == status_spec(cache@, expires, grace_start, now),
{
    if cache.license_key.is_none() {
        return LicenseStatusInfo {
            tier: LicenseTier::Free,
            status: LicenseStatus::NotActivated,
            email: None,
            days_until_expiry: None,
            needs_revalidation: false,
        };
    }
    let deadline = match expires {
        Some(deadline) => deadline,
        None => {
            return LicenseStatusInfo {
                tier: LicenseTier::Free,
                status: LicenseStatus::Expired,
                email: copy_text(&cache.email),
                days_until_expiry: None,
                needs_revalidation: true,
            };
        },
    };
    let now_nanos: i128 = now.total_nanos();
    if !now.is_after(&deadline) {
        let days_left: i64 = days_between(deadline.total_nanos(), now_nanos);
        return LicenseStatusInfo {
            tier: cache.tier,
            status: LicenseStatus::Valid,
            email: copy_text(&cache.email),
            days_until_expiry: Some(days_left),
            needs_revalidation: days_left < REVALIDATION_HINT_DAYS,
        };
    }
    let start = match grace_start {
        Some(start) => start,
        None => deadline,
    };
    if now.is_within_days_after(&start, 90) {
        let end_nanos: i128 = start.total_nanos() + (GRACE_PERIOD_DAYS as i128) * NANOS_PER_DAY;
        LicenseStatusInfo {
            tier: cache.tier,
            status: LicenseStatus::GracePeriod,
            email: copy_text(&cache.email),
            days_until_expiry: Some(days_between(end_nanos, now_nanos)),
            needs_revalidation: true,
        }
    } else {
        LicenseStatusInfo {
            tier: LicenseTier::Free,
            status: LicenseStatus::Expired,
            email: copy_text(&cache.email),
            days_until_expiry: Some(0),
            needs_revalidation: true,
        }
    }
}

/// The status of `cache` at `now`. No clock and no network is consulted:
/// the answer depends on the record and on `now` alone.
pub fn check_license_status(cache: &LicenseCache, now: Timestamp) -> (info: LicenseStatusInfo)
    ensures
        info@ == status_of(cache@, now),
{
    if cache.license_key.is_none() {
        return status_at(cache, None, None, now);
    }
    let expires = read_stored(&cache.validation_expires);
    let grace_start = read_stored(&cache.grace_period_start);
    status_at(cache, expires, grace_start, now)
}

/// The three regimes of an activated record with a readable deadline: valid
/// up to and including the deadline, in grace for ninety days after it, and
/// expired from then on.
pub proof fn status_boundaries(
    cache: LicenseCacheView,
    expires: Timestamp,
    grace_start: Option<Timestamp>,
    now: Timestamp,
)
    requires
        cache.license_key is Some,
    ensures
        status_spec(cache, Some(expires), grace_start, now).status == LicenseStatus::Valid
            <==> now.at_or_before(expires),
        status_spec(cache, Some(expires), grace_start, now).status == LicenseStatus::GracePeriod
            <==> !now.at_or_before(expires) && now.within_days_after(
            grace_from(expires, grace_start),
            90,
        ),
        status_spec(cache, Some(expires), grace_start, now).status == LicenseStatus::Expired
            <==> !now.at_or_before(expires) && !now.within_days_after(
            grace_from(expires, grace_start),
            90,
        ),
        grace_start is None ==> grace_from(expires, grace_start) == expires,
{
}

/// The same three regimes in nanoseconds since the epoch, for instants
/// whose nanoseconds stay within their second and a grace window that is
/// counted from the deadline: valid while `now <= expires`, in grace while
/// `expires < now <= expires + 90 days`, expired after that.
pub proof fn status_boundaries_in_nanoseconds(
    cache: LicenseCacheView,
    expires: Timestamp,
    now: Timestamp,
)
    requires
        cache.license_key is Some,
        expires.proper(),
        now.proper(),
    ensures
        status_spec(cache, Some(expires), None, now).status == LicenseStatus::Valid
            <==> now.instant() <= expires.instant(),
        status_spec(cache, Some(expires), None, now).status == LicenseStatus::GracePeriod
            <==> expires.instant() < now.instant() <= expires.instant() + 90
            * 86_400_000_000_000,
        status_spec(cache, Some(expires), None, now).status == LicenseStatus::Expired
            <==> expires.instant() + 90 * 86_400_000_000_000 < now.instant(),
{
    now.order_of_proper(expires, 0);
    now.order_of_proper(expires, 90);
}

/// Revalidation is asked for exactly when less than seven days of validity
/// remain, and so throughout the grace window and after it.
pub proof fn revalidation_threshold(
    cache: LicenseCacheView,
    expires: Timestamp,
    grace_start: Option<Timestamp>,
    now: Timestamp,
)
    requires
        cache.license_key is Some,
    ensures
        status_spec(cache, Some(expires), grace_start, now).needs_revalidation <==> expires.instant()
            - now.instant() < 7 * 86_400_000_000_000,
        status_spec(cache, Some(expires), grace_start, now).status == LicenseStatus::GracePeriod
            ==> status_spec(cache, Some(expires), grace_start, now).needs_revalidation,
        status_spec(cache, Some(expires), grace_start, now).status == LicenseStatus::Expired
            ==> status_spec(cache, Some(expires), grace_start, now).needs_revalidation,
{
}

/// An entitlement never outlives the grace window: whatever tier is cached,
/// an expired or never-activated record reports `Free`.
pub proof fn lapsed_is_free(
    cache: LicenseCacheView,
    expires: Option<Timestamp>,
    grace_start: Option<Timestamp>,
    now: Timestamp,
)
    ensures
        status_spec(cache, expires, grace_start, now).status == LicenseStatus::Expired
            || status_spec(cache, expires, grace_start, now).status
            == LicenseStatus::NotActivated ==> status_spec(cache, expires, grace_start, now).tier
            == LicenseTier::Free,
{
}

/// A record with a key whose deadline is absent or cannot be read grants
/// nothing, whatever status and tier are stored in it.
pub proof fn unreadable_deadline_grants_nothing(
    cache: LicenseCacheView,
    grace_start: Option<Timestamp>,
    now: Timestamp,
)
    requires
        cache.license_key is Some,
    ensures
        status_spec(cache, None, grace_start, now) == (LicenseStatusInfoView {
            tier: LicenseTier::Free,
            status: LicenseStatus::Expired,
            email: cache.email,
            days_until_expiry: None,
            needs_revalidation: true,
        }),
{
}

/// Only four statuses are ever reported: `Invalid` is none of them.
pub proof fn reported_statuses(
    cache: LicenseCacheView,
    expires: Option<Timestamp>,
    grace_start: Option<Timestamp>,
    now: Timestamp,
)
    ensures
        status_spec(cache, expires, grace_start, now).status != LicenseStatus::Invalid,
{
}

/// How far a status has moved along the life of a validation.
pub open spec fn stage(status: LicenseStatus) -> int {
    match status {
        LicenseStatus::Valid => 0,
        LicenseStatus::GracePeriod => 1,
        _ => 2,
    }
}

/// Time only moves a record forward: from valid to grace to expired, and
/// never back. A stored start of grace before the deadline leaves no grace
/// at all, but does not change the order.
pub proof fn status_never_moves_back(
    cache: LicenseCacheView,
    expires: Timestamp,
    grace_start: Option<Timestamp>,
    earlier: Timestamp,
    later: Timestamp,
)
    requires
        cache.license_key is Some,
        earlier.at_or_before(later),
    ensures
        stage(status_spec(cache, Some(expires), grace_start, earlier).status) <= stage(
            status_spec(cache, Some(expires), grace_start, later).status,
        ),
{
}

/// The days that a report counts are never negative; while valid they count
/// down to the deadline, and in grace they stay below ninety where the
/// grace window is counted from the deadline and the nanoseconds stay
/// within their second.
pub proof fn days_are_bounded(
    cache: LicenseCacheView,
    expires: Option<Timestamp>,
    grace_start: Option<Timestamp>,
    now: Timestamp,
)
    ensures
        status_spec(cache, expires, grace_start, now).days_until_expiry is Some ==> status_spec(
            cache,
            expires,
            grace_start,
            now,
        ).days_until_expiry.unwrap() >= 0,
        status_spec(cache, expires, grace_start, now).status == LicenseStatus::GracePeriod
            && grace_start is None && cache.license_key is Some && expires is Some
            && expires.unwrap().proper() && now.proper() ==> 0 <= status_spec(
            cache,
            expires,
            grace_start,
            now,
        ).days_until_expiry.unwrap() < 90,
        status_spec(cache, expires, grace_start, now).status == LicenseStatus::Valid
            && cache.license_key is Some && expires is Some ==> status_spec(
            cache,
            expires,
            grace_start,
            now,
        ).days_until_expiry == Some(whole_days_until(expires.unwrap().instant(), now.instant())),
{
}

/// The stored status plays no part in a report: two records that differ in
/// nothing but the status that was last written get the same report at the
/// same instant.
pub proof fn status_depends_on_record_and_instant(
    first: LicenseCacheView,
    second: LicenseCacheView,
    now: Timestamp,
)
    requires
        second == (LicenseCacheView { status: second.status, ..first }),
    ensures
        status_of(first, now) == status_of(second, now),
{
}

} // verus!

//! The encrypted, device-bound form of the entitlement record.
//!
//! A record is written as a JSON object, sealed with AES-256-GCM under a key
//! derived from the device identifier, and stored as base64 of the nonce
//! followed by the sealed bytes.

use vstd::prelude::*;
use vstd::slice::slice_subrange;
use vstd::string::StringExecFns;
use vstd::utf8::encode_utf8;
use crate::crypto::{
    aes_gcm_decrypt, aes_gcm_encrypt, aes_gcm_open, aes_gcm_seal, base64_decode,
    base64_decode_standard, base64_encode, base64_encode_standard, random_nonce, sha256,
    sha256_of_parts, NONCE_LEN,
};
use crate::json::{
    distinct_keys, json_members, json_object_bytes, member_at, member_at_own_key, read_members,
    write_object, written_as, JsonMember, JsonMemberView,
};
use crate::license::status::copy_text;
use crate::license::types::{
    LicenseCache, LicenseCacheView, LicenseError, LicenseErrorView, LicenseStatus, LicenseTier,
};
use crate::strings::str_equals;

verus! {

/// The application salt that is hashed together with the device identifier.
pub const KEY_SALT: &'static str = "wingman-license-key-salt-v1";

/// The key that belongs to a device: SHA-256 of the identifier followed by
/// the salt.
pub open spec fn key_of(device_id: Seq<char>) -> Seq<u8> {
    sha256(encode_utf8(device_id) + encode_utf8(KEY_SALT@))
}

/// The name under which a tier is stored.
pub open spec fn tier_name(tier: LicenseTier) -> Seq<char> {
    match tier {
        LicenseTier::Free => "free"@,
        LicenseTier::Pro => "pro"@,
    }
}

/// The name under which a status is stored.
pub open spec fn status_name(status: LicenseStatus) -> Seq<char> {
    match status {
        LicenseStatus::Valid => "valid"@,
        LicenseStatus::GracePeriod => "grace_period"@,
        LicenseStatus::Expired => "expired"@,
        LicenseStatus::Invalid => "invalid"@,
        LicenseStatus::NotActivated => "not_activated"@,
    }
}

/// The members of the JSON object that a record is written as.
pub open spec fn members_of(cache: LicenseCacheView) -> Seq<(Seq<char>, Option<Seq<char>>)> {
    seq![
        ("license_key"@, cache.license_key),
        ("email"@, cache.email),
        ("tier"@, Some(tier_name(cache.tier))),
        ("status"@, Some(status_name(cache.status))),
        ("device_id"@, Some(cache.device_id)),
        ("last_validated"@, cache.last_validated),
        ("validation_expires"@, cache.validation_expires),
        ("grace_period_start"@, cache.grace_period_start),
    ]
}

/// The keys that are read back, in the order of [`members_of`].
pub open spec fn record_keys() -> Seq<Seq<char>> {
    seq![
        "license_key"@,
        "email"@,
        "tier"@,
        "status"@,
        "device_id"@,
        "last_validated"@,
        "validation_expires"@,
        "grace_period_start"@,
    ]
}

/// An optional string member: absent and `null` both mean none; anything but
/// a string is refused.
pub open spec fn optional_text(member: JsonMemberView) -> Option<Option<Seq<char>>> {
    match member {
        JsonMemberView::Missing => Some(None),
        JsonMemberView::Null => Some(None),
        JsonMemberView::Text(text) => Some(Some(text)),
        JsonMemberView::Other => None,
    }
}

/// A member that must be a string.
pub open spec fn required_text(member: JsonMemberView) -> Option<Seq<char>> {
    match member {
        JsonMemberView::Text(text) => Some(text),
        _ => None,
    }
}

/// The tier that a name stands for.
pub open spec fn tier_named(name: Seq<char>) -> Option<LicenseTier> {
    if name == "free"@ {
        Some(LicenseTier::Free)
    } else if name == "pro"@ {
        Some(LicenseTier::Pro)
    } else {
        None
    }
}

/// The status that a name stands for.
pub open spec fn status_named(name: Seq<char>) -> Option<LicenseStatus> {
    if name == "valid"@ {
        Some(LicenseStatus::Valid)
    } else if name == "grace_period"@ {
        Some(LicenseStatus::GracePeriod)
    } else if name == "expired"@ {
        Some(LicenseStatus::Expired)
    } else if name == "invalid"@ {
        Some(LicenseStatus::Invalid)
    } else if name == "not_activated"@ {
        Some(LicenseStatus::NotActivated)
    } else {
        None
    }
}

/// The record that the members found under [`record_keys`] make up, or `None`
/// where one of them has the wrong shape.
pub open spec fn record_of(found: Seq<JsonMemberView>) -> Option<LicenseCacheView> {
    if found.len() != 8 {
        None
    } else if optional_text(found[0]) is None || optional_text(found[1]) is None || required_text(
        found[2],
    ) is None || required_text(found[3]) is None || required_text(found[4]) is None
        || optional_text(found[5]) is None || optional_text(found[6]) is None || optional_text(
        found[7],
    ) is None {
        None
    } else if tier_named(required_text(found[2]).unwrap()) is None || status_named(
        required_text(found[3]).unwrap(),
    ) is None {
        None
    } else {
        Some(
            LicenseCacheView {
                license_key: optional_text(found[0]).unwrap(),
                email: optional_text(found[1]).unwrap(),
                tier: tier_named(required_text(found[2]).unwrap()).unwrap(),
                status: status_named(required_text(found[3]).unwrap()).unwrap(),
                device_id: required_text(found[4]).unwrap(),
                last_validated: optional_text(found[5]).unwrap(),
                validation_expires: optional_text(found[6]).unwrap(),
                grace_period_start: optional_text(found[7]).unwrap(),
            },
        )
    }
}

/// The JSON text that a record is written as, before it is sealed.
pub open spec fn record_plaintext(cache: LicenseCacheView) -> Seq<u8> {
    json_object_bytes(members_of(cache))
}

/// The stored text for a record sealed under the key of `device_id` with
/// `nonce`, or `None` where the cipher refuses the record.
pub open spec fn sealed_blob(cache: LicenseCacheView, device_id: Seq<char>, nonce: Seq<u8>)
    -> Option<Seq<char>> {
    match aes_gcm_seal(key_of(device_id), nonce, record_plaintext(cache)) {
        None => None,
        Some(sealed) => Some(base64_encode(nonce + sealed)),
    }
}

/// Whether a stored text decodes to `nonce` followed by the bytes that seal
/// the record for the device, which are sixteen bytes, the tag, longer than
/// the record's plaintext.
pub open spec fn frames(
    text: Seq<char>,
    cache: LicenseCacheView,
    device_id: Seq<char>,
    nonce: Seq<u8>,
) -> bool {
    &&& aes_gcm_seal(key_of(device_id), nonce, record_plaintext(cache)) matches Some(sealed)
        && framed_bytes(text) == Some(nonce + sealed) && sealed.len() == record_plaintext(
        cache,
    ).len() + 16
    &&& framed_bytes(text) is Some
    &&& framed_bytes(text).unwrap().subrange(0, 12) == nonce
    &&& framed_bytes(text).unwrap().len() == 12 + record_plaintext(cache).len() + 16
}

/// The bytes that a stored text decodes to, where they are long enough to
/// hold a nonce.
pub open spec fn framed_bytes(encrypted: Seq<char>) -> Option<Seq<u8>> {
    match base64_decode(encrypted) {
        Some(data) => if data.len() < 12 {
            None
        } else {
            Some(data)
        },
        None => None,
    }
}

/// Whether a stored text is base64 of fewer bytes than a nonce has.
pub open spec fn too_short(encrypted: Seq<char>) -> bool {
    base64_decode(encrypted) matches Some(data) && data.len() < 12
}

/// The plaintext that a stored text opens to under the key of `device_id`,
/// or `None` where it is malformed, too short, or fails authentication.
pub open spec fn opened_plaintext(encrypted: Seq<char>, device_id: Seq<char>) -> Option<Seq<u8>> {
    match framed_bytes(encrypted) {
        None => None,
        Some(data) => aes_gcm_open(
            key_of(device_id),
            data.subrange(0, 12),
            data.subrange(12, data.len() as int),
        ),
    }
}

/// The record that a stored text holds for the device `device_id`, or `None`
/// where any step of opening it fails.
pub open spec fn opened_record(encrypted: Seq<char>, device_id: Seq<char>) -> Option<
    LicenseCacheView,
> {
    match opened_plaintext(encrypted, device_id) {
        None => None,
        Some(plaintext) => match json_members(plaintext, record_keys()) {
            None => None,
            Some(found) => record_of(found),
        },
    }
}

/// The key for the cache of the device `device_id`.
pub fn derive_key(device_id: &str) -> (key: [u8; 32])
    ensures
        key@ == key_of(device_id@),
{
    sha256_of_parts(device_id.as_bytes(), KEY_SALT.as_bytes())
}

fn tier_text(tier: LicenseTier) -> (name: String)
    ensures
        name@ == tier_name(tier),
{
    match tier {
        LicenseTier::Free => String::from_str("free"),
        LicenseTier::Pro => String::from_str("pro"),
    }
}

fn status_text(status: LicenseStatus) -> (name: String)
    ensures
        name@ == status_name(status),
{
    match status {
        LicenseStatus::Valid => String::from_str("valid"),
        LicenseStatus::GracePeriod => String::from_str("grace_period"),
        LicenseStatus::Expired => String::from_str("expired"),
        LicenseStatus::Invalid => String::from_str("invalid"),
        LicenseStatus::NotActivated => String::from_str("not_activated"),
    }
}

/// The members of the JSON object that a record is written as.
pub fn record_members(cache: &LicenseCache) -> (members: Vec<(String, Option<String>)>)
    ensures
        members.deep_view() == members_of(cache@),
{
    let mut members: Vec<(String, Option<String>)> = Vec::new();
    members.push((String::from_str("license_key"), copy_text(&cache.license_key)));
    members.push((String::from_str("email"), copy_text(&cache.email)));
    members.push((String::from_str("tier"), Some(tier_text(cache.tier))));
    members.push((String::from_str("status"), Some(status_text(cache.status))));
    members.push((String::from_str("device_id"), Some(cache.device_id.clone())));
    members.push((String::from_str("last_validated"), copy_text(&cache.last_validated)));
    members.push((String::from_str("validation_expires"), copy_text(&cache.validation_expires)));
    members.push((String::from_str("grace_period_start"), copy_text(&cache.grace_period_start)));
    assert(members.deep_view() =~= members_of(cache@));
    members
}

fn key_list() -> (keys: Vec<String>)
    ensures
        keys.deep_view() == record_keys(),
{
    let mut keys: Vec<String> = Vec::new();
    keys.push(String::from_str("license_key"));
    keys.push(String::from_str("email"));
    keys.push(String::from_str("tier"));
    keys.push(String::from_str("status"));
    keys.push(String::from_str("device_id"));
    keys.push(String::from_str("last_validated"));
    keys.push(String::from_str("validation_expires"));
    keys.push(String::from_str("grace_period_start"));
    assert(keys.deep_view() =~= record_keys());
    keys
}

fn read_optional(member: &JsonMember) -> (text: Option<Option<String>>)
    ensures
        text.deep_view() == optional_text(member.deep_view()),
{
    match member {
        JsonMember::Missing => Some(None),
        JsonMember::Null => Some(None),
        JsonMember::Text(t) => Some(Some(t.clone())),
        JsonMember::Other => None,
    }
}

fn read_required(member: &JsonMember) -> (text: Option<String>)
    ensures
        text.deep_view() == required_text(member.deep_view()),
{
    match member {
        JsonMember::Text(t) => Some(t.clone()),
        _ => None,
    }
}

fn read_tier(name: &str) -> (tier: Option<LicenseTier>)
    ensures
        tier == tier_named(name@),
{
    if str_equals(name, "free") {
        Some(LicenseTier::Free)
    } else if str_equals(name, "pro") {
        Some(LicenseTier::Pro)
    } else {
        None
    }
}

fn read_status(name: &str) -> (status: Option<LicenseStatus>)
    ensures
        status == status_named(name@),
{
    if str_equals(name, "valid") {
        Some(LicenseStatus::Valid)
    } else if str_equals(name, "grace_period") {
        Some(LicenseStatus::GracePeriod)
    } else if str_equals(name, "expired") {
        Some(LicenseStatus::Expired)
    } else if str_equals(name, "invalid") {
        Some(LicenseStatus::Invalid)
    } else if str_equals(name, "not_activated") {
        Some(LicenseStatus::NotActivated)
    } else {
        None
    }
}

/// The record that the members found under [`record_keys`] make up.
pub fn record_from_members(found: &Vec<JsonMember>) -> (cache: Option<LicenseCache>)
    ensures
        cache.is_some() == record_of(found.deep_view()).is_some(),
        cache matches Some(c) ==> record_of(found.deep_view()) == Some(c@),
{
    if found.len() != 8 {
        return None;
    }
    let ghost views = found.deep_view();
    assert(forall|i: int| 0 <= i < 8 ==> views[i] == (#[trigger] found@[i]).deep_view());
    let license_key = read_optional(&found[0]);
    let email = read_optional(&found[1]);
    let tier_text = read_required(&found[2]);
    let status_text = read_required(&found[3]);
    let device_id = read_required(&found[4]);
    let last_validated = read_optional(&found[5]);
    let validation_expires = read_optional(&found[6]);
    let grace_period_start = read_optional(&found[7]);
    match (
        license_key,
        email,
        tier_text,
        status_text,
        device_id,
        last_validated,
        validation_expires,
        grace_period_start,
    ) {
        (
            Some(license_key),
            Some(email),
            Some(tier_text),
            Some(status_text),
            Some(device_id),
            Some(last_validated),
            Some(validation_expires),
            Some(grace_period_start),
        ) => {
            let tier = read_tier(tier_text.as_str());
            let status = read_status(status_text.as_str());
            match (tier, status) {
                (Some(tier), Some(status)) => Some(
                    LicenseCache {
                        license_key,
                        email,
                        tier,
                        status,
                        device_id,
                        last_validated,
                        validation_expires,
                        grace_period_start,
                    },
                ),
                _ => None,
            }
        },
        _ => None,
    }
}

/// Whether a record can be sealed: its JSON text is no longer than the 2^36
/// bytes that AES-GCM takes.
pub open spec fn sealable(cache: LicenseCacheView) -> bool {
    record_plaintext(cache).len() <= 0x10_0000_0000
}

/// The bytes that are stored for sealed bytes: the nonce and then the
/// sealed bytes.
pub fn frame(nonce: &[u8; 12], sealed: &Vec<u8>) -> (blob: Vec<u8>)
    ensures
        blob@ == nonce@ + sealed@,
{
    let mut blob: Vec<u8> = Vec::new();
    let mut i: usize = 0;
    while i < NONCE_LEN
        invariant
            i <= 12,
            blob@ == nonce@.take(i as int),
        decreases 12 - i,
    {
        blob.push(nonce[i]);
        i += 1;
    }
    let mut j: usize = 0;
    while j < sealed.len()
        invariant
            j <= sealed.len(),
            blob@ == nonce@ + sealed@.take(j as int),
        decreases sealed.len() - j,
    {
        blob.push(sealed[j]);
        j += 1;
    }
    assert(sealed@.take(sealed@.len() as int) == sealed@);
    blob
}

/// The nonce and the sealed bytes of stored bytes: the first twelve bytes
/// and the rest. Fewer than twelve bytes are refused.
pub fn unframe(data: &[u8]) -> (parts: Result<(&[u8], &[u8]), LicenseError>)
    ensures
        match parts {
            Ok(pair) => data@.len() >= 12 && pair.0@ == data@.subrange(0, 12) && pair.1@
                == data@.subrange(12, data@.len() as int),
            Err(e) => data@.len() < 12 && e@ == LicenseErrorView::EncryptionError(
                "Invalid encrypted data"@,
            ),
        },
{
    if data.len() < NONCE_LEN {
        return Err(LicenseError::EncryptionError(String::from_str("Invalid encrypted data")));
    }
    Ok((slice_subrange(data, 0, NONCE_LEN), slice_subrange(data, NONCE_LEN, data.len())))
}

/// Seals `cache` for the device `device_id` with the given nonce.
///
/// The result is the stored text for exactly these three inputs. It
/// decodes to the nonce followed by the sealed bytes, which are sixteen
/// bytes longer than the record's JSON text, and it opens, on the same
/// device, to the record that went in. Only a record whose JSON text is
/// longer than AES-GCM takes is refused.
pub fn encrypt_cache_with_nonce(cache: &LicenseCache, device_id: &str, nonce: &[u8; 12]) -> (stored:
    Result<String, LicenseError>)
    ensures
        match stored {
            Ok(text) => {
                &&& sealed_blob(cache@, device_id@, nonce@) == Some(text@)
                &&& frames(text@, cache@, device_id@, nonce@)
                &&& opened_record(text@, device_id@) == Some(cache@)
            },
            Err(e) => sealed_blob(cache@, device_id@, nonce@) is None && e@ is EncryptionError,
        },
        stored is Ok <==> sealable(cache@),
{
    let key = derive_key(device_id);
    let members = record_members(cache);
    let plaintext = match write_object(&members) {
        Ok(bytes) => bytes,
        Err(message) => {
            return Err(LicenseError::EncryptionError(message));
        },
    };
    let sealed = match aes_gcm_encrypt(&key, nonce, plaintext.as_slice()) {
        Ok(bytes) => bytes,
        Err(message) => {
            return Err(LicenseError::EncryptionError(message));
        },
    };
    let blob = frame(nonce, &sealed);
    let text = base64_encode_standard(blob.as_slice());
    proof {
        written_record_reads_back(cache@);
        assert(blob@.subrange(0, 12) == nonce@);
        assert(blob@.subrange(12, blob@.len() as int) == sealed@);
    }
    Ok(text)
}

/// Seals `cache` for the device `device_id` under a fresh random nonce.
///
/// Whatever nonce was drawn, the stored text decodes to that nonce followed
/// by sealed bytes sixteen longer than the record's JSON text, and it opens
/// on the same device to the record that went in. Only a record whose JSON
/// text is longer than AES-GCM takes is refused.
pub fn encrypt_cache(cache: &LicenseCache, device_id: &str) -> (stored: Result<
    String,
    LicenseError,
>)
    ensures
        match stored {
            Ok(text) => {
                &&& exists|nonce: Seq<u8>|
                    {
                        &&& nonce.len() == 12
                        &&& #[trigger] sealed_blob(cache@, device_id@, nonce) == Some(text@)
                        &&& frames(text@, cache@, device_id@, nonce)
                    }
                &&& framed_bytes(text@) is Some
                &&& framed_bytes(text@).unwrap().len() == 12 + record_plaintext(cache@).len() + 16
                &&& opened_record(text@, device_id@) == Some(cache@)
            },
            Err(e) => e@ is EncryptionError,
        },
        stored is Ok <==> sealable(cache@),
{
    let nonce = random_nonce();
    encrypt_cache_with_nonce(cache, device_id, &nonce)
}

/// Opens a stored text on the device `device_id`.
///
/// Malformed base64, fewer than twelve bytes, a failed authentication and a
/// plaintext that is not a record are all refused with `EncryptionError`;
/// nothing of the plaintext is handed out then.
pub fn decrypt_cache(encrypted: &str, device_id: &str) -> (opened: Result<
    LicenseCache,
    LicenseError,
>)
    ensures
        match opened {
            Ok(cache) => opened_record(encrypted@, device_id@) == Some(cache@),
            Err(e) => opened_record(encrypted@, device_id@) is None && e@ is EncryptionError,
        },
        too_short(encrypted@) ==> (opened matches Err(e) && e@
            == LicenseErrorView::EncryptionError("Invalid encrypted data"@)),
{
    let key = derive_key(device_id);
    let data = match base64_decode_standard(encrypted) {
        Ok(bytes) => bytes,
        Err(message) => {
            return Err(LicenseError::EncryptionError(message));
        },
    };
    let (nonce, sealed) = match unframe(data.as_slice()) {
        Ok(parts) => parts,
        Err(e) => {
            return Err(e);
        },
    };
    let plaintext = match aes_gcm_decrypt(&key, nonce, sealed) {
        Ok(bytes) => bytes,
        Err(message) => {
            return Err(LicenseError::EncryptionError(message));
        },
    };
    let keys = key_list();
    let found = match read_members(plaintext.as_slice(), &keys) {
        Ok(found) => found,
        Err(message) => {
            return Err(LicenseError::EncryptionError(message));
        },
    };
    match record_from_members(&found) {
        Some(cache) => Ok(cache),
        None => Err(LicenseError::EncryptionError(String::from_str("Invalid license data"))),
    }
}

/// The record to work with, given what the cache file holds (`None` where
/// there is no file): a missing file is the legitimate state of a device that
/// was never activated, and gives the default record with this device's id.
pub open spec fn loaded_record(device_id: Seq<char>, stored: Option<Seq<char>>) -> Option<
    LicenseCacheView,
> {
    match stored {
        None => Some(LicenseCacheView::never_activated(device_id)),
        Some(encrypted) => opened_record(encrypted, device_id),
    }
}

/// Reads the cache of the device `device_id` from what its file holds.
pub fn load_license_cache(device_id: &str, stored: Option<&str>) -> (loaded: Result<
    LicenseCache,
    LicenseError,
>)
    ensures
        match loaded {
            Ok(cache) => loaded_record(device_id@, stored.deep_view()) == Some(cache@),
            Err(e) => loaded_record(device_id@, stored.deep_view()) is None && e@
                is EncryptionError,
        },
{
    match stored {
        None => {
            let mut cache = LicenseCache::default();
            cache.device_id = device_id.to_owned();
            Ok(cache)
        },
        Some(encrypted) => decrypt_cache(encrypted, device_id),
    }
}

/// Names and keys are pairwise different, so a record that was written reads
/// back as itself.
pub proof fn written_record_reads_back(cache: LicenseCacheView)
    ensures
        distinct_keys(members_of(cache)),
        record_of(
            Seq::new(record_keys().len(), |i: int| member_at(members_of(cache), record_keys()[i])),
        ) == Some(cache),
{
    reveal_strlit("license_key");
    reveal_strlit("email");
    reveal_strlit("tier");
    reveal_strlit("status");
    reveal_strlit("device_id");
    reveal_strlit("last_validated");
    reveal_strlit("validation_expires");
    reveal_strlit("grace_period_start");
    reveal_strlit("free");
    reveal_strlit("pro");
    reveal_strlit("valid");
    reveal_strlit("grace_period");
    reveal_strlit("expired");
    reveal_strlit("invalid");
    reveal_strlit("not_activated");
    let members = members_of(cache);
    let keys = record_keys();
    assert(keys[6][0] != keys[7][0]);
    assert forall|i: int, j: int| 0 <= i < j < 8 implies keys[i] != keys[j] by {
        if keys[i].len() == keys[j].len() {
            assert(i == 6 && j == 7);
        }
    }
    assert forall|i: int| 0 <= i < 8 implies (#[trigger] members[i]).0 == keys[i] by {}
    assert(distinct_keys(members));
    let found = Seq::new(keys.len(), |i: int| member_at(members, keys[i]));
    assert forall|i: int| 0 <= i < 8 implies found[i] == written_as(members[i].1) by {
        member_at_own_key(members, i);
    }
    assert("expired"@[0] != "invalid"@[0]);
    assert("free"@.len() == 4 && "pro"@.len() == 3);
    assert("valid"@.len() == 5 && "grace_period"@.len() == 12 && "expired"@.len() == 7
        && "invalid"@.len() == 7 && "not_activated"@.len() == 13);
    assert(tier_named(tier_name(cache.tier)) == Some(cache.tier));
    assert(status_named(status_name(cache.status)) == Some(cache.status));
    assert(found[0] == written_as(cache.license_key));
    assert(found[1] == written_as(cache.email));
    assert(found[2] == written_as(Some(tier_name(cache.tier))));
    assert(found[3] == written_as(Some(status_name(cache.status))));
    assert(found[4] == written_as(Some(cache.device_id)));
    assert(found[5] == written_as(cache.last_validated));
    assert(found[6] == written_as(cache.validation_expires));
    assert(found[7] == written_as(cache.grace_period_start));
    assert(record_of(found) is Some);
    assert(record_of(found).unwrap() == cache);
}

} // verus!

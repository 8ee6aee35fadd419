//! Identifiers and digests for the editor's tools: random identifiers,
//! short hashes, and the hexadecimal digests of a text.

use vstd::prelude::*;
use vstd::string::StringExecFns;
use vstd::utf8::encode_utf8;
use md5::Digest;
use crate::crypto::{sha256, sha256_of_parts};
use crate::strings::{chars_of, str_equals, string_of};
use crate::text::{append_chars, copy_range, join, join_chars, rows};
use crate::unicode::alphanumeric;

verus! {

/// The most identifiers that are made at once.
pub const MAX_BULK: u32 = 100;

/// The MD5 digest of `data`.
pub uninterp spec fn md5_of(data: Seq<u8>) -> Seq<u8>;

/// The SHA-1 digest of `data`.
pub uninterp spec fn sha1_of(data: Seq<u8>) -> Seq<u8>;

/// The SHA-512 digest of `data`.
pub uninterp spec fn sha512_of(data: Seq<u8>) -> Seq<u8>;

/// `Digest::digest` of `md5::Md5`.
#[verifier::external_body]
fn md5_digest(data: &[u8]) -> (digest: [u8; 16])
    ensures
        digest@ == md5_of(data@),
{
    md5::Md5::digest(data).into()
}

/// `Digest::digest` of `sha1::Sha1`.
#[verifier::external_body]
fn sha1_digest(data: &[u8]) -> (digest: [u8; 20])
    ensures
        digest@ == sha1_of(data@),
{
    sha1::Sha1::digest(data).into()
}

/// `Digest::digest` of `sha2::Sha512`.
#[verifier::external_body]
fn sha512_digest(data: &[u8]) -> (digest: [u8; 64])
    ensures
        digest@ == sha512_of(data@),
{
    sha2::Sha512::digest(data).into()
}

/// Whether a character is a lower-case hexadecimal digit.
pub open spec fn is_lower_hex(c: char) -> bool {
    ('0' <= c && c <= '9') || ('a' <= c && c <= 'f')
}

/// Whether a position of a written UUID holds a hyphen.
pub open spec fn is_hyphen_position(i: int) -> bool {
    i == 8 || i == 13 || i == 18 || i == 23
}

/// Whether a text is a UUID of the given version as it is written: thirty-
/// two lower-case hexadecimal digits in groups of eight, four, four, four
/// and twelve with hyphens between, the third group beginning with the
/// version and the fourth with `8`, `9`, `a` or `b`.
pub open spec fn is_uuid_text(s: Seq<char>, version: char) -> bool {
    &&& s.len() == 36
    &&& forall|i: int|
        0 <= i < 36 ==> if is_hyphen_position(i) {
            #[trigger] s[i] == '-'
        } else {
            is_lower_hex(s[i])
        }
    &&& s[14] == version
    &&& (s[19] == '8' || s[19] == '9' || s[19] == 'a' || s[19] == 'b')
}

/// Whether a character belongs to the alphabet of random identifiers: a
/// letter or digit of ASCII, an underscore, or a hyphen.
pub open spec fn is_url_safe(c: char) -> bool {
    ('0' <= c && c <= '9') || ('a' <= c && c <= 'z') || ('A' <= c && c <= 'Z') || c == '_' || c
        == '-'
}

/// A fresh random UUID of version 4, as `Uuid::new_v4().to_string()` writes
/// it: hyphenated, in lower case, with the bits of version and variant set.
/// Nothing else is known of it.
#[verifier::external_body]
fn fresh_uuid_v4() -> (id: String)
    ensures
        is_uuid_text(id@, '4'),
{
    uuid::Uuid::new_v4().to_string()
}

/// A fresh UUID of version 7, as `Uuid::now_v7().to_string()` writes it:
/// hyphenated, in lower case, with the bits of version and variant set.
/// Nothing else is known of it.
#[verifier::external_body]
fn fresh_uuid_v7() -> (id: String)
    ensures
        is_uuid_text(id@, '7'),
{
    uuid::Uuid::now_v7().to_string()
}

/// `nanoid::format` with its default source of randomness and its
/// URL-safe alphabet. It returns once it has gathered `size` characters of
/// the alphabet, so it must be asked for at least one; and it computes
/// `8 * size`, which must fit.
#[verifier::external_body]
fn fresh_nanoid(size: usize) -> (id: String)
    requires
        1 <= size <= usize::MAX / 8,
    ensures
        id@.len() == size,
        forall|i: int| 0 <= i < id@.len() ==> is_url_safe(#[trigger] id@[i]),
{
    nanoid::format(nanoid::rngs::default, &nanoid::alphabet::SAFE, size)
}

/// The lower-case hexadecimal digit for a value below sixteen.
pub open spec fn hex_lower_digit(value: int) -> char {
    if value < 10 {
        (0x30 + value) as char
    } else {
        (0x61 - 10 + value) as char
    }
}

/// Bytes written as lower-case hexadecimal digits, two for each byte.
pub open spec fn hex_lower(bytes: Seq<u8>) -> Seq<char>
    decreases bytes.len(),
{
    if bytes.len() == 0 {
        Seq::empty()
    } else {
        hex_lower(bytes.drop_last()) + seq![
            hex_lower_digit(bytes.last() as int / 16),
            hex_lower_digit(bytes.last() as int % 16),
        ]
    }
}

/// Hexadecimal text is twice as long as the bytes.
pub proof fn hex_lower_len(bytes: Seq<u8>)
    ensures
        hex_lower(bytes).len() == 2 * bytes.len(),
    decreases bytes.len(),
{
    if bytes.len() > 0 {
        hex_lower_len(bytes.drop_last());
    }
}

fn hex_digit_char(value: u8) -> (digit: char)
    requires
        value < 16,
    ensures
        digit == hex_lower_digit(value as int),
{
    if value < 10 {
        (0x30u8 + value) as char
    } else {
        (0x61u8 - 10 + value) as char
    }
}

/// Bytes written as lower-case hexadecimal digits.
pub fn to_hex(bytes: &[u8]) -> (text: Vec<char>)
    ensures
        text@ == hex_lower(bytes@),
{
    let mut text: Vec<char> = Vec::new();
    let mut i: usize = 0;
    while i < bytes.len()
        invariant
            i <= bytes.len(),
            text@ == hex_lower(bytes@.take(i as int)),
        decreases bytes.len() - i,
    {
        proof {
            assert(bytes@.take(i + 1).drop_last() =~= bytes@.take(i as int));
            assert(bytes@.take(i + 1).last() == bytes@[i as int]);
        }
        let byte = bytes[i];
        text.push(hex_digit_char(byte / 16));
        text.push(hex_digit_char(byte % 16));
        i += 1;
    }
    assert(bytes@.take(bytes@.len() as int) =~= bytes@);
    text
}

/// The MD5 digest of a text, in hexadecimal.
pub fn generate_md5(text: &str) -> (digest: String)
    ensures
        digest@ == hex_lower(md5_of(encode_utf8(text@))),
{
    let bytes = md5_digest(text.as_bytes());
    string_of(&to_hex(bytes.as_slice()))
}

/// The SHA-1 digest of a text, in hexadecimal.
pub fn generate_sha1(text: &str) -> (digest: String)
    ensures
        digest@ == hex_lower(sha1_of(encode_utf8(text@))),
{
    let bytes = sha1_digest(text.as_bytes());
    string_of(&to_hex(bytes.as_slice()))
}

/// The SHA-256 digest of a text, in hexadecimal.
pub fn generate_sha256(text: &str) -> (digest: String)
    ensures
        digest@ == hex_lower(sha256(encode_utf8(text@))),
{
    let nothing: Vec<u8> = Vec::new();
    let bytes = sha256_of_parts(text.as_bytes(), nothing.as_slice());
    assert(encode_utf8(text@) + nothing@ =~= encode_utf8(text@));
    string_of(&to_hex(bytes.as_slice()))
}

/// The SHA-512 digest of a text, in hexadecimal.
pub fn generate_sha512(text: &str) -> (digest: String)
    ensures
        digest@ == hex_lower(sha512_of(encode_utf8(text@))),
{
    let bytes = sha512_digest(text.as_bytes());
    string_of(&to_hex(bytes.as_slice()))
}

/// How many digits a short hash has: as many as asked for, eight where
/// nothing is asked, and never more than the sixty-four that there are.
pub open spec fn short_hash_len(length: Option<usize>) -> int {
    match length {
        Some(n) => if n <= 64 {
            n as int
        } else {
            64
        },
        None => 8,
    }
}

/// A short hash of `entropy`: the first digits of its SHA-256 digest.
pub open spec fn short_hash(length: Option<usize>, entropy: Seq<char>) -> Seq<char> {
    hex_lower(sha256(encode_utf8(entropy))).take(short_hash_len(length))
}

/// A short hash of `entropy`, which the caller draws afresh each time.
pub fn generate_short_hash(length: Option<usize>, entropy: &str) -> (hash: String)
    ensures
        hash@ == short_hash(length, entropy@),
        hash@.len() == short_hash_len(length),
{
    let wanted = match length {
        Some(n) => if n <= 64 {
            n
        } else {
            64
        },
        None => 8,
    };
    let nothing: Vec<u8> = Vec::new();
    let bytes = sha256_of_parts(entropy.as_bytes(), nothing.as_slice());
    let digits = to_hex(bytes.as_slice());
    proof {
        assert(encode_utf8(entropy@) + nothing@ =~= encode_utf8(entropy@));
        hex_lower_len(bytes@);
    }
    let kept = copy_range(&digits, 0, wanted);
    assert(kept@ =~= digits@.take(wanted as int));
    string_of(&kept)
}

/// A fresh random UUID.
pub fn generate_uuid() -> (id: String)
    ensures
        is_uuid_text(id@, '4'),
{
    fresh_uuid_v4()
}

/// A fresh UUID that sorts by its time of creation.
pub fn generate_uuid_v7() -> (id: String)
    ensures
        is_uuid_text(id@, '7'),
{
    fresh_uuid_v7()
}

/// A fresh random identifier of the given length, twenty-one where none is
/// given.
pub fn generate_nanoid(length: Option<usize>) -> (id: String)
    requires
        length matches Some(n) ==> 1 <= n <= usize::MAX / 8,
    ensures
        id@.len() == (match length {
            Some(n) => n,
            None => 21,
        }),
        forall|i: int| 0 <= i < id@.len() ==> is_url_safe(#[trigger] id@[i]),
{
    match length {
        Some(n) => fresh_nanoid(n),
        None => fresh_nanoid(21),
    }
}

/// Whether a prefix may stand before an identifier: it holds letters,
/// digits and underscores only.
pub open spec fn valid_prefix(prefix: Seq<char>) -> bool {
    forall|i: int| 0 <= i < prefix.len() ==> alphanumeric(prefix[i]) || prefix[i] == '_'
}

/// The characters of `s` that are not hyphens, in order.
pub open spec fn without_hyphens(s: Seq<char>) -> Seq<char>
    decreases s.len(),
{
    if s.len() == 0 {
        Seq::empty()
    } else if s.last() == '-' {
        without_hyphens(s.drop_last())
    } else {
        without_hyphens(s.drop_last()).push(s.last())
    }
}

/// The first `n` characters of `s`, or all of `s` if it is shorter.
pub open spec fn at_most(s: Seq<char>, n: int) -> Seq<char> {
    if s.len() <= n {
        s
    } else {
        s.take(n)
    }
}

/// The identifier that is made of a prefix and a drawn identifier: of a
/// UUID its first twelve digits, of any other all of it.
pub open spec fn prefixed_id(prefix: Seq<char>, id_type: Option<Seq<char>>, drawn: Seq<char>)
    -> Seq<char> {
    if id_type == Some("uuid"@) {
        prefix + at_most(without_hyphens(drawn), 12)
    } else {
        prefix + drawn
    }
}

/// Removing hyphens goes part by part.
pub proof fn without_hyphens_of_parts(a: Seq<char>, b: Seq<char>)
    ensures
        without_hyphens(a + b) == without_hyphens(a) + without_hyphens(b),
    decreases b.len(),
{
    if b.len() == 0 {
        assert(a + b =~= a);
        assert(without_hyphens(a) + without_hyphens(b) =~= without_hyphens(a));
    } else {
        without_hyphens_of_parts(a, b.drop_last());
        assert((a + b).drop_last() =~= a + b.drop_last());
        assert((a + b).last() == b.last());
        assert(without_hyphens(a) + without_hyphens(b.drop_last()).push(b.last())
            =~= (without_hyphens(a) + without_hyphens(b.drop_last())).push(b.last()));
    }
}

/// A text without hyphens is unchanged by their removal.
pub proof fn without_hyphens_of_digits(s: Seq<char>)
    requires
        forall|i: int| 0 <= i < s.len() ==> s[i] != '-',
    ensures
        without_hyphens(s) == s,
    decreases s.len(),
{
    if s.len() > 0 {
        without_hyphens_of_digits(s.drop_last());
        assert(s.drop_last().push(s.last()) =~= s);
    } else {
        assert(s =~= Seq::<char>::empty());
    }
}

/// The first twelve digits of a written UUID are its first group and its
/// second.
pub proof fn first_digits_of_uuid(s: Seq<char>, version: char)
    requires
        is_uuid_text(s, version),
    ensures
        at_most(without_hyphens(s), 12) == s.subrange(0, 8) + s.subrange(9, 13),
        forall|i: int|
            0 <= i < 12 ==> is_lower_hex(#[trigger] at_most(without_hyphens(s), 12)[i]),
{
    let first = s.subrange(0, 8);
    let second = s.subrange(9, 13);
    let rest = s.subrange(13, 36);
    let hyphen = seq!['-'];
    assert(s =~= first + hyphen + second + rest);
    assert forall|i: int| 0 <= i < first.len() implies first[i] != '-' by {
        assert(first[i] == s[i]);
        assert(is_lower_hex(s[i]));
    }
    assert forall|i: int| 0 <= i < second.len() implies second[i] != '-' by {
        assert(second[i] == s[i + 9]);
        assert(is_lower_hex(s[i + 9]));
    }
    without_hyphens_of_digits(first);
    without_hyphens_of_digits(second);
    assert(without_hyphens(hyphen) =~= Seq::<char>::empty()) by {
        assert(hyphen.len() == 1 && hyphen.last() == '-');
        assert(hyphen.drop_last().len() == 0);
        assert(without_hyphens(hyphen.drop_last()) =~= Seq::<char>::empty());
        assert(without_hyphens(hyphen) == without_hyphens(hyphen.drop_last()));
    }
    without_hyphens_of_parts(first, hyphen);
    without_hyphens_of_parts(first + hyphen, second);
    without_hyphens_of_parts(first + hyphen + second, rest);
    let digits = without_hyphens(s);
    assert(digits =~= first + second + without_hyphens(rest));
    assert(at_most(digits, 12) =~= first + second);
    assert forall|i: int| 0 <= i < 12 implies is_lower_hex(
        #[trigger] at_most(without_hyphens(s), 12)[i],
    ) by {
        if i < 8 {
            assert((first + second)[i] == s[i]);
            assert(is_lower_hex(s[i]));
        } else {
            assert((first + second)[i] == s[i + 1]);
            assert(is_lower_hex(s[i + 1]));
        }
    }
}

fn is_valid_prefix(prefix: &Vec<char>) -> (valid: bool)
    ensures
        valid == valid_prefix(prefix@),
{
    let mut i: usize = 0;
    while i < prefix.len()
        invariant
            i <= prefix.len(),
            forall|k: int| 0 <= k < i ==> alphanumeric(prefix@[k]) || prefix@[k] == '_',
        decreases prefix.len() - i,
    {
        if !(prefix[i].is_alphanumeric() || prefix[i] == '_') {
            return false;
        }
        i += 1;
    }
    true
}

fn strip_hyphens(s: &Vec<char>) -> (out: Vec<char>)
    ensures
        out@ == without_hyphens(s@),
{
    let mut out: Vec<char> = Vec::new();
    let mut i: usize = 0;
    while i < s.len()
        invariant
            i <= s.len(),
            out@ == without_hyphens(s@.take(i as int)),
        decreases s.len() - i,
    {
        proof {
            assert(s@.take(i + 1).drop_last() =~= s@.take(i as int));
            assert(s@.take(i + 1).last() == s@[i as int]);
        }
        if s[i] != '-' {
            out.push(s[i]);
        }
        i += 1;
    }
    assert(s@.take(s@.len() as int) =~= s@);
    out
}

/// Puts a prefix before an identifier that was drawn for it.
pub fn prefix_identifier(prefix: &str, id_type: Option<&str>, drawn: &str) -> (id: Result<
    String,
    String,
>)
    ensures
        match id {
            Ok(text) => valid_prefix(prefix@) && text@ == prefixed_id(
                prefix@,
                id_type.deep_view(),
                drawn@,
            ),
            Err(reason) => !valid_prefix(prefix@) && reason@
                == "Prefix must be alphanumeric with underscores only"@,
        },
{
    let mut out = chars_of(prefix);
    if !is_valid_prefix(&out) {
        return Err(String::from_str("Prefix must be alphanumeric with underscores only"));
    }
    let is_uuid = match id_type {
        Some(name) => str_equals(name, "uuid"),
        None => false,
    };
    if is_uuid {
        let digits = strip_hyphens(&chars_of(drawn));
        if digits.len() <= 12 {
            append_chars(&mut out, &digits);
        } else {
            let first = copy_range(&digits, 0, 12);
            assert(first@ =~= digits@.take(12));
            append_chars(&mut out, &first);
        }
    } else {
        append_chars(&mut out, &chars_of(drawn));
    }
    Ok(string_of(&out))
}

/// An identifier with a prefix: the prefix and the first twelve digits of a
/// fresh UUID, or the prefix and a fresh random identifier of sixteen
/// characters.
pub fn generate_prefixed_id(prefix: &str, id_type: Option<&str>) -> (id: Result<String, String>)
    ensures
        id is Ok <==> valid_prefix(prefix@),
        id matches Ok(text) ==> exists|drawn: Seq<char>| #[trigger]
            prefixed_id(prefix@, id_type.deep_view(), drawn) == text@,
        id matches Ok(text) ==> {
            let tail = text@.skip(prefix@.len() as int);
            &&& text@.take(prefix@.len() as int) == prefix@
            &&& if id_type.deep_view() == Some("uuid"@) {
                tail.len() == 12 && forall|i: int| 0 <= i < 12 ==> is_lower_hex(#[trigger] tail[i])
            } else {
                tail.len() == 16 && forall|i: int| 0 <= i < 16 ==> is_url_safe(#[trigger] tail[i])
            }
        },
        id matches Err(reason) ==> reason@ == "Prefix must be alphanumeric with underscores only"@,
{
    let is_uuid = match id_type {
        Some(name) => str_equals(name, "uuid"),
        None => false,
    };
    let drawn = if is_uuid {
        fresh_uuid_v4()
    } else {
        fresh_nanoid(16)
    };
    let id = prefix_identifier(prefix, id_type, drawn.as_str());
    proof {
        if id is Ok {
            let text = id->Ok_0@;
            assert(prefixed_id(prefix@, id_type.deep_view(), drawn@) == text);
            let tail = text.skip(prefix@.len() as int);
            assert(text.take(prefix@.len() as int) =~= prefix@);
            if is_uuid {
                first_digits_of_uuid(drawn@, '4');
                assert(tail =~= at_most(without_hyphens(drawn@), 12));
            } else {
                assert(tail =~= drawn@);
            }
        }
    }
    id
}

/// How many identifiers are made at once: as many as asked for, and at
/// most a hundred.
pub open spec fn bulk_count(count: u32) -> int {
    if count <= 100 {
        count as int
    } else {
        100
    }
}

/// What is known of the `i`-th of several identifiers made at once: a short
/// hash is the hash of the `i`-th entropy, a random identifier has the
/// length asked for, a prefixed one begins with its prefix, and every other
/// is a UUID.
pub open spec fn bulk_item_ok(
    generator: Seq<char>,
    prefix: Option<Seq<char>>,
    length: Option<usize>,
    entropy: Seq<char>,
    item: Seq<char>,
) -> bool {
    if generator == "uuid_v7"@ {
        is_uuid_text(item, '7')
    } else if generator == "nanoid"@ {
        &&& item.len() == (match length {
            Some(n) => n,
            None => 21,
        })
        &&& forall|i: int| 0 <= i < item.len() ==> is_url_safe(#[trigger] item[i])
    } else if generator == "short_hash"@ {
        item == short_hash(length, entropy)
    } else if generator == "prefixed"@ {
        let lead = match prefix {
            Some(p) => p,
            None => "id_"@,
        };
        &&& item.len() == lead.len() + 16
        &&& item.take(lead.len() as int) == lead
        &&& forall|i: int| lead.len() <= i < item.len() ==> is_url_safe(#[trigger] item[i])
    } else {
        is_uuid_text(item, '4')
    }
}

/// Several identifiers of one kind, one on a line. The kinds are `uuid` or
/// `uuid_v4`, `uuid_v7`, `nanoid`, `short_hash` and `prefixed`; any other
/// name gives random UUIDs. A short hash takes its entropy from the list,
/// one text for each identifier.
pub fn generate_bulk(
    generator: &str,
    count: u32,
    prefix: Option<&str>,
    length: Option<usize>,
    entropy: &Vec<String>,
) -> (out: Result<String, String>)
    requires
        generator@ == "nanoid"@ ==> (length matches Some(n) ==> 1 <= n <= usize::MAX / 8),
        generator@ == "short_hash"@ ==> entropy@.len() >= bulk_count(count),
    ensures
        out matches Ok(text) && exists|items: Seq<Seq<char>>|
            {
                &&& items.len() == bulk_count(count)
                &&& #[trigger] join(items, seq!['\n']) == text@
                &&& forall|i: int|
                    0 <= i < items.len() ==> bulk_item_ok(
                        generator@,
                        prefix.deep_view(),
                        length,
                        if i < entropy@.len() {
                            entropy@[i]@
                        } else {
                            Seq::empty()
                        },
                        #[trigger] items[i],
                    )
            },
{
    let wanted: usize = if count <= MAX_BULK {
        count as usize
    } else {
        100
    };
    let is_v7 = str_equals(generator, "uuid_v7");
    let is_nanoid = str_equals(generator, "nanoid");
    let is_short_hash = str_equals(generator, "short_hash");
    let is_prefixed = str_equals(generator, "prefixed");
    proof {
        reveal_strlit("uuid_v7");
        reveal_strlit("nanoid");
        reveal_strlit("short_hash");
        reveal_strlit("prefixed");
        assert("uuid_v7"@.len() == 7 && "nanoid"@.len() == 6 && "short_hash"@.len() == 10
            && "prefixed"@.len() == 8);
    }
    let mut items: Vec<Vec<char>> = Vec::new();
    let mut i: usize = 0;
    while i < wanted
        invariant
            i <= wanted,
            wanted == bulk_count(count),
            items@.len() == i,
            is_v7 == (generator@ == "uuid_v7"@),
            is_nanoid == (generator@ == "nanoid"@),
            is_short_hash == (generator@ == "short_hash"@),
            is_prefixed == (generator@ == "prefixed"@),
            is_nanoid ==> (length matches Some(n) ==> 1 <= n <= usize::MAX / 8),
            is_short_hash ==> entropy@.len() >= wanted,
            forall|k: int|
                0 <= k < i ==> bulk_item_ok(
                    generator@,
                    prefix.deep_view(),
                    length,
                    if k < entropy@.len() {
                        entropy@[k]@
                    } else {
                        Seq::empty()
                    },
                    #[trigger] rows(items@)[k],
                ),
        decreases wanted - i,
    {
        let item = if is_v7 {
            chars_of(fresh_uuid_v7().as_str())
        } else if is_nanoid {
            chars_of(generate_nanoid(length).as_str())
        } else if is_short_hash {
            chars_of(generate_short_hash(length, entropy[i].as_str()).as_str())
        } else if is_prefixed {
            let mut lead = match prefix {
                Some(p) => chars_of(p),
                None => chars_of("id_"),
            };
            let ghost before = lead@;
            let tail = chars_of(fresh_nanoid(16).as_str());
            append_chars(&mut lead, &tail);
            assert(lead@.take(before.len() as int) =~= before);
            assert forall|k: int| before.len() <= k < lead@.len() implies is_url_safe(
                #[trigger] lead@[k],
            ) by {
                assert(lead@[k] == tail@[k - before.len()]);
            }
            assert(before == (match prefix.deep_view() {
                Some(p) => p,
                None => "id_"@,
            }));
            lead
        } else {
            chars_of(fresh_uuid_v4().as_str())
        };
        proof {
            let known = if (i as int) < entropy@.len() {
                entropy@[i as int]@
            } else {
                Seq::empty()
            };
            if !is_v7 && !is_nanoid && is_short_hash {
                assert(item@ == short_hash(length, entropy@[i as int]@));
            }
            assert(bulk_item_ok(generator@, prefix.deep_view(), length, known, item@));
        }
        let ghost earlier = items@;
        let ghost added = item@;
        items.push(item);
        proof {
            assert forall|k: int| 0 <= k < i + 1 implies bulk_item_ok(
                generator@,
                prefix.deep_view(),
                length,
                if k < entropy@.len() {
                    entropy@[k]@
                } else {
                    Seq::empty()
                },
                #[trigger] rows(items@)[k],
            ) by {
                if k < i {
                    assert(rows(items@)[k] == rows(earlier)[k]);
                } else {
                    assert(rows(items@)[k] == added);
                }
            }
        }
        i += 1;
    }
    let mut line_feed: Vec<char> = Vec::new();
    line_feed.push('\n');
    assert(line_feed@ =~= seq!['\n']);
    let joined = string_of(&join_chars(&items, &line_feed));
    assert(join(rows(items@), seq!['\n']) == joined@);
    Ok(joined)
}

} // verus!

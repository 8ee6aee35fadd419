//! Encoding and decoding of text: HTML entities, base64, and percent
//! encoding.

use vstd::prelude::*;
use vstd::string::StringExecFns;
use vstd::utf8::{decode_utf8, encode_utf8, valid_utf8};
use crate::crypto::{base64_decode, base64_decode_standard, base64_encode, base64_encode_standard};
use crate::strings::{chars_of, string_of};
use crate::text::{append_chars, replace_chars, replaced, trim_chars, trimmed};

verus! {

/// Whether a byte stays as it is under percent encoding: an ASCII letter or
/// digit, or one of `-`, `.`, `_` and `~`.
pub open spec fn is_unreserved(byte: u8) -> bool {
    (0x30 <= byte <= 0x39) || (0x41 <= byte <= 0x5a) || (0x61 <= byte <= 0x7a) || byte == 0x2d
        || byte == 0x2e || byte == 0x5f || byte == 0x7e
}

/// The upper-case hexadecimal digit for a value below sixteen.
pub open spec fn hex_digit(value: int) -> char {
    if value < 10 {
        (0x30 + value) as char
    } else {
        (0x41 - 10 + value) as char
    }
}

/// The percent encoding of bytes: an unreserved byte as its character, any
/// other as `%` and its two hexadecimal digits.
pub open spec fn percent_encoded(bytes: Seq<u8>) -> Seq<char>
    decreases bytes.len(),
{
    if bytes.len() == 0 {
        Seq::empty()
    } else if is_unreserved(bytes[0]) {
        seq![bytes[0] as char] + percent_encoded(bytes.skip(1))
    } else {
        seq!['%', hex_digit(bytes[0] as int / 16), hex_digit(bytes[0] as int % 16)] + percent_encoded(
            bytes.skip(1),
        )
    }
}

/// The text that `urlencoding::decode` returns for `text`, or `None` where
/// what it decodes to is not UTF-8.
pub uninterp spec fn percent_decoded(text: Seq<char>) -> Option<Seq<char>>;

/// `urlencoding::encode`: every byte of the text's UTF-8 form is percent
/// encoded, except ASCII letters and digits and `-`, `.`, `_`, `~`.
#[verifier::external_body]
pub(crate) fn url_encode(text: &str) -> (encoded: String)
    ensures
        encoded@ == percent_encoded(encode_utf8(text@)),
{
    urlencoding::encode(text).into_owned()
}

/// `urlencoding::decode`. Nothing is claimed of the result beyond its name.
#[verifier::external_body]
pub(crate) fn url_decode(text: &str) -> (decoded: Result<String, String>)
    ensures
        match decoded {
            Ok(plain) => percent_decoded(text@) == Some(plain@),
            Err(_) => percent_decoded(text@) is None,
        },
{
    match urlencoding::decode(text) {
        Ok(plain) => Ok(plain.into_owned()),
        Err(e) => Err(e.to_string()),
    }
}

/// `String::from_utf8`: the text that the bytes encode, where they are
/// UTF-8.
#[verifier::external_body]
pub(crate) fn string_from_utf8(bytes: Vec<u8>) -> (text: Result<String, String>)
    ensures
        match text {
            Ok(plain) => valid_utf8(bytes@) && plain@ == decode_utf8(bytes@),
            Err(_) => !valid_utf8(bytes@),
        },
{
    String::from_utf8(bytes).map_err(|e| e.to_string())
}

/// The entity that stands for a character in HTML, or the character itself.
pub open spec fn html_entity(c: char) -> Seq<char> {
    if c == '&' {
        "&amp;"@
    } else if c == '<' {
        "&lt;"@
    } else if c == '>' {
        "&gt;"@
    } else if c == '"' {
        "&quot;"@
    } else if c == '\'' {
        "&#x27;"@
    } else {
        seq![c]
    }
}

/// A text with the five characters that HTML reserves written as entities.
pub open spec fn html_encoded(s: Seq<char>) -> Seq<char>
    decreases s.len(),
{
    if s.len() == 0 {
        Seq::empty()
    } else {
        html_encoded(s.drop_last()) + html_entity(s.last())
    }
}

/// A text with the common entities replaced by their characters: first
/// every `&amp;`, then in turn `&lt;`, `&gt;`, `&quot;`, the four ways of
/// writing an apostrophe and the two of a slash, and `&nbsp;`.
pub open spec fn html_decoded(s: Seq<char>) -> Seq<char> {
    let s1 = replaced(s, "&amp;"@, "&"@);
    let s2 = replaced(s1, "&lt;"@, "<"@);
    let s3 = replaced(s2, "&gt;"@, ">"@);
    let s4 = replaced(s3, "&quot;"@, "\""@);
    let s5 = replaced(s4, "&#x27;"@, "'"@);
    let s6 = replaced(s5, "&#39;"@, "'"@);
    let s7 = replaced(s6, "&apos;"@, "'"@);
    let s8 = replaced(s7, "&#x2F;"@, "/"@);
    let s9 = replaced(s8, "&#47;"@, "/"@);
    replaced(s9, "&nbsp;"@, " "@)
}

/// What decoding base64 into text comes to: the text that the bytes encode,
/// or the word for what went wrong.
pub open spec fn base64_text(text: Seq<char>) -> Option<Seq<char>> {
    match base64_decode(trimmed(text)) {
        Some(bytes) => if valid_utf8(bytes) {
            Some(decode_utf8(bytes))
        } else {
            None
        },
        None => None,
    }
}

fn entity_of(c: char) -> (entity: Vec<char>)
    ensures
        entity@ == html_entity(c),
{
    if c == '&' {
        chars_of("&amp;")
    } else if c == '<' {
        chars_of("&lt;")
    } else if c == '>' {
        chars_of("&gt;")
    } else if c == '"' {
        chars_of("&quot;")
    } else if c == '\'' {
        chars_of("&#x27;")
    } else {
        let mut entity: Vec<char> = Vec::new();
        entity.push(c);
        entity
    }
}

/// Writes the characters that HTML reserves as entities.
pub fn encode_html(text: &str) -> (encoded: String)
    ensures
        encoded@ == html_encoded(text@),
{
    let s = chars_of(text);
    let mut out: Vec<char> = Vec::new();
    let mut i: usize = 0;
    while i < s.len()
        invariant
            i <= s.len(),
            out@ == html_encoded(s@.take(i as int)),
        decreases s.len() - i,
    {
        proof {
            assert(s@.take(i + 1).drop_last() =~= s@.take(i as int));
            assert(s@.take(i + 1).last() == s@[i as int]);
        }
        let entity = entity_of(s[i]);
        append_chars(&mut out, &entity);
        i += 1;
    }
    assert(s@.take(s@.len() as int) =~= s@);
    string_of(&out)
}

fn replace_text(s: &Vec<char>, from: &str, to: &str) -> (out: Vec<char>)
    ensures
        out@ == replaced(s@, from@, to@),
{
    replace_chars(s, &chars_of(from), &chars_of(to))
}

/// Replaces the common HTML entities by their characters.
pub fn decode_html(text: &str) -> (decoded: String)
    ensures
        decoded@ == html_decoded(text@),
{
    let s = chars_of(text);
    let s1 = replace_text(&s, "&amp;", "&");
    let s2 = replace_text(&s1, "&lt;", "<");
    let s3 = replace_text(&s2, "&gt;", ">");
    let s4 = replace_text(&s3, "&quot;", "\"");
    let s5 = replace_text(&s4, "&#x27;", "'");
    let s6 = replace_text(&s5, "&#39;", "'");
    let s7 = replace_text(&s6, "&apos;", "'");
    let s8 = replace_text(&s7, "&#x2F;", "/");
    let s9 = replace_text(&s8, "&#47;", "/");
    let s10 = replace_text(&s9, "&nbsp;", " ");
    string_of(&s10)
}

/// The base64 text of the UTF-8 form of `text`.
pub fn encode_base64(text: &str) -> (encoded: String)
    ensures
        encoded@ == base64_encode(encode_utf8(text@)),
{
    base64_encode_standard(text.as_bytes())
}

/// The text that base64 stands for, whitespace around the base64 being
/// passed over.
pub fn decode_base64(text: &str) -> (decoded: Result<String, String>)
    ensures
        match decoded {
            Ok(plain) => base64_text(text@) == Some(plain@),
            Err(_) => base64_text(text@) is None,
        },
{
    let kept = string_of(&trim_chars(&chars_of(text)));
    let bytes = match base64_decode_standard(kept.as_str()) {
        Ok(bytes) => bytes,
        Err(reason) => {
            return Err(String::from_str("Invalid Base64: ").concat(reason.as_str()));
        },
    };
    match string_from_utf8(bytes) {
        Ok(plain) => Ok(plain),
        Err(reason) => Err(
            String::from_str("Invalid UTF-8 in decoded data: ").concat(reason.as_str()),
        ),
    }
}

/// The percent encoding of `text`.
pub fn encode_url(text: &str) -> (encoded: String)
    ensures
        encoded@ == percent_encoded(encode_utf8(text@)),
{
    url_encode(text)
}

/// The text that a percent encoding stands for.
pub fn decode_url(text: &str) -> (decoded: Result<String, String>)
    ensures
        match decoded {
            Ok(plain) => percent_decoded(text@) == Some(plain@),
            Err(_) => percent_decoded(text@) is None,
        },
{
    match url_decode(text) {
        Ok(plain) => Ok(plain),
        Err(reason) => Err(String::from_str("Invalid URL encoding: ").concat(reason.as_str())),
    }
}

} // verus!

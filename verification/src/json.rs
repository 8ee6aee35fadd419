//! Flat JSON objects whose members are strings or null, written and read
//! with `serde_json`.

use vstd::prelude::*;

verus! {

/// What a key stands for in a JSON text, as far as this library cares.
#[derive(Debug, Clone)]
pub enum JsonMember {
    /// The text is not an object, or the object has no such key.
    Missing,
    /// The key is there with the value `null`.
    Null,
    /// The key is there with a string.
    Text(String),
    /// The key is there with a value of another kind.
    Other,
}

/// The mathematical content of a [`JsonMember`].
pub enum JsonMemberView {
    Missing,
    Null,
    Text(Seq<char>),
    Other,
}

impl DeepView for JsonMember {
    type V = JsonMemberView;

    open spec fn deep_view(&self) -> JsonMemberView {
        match self {
            JsonMember::Missing => JsonMemberView::Missing,
            JsonMember::Null => JsonMemberView::Null,
            JsonMember::Text(t) => JsonMemberView::Text(t@),
            JsonMember::Other => JsonMemberView::Other,
        }
    }
}

/// The JSON text that `serde_json::to_vec` writes for the object with the
/// given members (`None` standing for `null`).
pub uninterp spec fn json_object_bytes(members: Seq<(Seq<char>, Option<Seq<char>>)>) -> Seq<u8>;

/// What each of `keys` stands for in the JSON text `bytes`, or `None` where
/// `serde_json::from_slice` does not accept the text.
pub uninterp spec fn json_members(bytes: Seq<u8>, keys: Seq<Seq<char>>) -> Option<
    Seq<JsonMemberView>,
>;

/// No key occurs twice among the members.
pub open spec fn distinct_keys(members: Seq<(Seq<char>, Option<Seq<char>>)>) -> bool {
    forall|i: int, j: int|
        0 <= i < j < members.len() ==> (#[trigger] members[i]).0 != (#[trigger] members[j]).0
}

/// The JSON value that an optional string is written as.
pub open spec fn written_as(value: Option<Seq<char>>) -> JsonMemberView {
    match value {
        Some(text) => JsonMemberView::Text(text),
        None => JsonMemberView::Null,
    }
}

/// What `key` stands for in an object with the given members: the value of
/// the first member with that key.
pub open spec fn member_at(members: Seq<(Seq<char>, Option<Seq<char>>)>, key: Seq<char>)
    -> JsonMemberView
    decreases members.len(),
{
    if members.len() == 0 {
        JsonMemberView::Missing
    } else if members[0].0 == key {
        written_as(members[0].1)
    } else {
        member_at(members.drop_first(), key)
    }
}

/// Among members with distinct keys, each key stands for its own member.
pub proof fn member_at_own_key(members: Seq<(Seq<char>, Option<Seq<char>>)>, i: int)
    requires
        distinct_keys(members),
        0 <= i < members.len(),
    ensures
        member_at(members, members[i].0) == written_as(members[i].1),
    decreases i,
{
    if i > 0 {
        let rest = members.drop_first();
        assert(members[0].0 != members[i].0);
        assert forall|a: int, b: int| 0 <= a < b < rest.len() implies (#[trigger] rest[a]).0 != (
        #[trigger] rest[b]).0 by {
            assert(rest[a] == members[a + 1]);
            assert(rest[b] == members[b + 1]);
        }
        assert(rest[i - 1] == members[i]);
        member_at_own_key(rest, i - 1);
    }
}

/// Builds a `serde_json::Map` of the members and writes it with
/// `serde_json::to_vec`. Writing strings and `null` under string keys into a
/// vector has nothing that can fail, so the text always comes back. Where no
/// key occurs twice, reading any keys back from the text finds each member
/// as it was written and no others.
#[verifier::external_body]
pub(crate) fn write_object(members: &Vec<(String, Option<String>)>) -> (text: Result<
    Vec<u8>,
    String,
>)
    ensures
        text is Ok,
        text matches Ok(bytes) ==> {
            &&& bytes@ == json_object_bytes(members.deep_view())
            &&& distinct_keys(members.deep_view()) ==> forall|keys: Seq<Seq<char>>| #[trigger]
                json_members(bytes@, keys) == Some(
                    Seq::new(keys.len(), |i: int| member_at(members.deep_view(), keys[i])),
                )
        },
{
    let object: serde_json::Map<String, serde_json::Value> = members.iter().map(
        |(key, value)| (key.clone(), serde_json::Value::from(value.clone())),
    ).collect();
    serde_json::to_vec(&serde_json::Value::Object(object)).map_err(|e| e.to_string())
}

/// Parses the text with `serde_json::from_slice` and looks each key up with
/// `Value::get`. Where the text is accepted, one answer per key comes back.
#[verifier::external_body]
pub(crate) fn read_members(bytes: &[u8], keys: &Vec<String>) -> (found: Result<
    Vec<JsonMember>,
    String,
>)
    ensures
        match found {
            Ok(members) => {
                &&& json_members(bytes@, keys.deep_view()) == Some(members.deep_view())
                &&& members@.len() == keys@.len()
            },
            Err(_) => json_members(bytes@, keys.deep_view()) is None,
        },
{
    let value: serde_json::Value = serde_json::from_slice(bytes).map_err(|e| e.to_string())?;
    Ok(keys.iter().map(|key| match value.get(key.as_str()) {
        None => JsonMember::Missing,
        Some(serde_json::Value::Null) => JsonMember::Null,
        Some(serde_json::Value::String(text)) => JsonMember::Text(text.clone()),
        Some(_) => JsonMember::Other,
    }).collect())
}

/// The JSON text on one line that `serde_json::to_string` writes for what
/// `serde_json::from_str` reads from `text`, or `None` where the text is not
/// JSON.
pub uninterp spec fn json_compact_text(text: Seq<char>) -> Option<Seq<char>>;

/// The indented JSON text that `serde_json::to_string_pretty` writes for
/// what `serde_json::from_str` reads from `text`, or `None` where the text
/// is not JSON.
pub uninterp spec fn json_pretty_text(text: Seq<char>) -> Option<Seq<char>>;

/// Why rewriting a JSON text failed.
#[derive(Debug, Clone)]
pub enum JsonFailure {
    /// The text is not JSON.
    Read(String),
    /// The value could not be written.
    Write(String),
}

/// Reads the text with `serde_json::from_str` and writes the value with
/// `serde_json::to_string`.
#[verifier::external_body]
pub(crate) fn rewrite_compact(text: &str) -> (written: Result<String, JsonFailure>)
    ensures
        match written {
            Ok(out) => json_compact_text(text@) == Some(out@),
            Err(_) => json_compact_text(text@) is None,
        },
{
    let value: serde_json::Value = match serde_json::from_str(text) {
        Ok(value) => value,
        Err(e) => return Err(JsonFailure::Read(e.to_string())),
    };
    serde_json::to_string(&value).map_err(|e| JsonFailure::Write(e.to_string()))
}

/// Reads the text with `serde_json::from_str` and writes the value with
/// `serde_json::to_string_pretty`.
#[verifier::external_body]
pub(crate) fn rewrite_pretty(text: &str) -> (written: Result<String, JsonFailure>)
    ensures
        match written {
            Ok(out) => json_pretty_text(text@) == Some(out@),
            Err(_) => json_pretty_text(text@) is None,
        },
{
    let value: serde_json::Value = match serde_json::from_str(text) {
        Ok(value) => value,
        Err(e) => return Err(JsonFailure::Read(e.to_string())),
    };
    serde_json::to_string_pretty(&value).map_err(|e| JsonFailure::Write(e.to_string()))
}

} // verus!

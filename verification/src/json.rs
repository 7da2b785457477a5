//! JSON documents as plain values, and the lookups made in them.
//!
//! The `serde_json` crate reads the text; its document is then held as a
//! [`JsonValue`], on which the lookups of this library are verified.
use vstd::prelude::*;

verus! {

/// The error with which `serde_json` refuses a text.
#[verifier::external_type_specification]
#[verifier::external_body]
pub struct ExJsonError(serde_json::Error);

/// A document as `serde_json` holds it.
#[verifier::external_type_specification]
#[verifier::external_body]
pub struct ExJsonDocument(serde_json::Value);

/// A JSON value. A number is held as its text; the members of an object are
/// held in the order in which `serde_json` hands them out.
#[derive(Debug)]
pub enum JsonValue {
    Null,
    Bool(bool),
    Number(String),
    String(String),
    Array(Vec<JsonValue>),
    Object(Vec<(String, JsonValue)>),
}

/// The document that `serde_json` reads from `text`, or `None` where it
/// refuses the text.
pub uninterp spec fn json_document(text: Seq<char>) -> Option<JsonValue>;

/// The JSON value that the `serde_json` document `raw` holds.
pub uninterp spec fn json_content(raw: serde_json::Value) -> JsonValue;

/// Calls `serde_json::from_str` for a `serde_json::Value`. The document
/// returned, or the refusal, depends on `text` alone.
#[verifier::external_body]
fn json_from_str(text: &str) -> (r: Result<serde_json::Value, serde_json::Error>)
    ensures
        match r {
            Ok(raw) => json_document(text@) == Some(json_content(raw)),
            Err(_) => json_document(text@) is None,
        },
{
    serde_json::from_str::<serde_json::Value>(text)
}

/// Copies a `serde_json::Value` into a [`JsonValue`], variant by variant; a
/// number through `serde_json::Number`'s `to_string`.
#[verifier::external_body]
fn json_value_of(raw: &serde_json::Value) -> (v: JsonValue)
    ensures
        v == json_content(*raw),
{
    match raw {
        serde_json::Value::Null => JsonValue::Null,
        serde_json::Value::Bool(b) => JsonValue::Bool(*b),
        serde_json::Value::Number(n) => JsonValue::Number(n.to_string()),
        serde_json::Value::String(s) => JsonValue::String(s.clone()),
        serde_json::Value::Array(a) => JsonValue::Array(a.iter().map(json_value_of).collect()),
        serde_json::Value::Object(o) => JsonValue::Object(
            o.iter().map(|(k, v)| (k.clone(), json_value_of(v))).collect(),
        ),
    }
}

/// The value of the first of `members` whose key is `key`.
pub open spec fn member(members: Seq<(String, JsonValue)>, key: Seq<char>) -> Option<JsonValue>
    decreases members.len(),
{
    if members.len() == 0 {
        None
    } else if members[0].0@ == key {
        Some(members[0].1)
    } else {
        member(members.skip(1), key)
    }
}

/// The index of the first of `members` whose key is `key`, or their number
/// where there is none.
pub open spec fn member_index(members: Seq<(String, JsonValue)>, key: Seq<char>) -> int
    decreases members.len(),
{
    if members.len() == 0 || members[0].0@ == key {
        0
    } else {
        1 + member_index(members.skip(1), key)
    }
}

/// The member `key` of the object `v`; `None` where `v` is no object or has
/// no such member.
pub open spec fn get(v: JsonValue, key: Seq<char>) -> Option<JsonValue> {
    match v {
        JsonValue::Object(members) => member(members@, key),
        _ => None,
    }
}

/// The value reached from `v` by looking up each of `segments` in turn, or
/// the first segment that is not there.
pub open spec fn walk(v: JsonValue, segments: Seq<Seq<char>>) -> Result<JsonValue, Seq<char>>
    decreases segments.len(),
{
    if segments.len() == 0 {
        Ok(v)
    } else {
        match get(v, segments[0]) {
            None => Err(segments[0]),
            Some(next) => walk(next, segments.skip(1)),
        }
    }
}

/// Where the member `key` stands among `members`.
pub proof fn lemma_member_index(members: Seq<(String, JsonValue)>, key: Seq<char>)
    ensures
        0 <= member_index(members, key) <= members.len(),
        member_index(members, key) < members.len() ==> member(members, key) == Some(
            members[member_index(members, key)].1,
        ) && members[member_index(members, key)].0@ == key,
        member_index(members, key) == members.len() ==> member(members, key) is None,
        forall|j: int| 0 <= j < member_index(members, key) ==> (#[trigger] members[j]).0@ != key,
    decreases members.len(),
{
    if members.len() == 0 || members[0].0@ == key {
    } else {
        lemma_member_index(members.skip(1), key);
        assert forall|j: int| 0 <= j < member_index(members, key) implies (
        #[trigger] members[j]).0@ != key by {
            if j > 0 {
                assert(members[j] == members.skip(1)[j - 1]);
            }
        }
    }
}

/// The first index that holds `key`, with none before it, is the member index.
pub proof fn lemma_member_index_is(members: Seq<(String, JsonValue)>, key: Seq<char>, i: int)
    requires
        0 <= i <= members.len(),
        i < members.len() ==> members[i].0@ == key,
        forall|j: int| 0 <= j < i ==> (#[trigger] members[j]).0@ != key,
    ensures
        member_index(members, key) == i,
{
    lemma_member_index(members, key);
    let f = member_index(members, key);
    if f < i {
        assert(members[f].0@ == key);
    } else if i < f {
        assert(members[i].0@ == key);
    }
}

/// Reads `text` as a JSON document.
pub fn parse_json(text: &str) -> (r: Result<JsonValue, serde_json::Error>)
    ensures
        match r {
            Ok(doc) => json_document(text@) == Some(doc),
            Err(_) => json_document(text@) is None,
        },
{
    match json_from_str(text) {
        Ok(raw) => Ok(json_value_of(&raw)),
        Err(e) => Err(e),
    }
}

/// The index of the first of `members` whose key is `key`.
fn find_member(members: &Vec<(String, JsonValue)>, key: &str) -> (i: usize)
    ensures
        i == member_index(members@, key@),
        i <= members.len(),
{
    let wanted = key.to_owned();
    let mut i: usize = 0;
    while i < members.len()
        invariant
            i <= members.len(),
            wanted@ == key@,
            forall|j: int| 0 <= j < i ==> (#[trigger] members@[j]).0@ != key@,
        decreases members.len() - i,
    {
        if members[i].0 == wanted {
            proof {
                lemma_member_index_is(members@, key@, i as int);
            }
            return i;
        }
        i += 1;
    }
    proof {
        lemma_member_index_is(members@, key@, i as int);
    }
    i
}

impl JsonValue {
    /// The member `key` of this object.
    pub fn get(&self, key: &str) -> (r: Option<&JsonValue>)
        ensures
            match get(*self, key@) {
                Some(v) => r == Some(&v),
                None => r is None,
            },
    {
        match self {
            JsonValue::Object(members) => {
                let i = find_member(members, key);
                proof {
                    lemma_member_index(members@, key@);
                }
                if i < members.len() {
                    Some(&members[i].1)
                } else {
                    None
                }
            },
            _ => None,
        }
    }

    /// The member `key` of this object, taken out of it.
    pub fn take(self, key: &str) -> (r: Option<JsonValue>)
        ensures
            r == get(self, key@),
    {
        match self {
            JsonValue::Object(members) => {
                let mut members = members;
                let i = find_member(&members, key);
                proof {
                    lemma_member_index(members@, key@);
                }
                if i < members.len() {
                    let (_, value) = members.remove(i);
                    Some(value)
                } else {
                    None
                }
            },
            _ => None,
        }
    }

    /// The text of this value, where it is a string.
    pub fn as_str(&self) -> (r: Option<&str>)
        ensures
            match *self {
                JsonValue::String(s) => r matches Some(t) && t@ == s@,
                _ => r is None,
            },
    {
        match self {
            JsonValue::String(s) => Some(s.as_str()),
            _ => None,
        }
    }

    /// The items of this value, where it is an array.
    pub fn as_array(&self) -> (r: Option<&Vec<JsonValue>>)
        ensures
            match *self {
                JsonValue::Array(items) => r == Some(&items),
                _ => r is None,
            },
    {
        match self {
            JsonValue::Array(items) => Some(items),
            _ => None,
        }
    }
}

} // verus!

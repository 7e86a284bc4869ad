//! JSON documents, as the bytes they are written in.
//!
//! Reading and writing JSON is the work of `serde_json`; every function here
//! that calls it takes and returns plain values.

use serde_json::{Map as Fields, Value};
use vstd::prelude::*;

use crate::text;

verus! {

/// The bytes that were written, or why there are none.
pub open spec fn written(r: Result<Vec<u8>, String>) -> Result<Seq<u8>, Seq<char>> {
    match r {
        Ok(out) => Ok(out@),
        Err(e) => Err(e@),
    }
}

/// The string that stands under `key` at the top of the JSON document that
/// `serde_json::from_slice` reads in `bytes`, or what `serde_json` says where
/// `bytes` are no such document; within the first, nothing where it has no string
/// there.
pub uninterp spec fn json_string(bytes: Seq<u8>, key: Seq<char>) -> Result<
    Option<Seq<char>>,
    Seq<char>,
>;

/// Wraps `serde_json::from_slice` into a `Value`, with `Value::get` and
/// `Value::as_str` on it.
#[verifier::external_body]
pub(crate) fn read_json_string(bytes: &[u8], key: &str) -> (r: Result<Option<String>, String>)
    ensures
        match r {
            Ok(s) => json_string(bytes@, key@) == Ok::<Option<Seq<char>>, Seq<char>>(
                text::text_of(s),
            ),
            Err(e) => json_string(bytes@, key@) == Err::<Option<Seq<char>>, Seq<char>>(e@),
        },
{
    let value: Value = serde_json::from_slice(bytes).map_err(|e| e.to_string())?;
    Ok(value.get(key).and_then(|v| v.as_str()).map(|s| s.to_string()))
}

/// What becomes of the JSON object in `bytes` where `value` is put under `key`,
/// or what `serde_json` says where `bytes` are no JSON object.
pub uninterp spec fn json_with_text(
    bytes: Seq<u8>,
    key: Seq<char>,
    value: Seq<char>,
) -> Result<Seq<u8>, Seq<char>>;

/// Wraps `serde_json::from_slice` into a `Map`, `Map::insert` of a string, and
/// `serde_json::to_vec`. The string can be read under its key, and what could be
/// read under other keys can still be.
#[verifier::external_body]
pub(crate) fn set_json_text(bytes: &[u8], key: &str, value: &str) -> (r: Result<
    Vec<u8>,
    String,
>)
    ensures
        written(r) == json_with_text(bytes@, key@, value@),
        r matches Ok(out) ==> (json_string(out@, key@) matches Ok(found) && found == Some(value@)),
        r matches Ok(out) ==> forall|k: Seq<char>|
            k != key@ ==> #[trigger] json_string(out@, k) == json_string(bytes@, k),
{
    let mut fields: Fields<String, Value> =
        serde_json::from_slice(bytes).map_err(|e| e.to_string())?;
    fields.insert(key.to_string(), Value::from(value));
    serde_json::to_vec(&fields).map_err(|e| e.to_string())
}

/// What becomes of the JSON object in `bytes` where `value` is put under `key`,
/// or what `serde_json` says where `bytes` are no JSON object.
pub uninterp spec fn json_with_number(bytes: Seq<u8>, key: Seq<char>, value: i64) -> Result<
    Seq<u8>,
    Seq<char>,
>;

/// Wraps `serde_json::from_slice` into a `Map`, `Map::insert` of a number, and
/// `serde_json::to_vec`. What could be read under other keys can still be.
#[verifier::external_body]
pub(crate) fn set_json_number(bytes: &[u8], key: &str, value: i64) -> (r: Result<
    Vec<u8>,
    String,
>)
    ensures
        written(r) == json_with_number(bytes@, key@, value),
        r matches Ok(out) ==> forall|k: Seq<char>|
            k != key@ ==> #[trigger] json_string(out@, k) == json_string(bytes@, k),
{
    let mut fields: Fields<String, Value> =
        serde_json::from_slice(bytes).map_err(|e| e.to_string())?;
    fields.insert(key.to_string(), Value::from(value));
    serde_json::to_vec(&fields).map_err(|e| e.to_string())
}

/// The names and texts of a list of fields.
pub open spec fn field_views(fields: Seq<(String, String)>) -> Seq<(Seq<char>, Seq<char>)> {
    fields.map_values(|f: (String, String)| (f.0@, f.1@))
}

/// What becomes of the JSON object in `bytes` where an object with the strings
/// `fields` is put under `key`, or what `serde_json` says where `bytes` are no JSON
/// object.
pub uninterp spec fn json_with_texts(
    bytes: Seq<u8>,
    key: Seq<char>,
    fields: Seq<(Seq<char>, Seq<char>)>,
) -> Result<Seq<u8>, Seq<char>>;

/// Wraps `serde_json::from_slice` into a `Map`, `Map::insert` of a `Map` of
/// strings, and `serde_json::to_vec`. What could be read under other keys can
/// still be: the result is nested no deeper than `bytes`, or two levels, and so
/// can be read again.
#[verifier::external_body]
pub(crate) fn set_json_texts(bytes: &[u8], key: &str, fields: &Vec<(String, String)>) -> (r: Result<
    Vec<u8>,
    String,
>)
    ensures
        written(r) == json_with_texts(bytes@, key@, field_views(fields@)),
        r matches Ok(out) ==> forall|k: Seq<char>|
            k != key@ ==> #[trigger] json_string(out@, k) == json_string(bytes@, k),
{
    let mut outer: Fields<String, Value> =
        serde_json::from_slice(bytes).map_err(|e| e.to_string())?;
    let inner: Fields<String, Value> = fields
        .iter()
        .map(|(name, text)| (name.clone(), Value::from(text.as_str())))
        .collect();
    outer.insert(key.to_string(), Value::Object(inner));
    serde_json::to_vec(&outer).map_err(|e| e.to_string())
}

// --- laws -------------------------------------------------------------------

/// What was written, and the fields of a list, are taken as they stand.
pub proof fn what_was_written_is_taken_as_it_was(
    out: Vec<u8>,
    e: String,
    fields: Seq<(String, String)>,
    i: int,
)
    ensures
        written(Ok(out)) == Ok::<Seq<u8>, Seq<char>>(out@),
        written(Err(e)) == Err::<Seq<u8>, Seq<char>>(e@),
        field_views(fields).len() == fields.len(),
        0 <= i < fields.len() ==> field_views(fields)[i] == (fields[i].0@, fields[i].1@),
{
}

} // verus!

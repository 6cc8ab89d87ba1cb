//! Reading and writing one numeric field of one entry of a JSON settings
//! document, through `serde_json`.

use vstd::prelude::*;

verus! {

/// The unsigned integer that the JSON document `text` records under
/// `text[entry][field]`, if `text` is JSON and holds one there.
pub uninterp spec fn settings_value(text: Seq<char>, entry: Seq<char>, field: Seq<char>) -> Option<u64>;

/// The pretty-printed JSON document `text` with `text[entry]` set to
/// `{ field: value }`, if `text` is JSON (a document that is not an object is
/// printed back unchanged).
pub uninterp spec fn settings_with_value(
    text: Seq<char>,
    entry: Seq<char>,
    field: Seq<char>,
    value: u64,
) -> Option<Seq<char>>;

/// Whether the text `text` parses (`serde_json::from_str`) to a JSON object.
pub uninterp spec fn settings_is_object(text: Seq<char>) -> bool;

/// Parses `text` with `serde_json::from_str` into a `serde_json::Value`,
/// indexes it with `Value::get` by `entry` and then by `field`, and reads
/// the result with `Value::as_u64`. Claimed: the result is a function of the
/// three texts alone, named `settings_value`. Not stated: what the JSON
/// grammar accepts.
#[verifier::external_body]
pub(crate) fn read_settings_value(text: &str, entry: &str, field: &str) -> (r: Option<u64>)
    ensures
        r == settings_value(text@, entry@, field@),
{
    let document: serde_json::Value = serde_json::from_str(text).ok()?;
    document.get(entry)?.get(field)?.as_u64()
}

/// Parses `text` with `serde_json::from_str`; when the document is an
/// object (`Value::as_object_mut`), inserts under `entry` the object
/// `{ field: value }` (`serde_json::Map::insert`); prints the document with
/// `serde_json::to_string_pretty`. Claimed: the result is a function of the
/// arguments alone, named `settings_with_value`. When `text` parses to an
/// object (named `settings_is_object`; `{}` does), printing cannot fail, the
/// output is again an object, reading `entry`/`field` back from it gives
/// `value`, and every other entry reads back as it was (integers are printed
/// as integers, every other number with a `.` or an exponent, so `as_u64`
/// answers alike). When `text` parses to anything else, no entry is
/// inserted and, as such a document has no entries, every entry reads back
/// as it did (as nothing). Not stated: the printed layout, and what the JSON
/// grammar accepts.
#[verifier::external_body]
pub(crate) fn write_settings_value(text: &str, entry: &str, field: &str, value: u64) -> (r: Option<String>)
    ensures
        settings_with_value(text@, entry@, field@, value) == match r {
            Some(s) => Some(s@),
            None => None,
        },
        text@ == "{}"@ ==> r is Some,
        text@ == "{}"@ ==> settings_value(r->0@, entry@, field@) == Some(value),
        text@ == "{}"@ ==> settings_is_object(r->0@),
        settings_is_object(text@) ==> r is Some,
        settings_is_object(text@) ==> settings_is_object(r->0@),
        settings_is_object(text@) ==> settings_value(r->0@, entry@, field@) == Some(value),
        settings_is_object(text@) ==> forall|e: Seq<char>, f: Seq<char>|
            e != entry@ ==> #[trigger] settings_value(r->0@, e, f) == settings_value(text@, e, f),
        (r is Some && !settings_is_object(text@)) ==> forall|e: Seq<char>, f: Seq<char>|
            #[trigger] settings_value(r->0@, e, f) == settings_value(text@, e, f),
{
    let mut document: serde_json::Value = serde_json::from_str(text).ok()?;
    if let Some(entries) = document.as_object_mut() {
        let mut inner = serde_json::Map::new();
        inner.insert(field.to_string(), serde_json::Value::from(value));
        entries.insert(entry.to_string(), serde_json::Value::Object(inner));
    }
    serde_json::to_string_pretty(&document).ok()
}

/// The text that the JSON document `text` records under `text[entry]`, if
/// `text` is JSON and holds a string there.
pub uninterp spec fn settings_text(text: Seq<char>, entry: Seq<char>) -> Option<Seq<char>>;

/// Parses `text` with `serde_json::from_str` into a `serde_json::Value`,
/// indexes it with `Value::get` by `entry`, and reads the result with
/// `Value::as_str`. Claimed: the result is a function of the two texts
/// alone, named `settings_text`. Not stated: what the JSON grammar accepts.
#[verifier::external_body]
pub(crate) fn read_settings_text(text: &str, entry: &str) -> (r: Option<String>)
    ensures
        settings_text(text@, entry@) == match r {
            Some(s) => Some(s@),
            None => None,
        },
{
    let document: serde_json::Value = serde_json::from_str(text).ok()?;
    Some(document.get(entry)?.as_str()?.to_string())
}

} // verus!

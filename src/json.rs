//! The JSON texts that the webhook API exchanges.

use vstd::prelude::*;
use vstd::string::*;

verus! {

/// What serde_json writes for a JSON string holding `s`.
pub uninterp spec fn json_string_of(s: Seq<char>) -> Seq<char>;

/// The string field `key` of the JSON object in `text`, as serde_json reads
/// it; `None` where `text` is no JSON object or the field is absent or not a
/// string.
pub uninterp spec fn json_field_of(text: Seq<char>, key: Seq<char>) -> Option<Seq<char>>;

/// Relies on serde_json's `Display` for `Value::String`: the quoted and
/// escaped JSON form of the string, a function of its characters.
#[verifier::external_body]
fn json_string(s: &str) -> (r: String)
    ensures
        r@ == json_string_of(s@),
{
    serde_json::Value::String(s.to_owned()).to_string()
}

/// Relies on `serde_json::from_str::<Value>`, `Value::get` and
/// `Value::as_str`: parses `text` and reads the string field `key`.
#[verifier::external_body]
pub(crate) fn json_str_field(text: &str, key: &str) -> (r: Option<String>)
    ensures
        match r {
            Some(v) => json_field_of(text@, key@) == Some(v@),
            None => json_field_of(text@, key@) == None::<Seq<char>>,
        },
{
    let v: serde_json::Value = serde_json::from_str(text).ok()?;
    v.get(key)?.as_str().map(|f| f.to_owned())
}

/// The one-field JSON object `{"<key>":<encoded>}`.
pub open spec fn frame_of(key: Seq<char>, encoded: Seq<char>) -> Seq<char> {
    "{\""@ + key + "\":"@ + encoded + "}"@
}

/// The one-field JSON object that maps `key` to the JSON string of `value`.
pub open spec fn object_of(key: Seq<char>, value: Seq<char>) -> Seq<char> {
    frame_of(key, json_string_of(value))
}

/// Writes the one-field JSON object that maps `key` to the already encoded
/// JSON value `encoded`; `key` is written as it is, so it must need no escaping.
pub fn frame_object(key: &str, encoded: &str) -> (r: String)
    ensures
        r@ == frame_of(key@, encoded@),
{
    let mut r = String::from_str("{\"");
    r.append(key);
    r.append("\":");
    r.append(encoded);
    r.append("}");
    r
}

/// Writes the one-field JSON object that maps `key` to the string `value`.
pub fn object_with(key: &str, value: &str) -> (r: String)
    ensures
        r@ == object_of(key@, value@),
{
    let v = json_string(value);
    frame_object(key, v.as_str())
}

} // verus!

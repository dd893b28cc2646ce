use vstd::prelude::*;

verus! {

/// The string value of field `name` of the JSON object written in `s`;
/// nothing when `s` is not a JSON object or the field is not a string.
pub uninterp spec fn json_string_field_of(s: Seq<char>, name: Seq<char>) -> Option<Seq<char>>;

/// The boolean value of field `name`, by the same rule.
pub uninterp spec fn json_bool_field_of(s: Seq<char>, name: Seq<char>) -> Option<bool>;

/// The value of field `name` when it is a whole number that fits a `u64`.
pub uninterp spec fn json_u64_field_of(s: Seq<char>, name: Seq<char>) -> Option<u64>;

/// The elements of field `name` when it is an array of strings.
pub uninterp spec fn json_string_array_field_of(
    s: Seq<char>,
    name: Seq<char>,
) -> Option<Seq<Seq<char>>>;

/// Field `name` written back out as JSON text, when it is an object.
pub uninterp spec fn json_object_field_of(s: Seq<char>, name: Seq<char>) -> Option<Seq<char>>;

/// The elements of field `name` written back out as JSON texts, when it is
/// an array.
pub uninterp spec fn json_array_field_of(s: Seq<char>, name: Seq<char>) -> Option<Seq<Seq<char>>>;

/// Relies on serde_json::from_str and Value::as_str: whether the text is a
/// JSON object whose field `name` holds a string, and that string, are
/// functions of the two arguments alone.
#[verifier::external_body]
pub(crate) fn json_string_field(s: &str, name: &str) -> (r: Option<String>)
    ensures
        r.deep_view() == json_string_field_of(s@, name@),
{
    let v: serde_json::Value = serde_json::from_str(s).ok()?;
    Some(v.get(name)?.as_str()?.to_string())
}

/// Relies on serde_json::from_str and Value::as_bool, as the string reader
/// above does.
#[verifier::external_body]
pub(crate) fn json_bool_field(s: &str, name: &str) -> (r: Option<bool>)
    ensures
        r == json_bool_field_of(s@, name@),
{
    let v: serde_json::Value = serde_json::from_str(s).ok()?;
    v.get(name)?.as_bool()
}

/// Relies on serde_json::from_str and Value::as_u64, as the string reader
/// above does.
#[verifier::external_body]
pub(crate) fn json_u64_field(s: &str, name: &str) -> (r: Option<u64>)
    ensures
        r == json_u64_field_of(s@, name@),
{
    let v: serde_json::Value = serde_json::from_str(s).ok()?;
    v.get(name)?.as_u64()
}

/// Relies on serde_json::from_str, Value::as_array and Value::as_str: the
/// strings of an all-string array field, in order.
#[verifier::external_body]
pub(crate) fn json_string_array_field(s: &str, name: &str) -> (r: Option<Vec<String>>)
    ensures
        r.deep_view() == json_string_array_field_of(s@, name@),
{
    let v: serde_json::Value = serde_json::from_str(s).ok()?;
    let a = v.get(name)?.as_array()?;
    let mut out: Vec<String> = Vec::with_capacity(a.len());
    for e in a {
        out.push(e.as_str()?.to_string());
    }
    Some(out)
}

/// Relies on serde_json::from_str, Value::as_object and serde_json::to_string:
/// an object field written back out as JSON text; deterministic, since the
/// object's entries are kept sorted by key.
#[verifier::external_body]
pub(crate) fn json_object_field(s: &str, name: &str) -> (r: Option<String>)
    ensures
        r.deep_view() == json_object_field_of(s@, name@),
{
    let v: serde_json::Value = serde_json::from_str(s).ok()?;
    let o = v.get(name)?.as_object()?;
    serde_json::to_string(o).ok()
}

/// Relies on serde_json::from_str, Value::as_array and serde_json::to_string:
/// each element of an array field written back out as JSON text.
#[verifier::external_body]
pub(crate) fn json_array_field(s: &str, name: &str) -> (r: Option<Vec<String>>)
    ensures
        r.deep_view() == json_array_field_of(s@, name@),
{
    let v: serde_json::Value = serde_json::from_str(s).ok()?;
    let a = v.get(name)?.as_array()?;
    let mut out: Vec<String> = Vec::with_capacity(a.len());
    for e in a {
        out.push(serde_json::to_string(e).ok()?);
    }
    Some(out)
}

} // verus!

use vstd::prelude::*;
use crate::handle::GenerateRequest;
use crate::strutil::{opt_string_view, str_to_string};

verus! {

/// Which texts `serde_json::from_str::<Value>` accepts: a function of the
/// text alone (a parse of one complete JSON document).
pub uninterp spec fn json_accepts(s: Seq<char>) -> bool;

/// Whether the document `s` is an object with a member named `key` (false
/// when `s` is not a JSON document): what `from_str::<Value>` followed by
/// `Value::get` finds, a function of the text alone.
pub uninterp spec fn json_field_present(s: Seq<char>, key: Seq<char>) -> bool;

/// Whether the member named `key` of document `s` is `null` (false when
/// there is no such member).
pub uninterp spec fn json_field_null(s: Seq<char>, key: Seq<char>) -> bool;

/// The string content of the member named `key` of document `s`, or `None`
/// when there is no such member or it is not a JSON string.
pub uninterp spec fn json_str_field(s: Seq<char>, key: Seq<char>) -> Option<Seq<char>>;

/// The value of the member named `key` of document `s` as an unsigned
/// 64-bit integer, or `None` when there is no such member or it is not such
/// an integer.
pub uninterp spec fn json_u64_field(s: Seq<char>, key: Seq<char>) -> Option<u64>;

/// The numeric value of the member named `key` of document `s`, rendered
/// back to decimal text, or `None` when there is no such member or it is
/// not a JSON number. The rendering is the shortest text that round-trips
/// the parsed value, not necessarily the spelling the document used.
pub uninterp spec fn json_number_field(s: Seq<char>, key: Seq<char>) -> Option<Seq<char>>;

/// Relies on `serde_json::from_str::<Value>`: parses one JSON document from
/// the text; which texts parse depends on the text alone. The error case
/// carries serde_json's own message.
#[verifier::external_body]
fn check_json(s: &str) -> (r: Result<(), String>)
    ensures
        (r is Ok) == json_accepts(s@),
{
    match serde_json::from_str::<serde_json::Value>(s) {
        Ok(_) => Ok(()),
        Err(e) => Err(e.to_string()),
    }
}

/// Relies on `serde_json::from_str::<Value>` and `Value::get`: whether the
/// document has the member.
#[verifier::external_body]
fn get_field_present(s: &str, key: &str) -> (r: bool)
    ensures
        r == json_field_present(s@, key@),
{
    match serde_json::from_str::<serde_json::Value>(s) {
        Ok(v) => v.get(key).is_some(),
        Err(_) => false,
    }
}

/// Relies on `serde_json::from_str::<Value>`, `Value::get` and
/// `Value::is_null`: whether the member is `null`.
#[verifier::external_body]
fn get_field_null(s: &str, key: &str) -> (r: bool)
    ensures
        r == json_field_null(s@, key@),
{
    match serde_json::from_str::<serde_json::Value>(s) {
        Ok(v) => v.get(key).is_some_and(|f| f.is_null()),
        Err(_) => false,
    }
}

/// Relies on `serde_json::from_str::<Value>`, `Value::get` and
/// `Value::as_str`: the member's string content.
#[verifier::external_body]
fn get_str_field(s: &str, key: &str) -> (r: Option<String>)
    ensures
        opt_string_view(r) == json_str_field(s@, key@),
{
    match serde_json::from_str::<serde_json::Value>(s) {
        Ok(v) => v.get(key).and_then(|f| f.as_str().map(|t| t.to_string())),
        Err(_) => None,
    }
}

/// Relies on `serde_json::from_str::<Value>`, `Value::get` and
/// `Value::as_u64`: the member as an unsigned integer.
#[verifier::external_body]
fn get_u64_field(s: &str, key: &str) -> (r: Option<u64>)
    ensures
        r == json_u64_field(s@, key@),
{
    match serde_json::from_str::<serde_json::Value>(s) {
        Ok(v) => v.get(key).and_then(|f| f.as_u64()),
        Err(_) => None,
    }
}

/// Relies on `serde_json::from_str::<Value>`, `Value::get` and `Display`
/// for `serde_json::Number` (one arm per `Value` variant): the member's
/// numeric value as decimal text.
#[verifier::external_body]
fn get_number_field(s: &str, key: &str) -> (r: Option<String>)
    ensures
        opt_string_view(r) == json_number_field(s@, key@),
{
    match serde_json::from_str::<serde_json::Value>(s) {
        Ok(v) => v.get(key).and_then(|f| match f {
            serde_json::Value::Number(n) => Some(n.to_string()),
            _ => None,
        }),
        Err(_) => None,
    }
}

/// Whether the generation payload decodes: a JSON document whose
/// `model_path` and `prompt` members are present strings, and whose
/// `max_tokens` and `temperature` members, where present and not null, are
/// an unsigned integer and a number.
pub open spec fn spec_decode_ok(s: Seq<char>) -> bool {
    &&& json_accepts(s)
    &&& json_field_present(s, "model_path"@) && json_str_field(s, "model_path"@) is Some
    &&& json_field_present(s, "prompt"@) && json_str_field(s, "prompt"@) is Some
    &&& (!json_field_present(s, "max_tokens"@) || json_field_null(s, "max_tokens"@)
        || json_u64_field(s, "max_tokens"@) is Some)
    &&& (!json_field_present(s, "temperature"@) || json_field_null(s, "temperature"@)
        || json_number_field(s, "temperature"@) is Some)
}

/// The decoded token cap: absent or null means the engine's default.
pub open spec fn spec_decoded_max_tokens(s: Seq<char>) -> Option<u64> {
    if !json_field_present(s, "max_tokens"@) || json_field_null(s, "max_tokens"@) {
        None
    } else {
        json_u64_field(s, "max_tokens"@)
    }
}

/// The decoded temperature text: absent or null means the engine's default.
pub open spec fn spec_decoded_temperature(s: Seq<char>) -> Option<Seq<char>> {
    if !json_field_present(s, "temperature"@) || json_field_null(s, "temperature"@) {
        None
    } else {
        json_number_field(s, "temperature"@)
    }
}

/// The message for a JSON document whose fields do not decode, named for
/// the first failing field in declaration order.
pub open spec fn spec_decode_error(s: Seq<char>) -> Seq<char>
    recommends
        json_accepts(s),
        !spec_decode_ok(s),
{
    if !json_field_present(s, "model_path"@) {
        "missing field `model_path`"@
    } else if json_str_field(s, "model_path"@) is None {
        "invalid field `model_path`: expected a string"@
    } else if !json_field_present(s, "prompt"@) {
        "missing field `prompt`"@
    } else if json_str_field(s, "prompt"@) is None {
        "invalid field `prompt`: expected a string"@
    } else if json_field_present(s, "max_tokens"@) && !json_field_null(s, "max_tokens"@)
        && json_u64_field(s, "max_tokens"@) is None {
        "invalid field `max_tokens`: expected an unsigned integer"@
    } else {
        "invalid field `temperature`: expected a number"@
    }
}

/// Decodes the structured generation payload `{model_path, prompt,
/// max_tokens?, temperature?}`: the two string fields are required, the two
/// options may be absent or null. A text that is not a JSON document fails
/// with serde_json's parse message; a missing or mistyped field with the
/// message naming it. On success the decoded values are exactly the
/// document's members.
pub fn decode_generate_args(args: &str) -> (r: Result<(String, GenerateRequest), String>)
    ensures
        (r is Ok) == spec_decode_ok(args@),
        r matches Ok(d) ==> {
            &&& Some(d.0@) == json_str_field(args@, "model_path"@)
            &&& Some(d.1.prompt@) == json_str_field(args@, "prompt"@)
            &&& d.1.max_tokens == spec_decoded_max_tokens(args@)
            &&& opt_string_view(d.1.temperature) == spec_decoded_temperature(args@)
        },
        r matches Err(m) ==> (json_accepts(args@) ==> m@ == spec_decode_error(args@)),
{
    if let Err(e) = check_json(args) {
        return Err(e);
    }
    let model_path = if !get_field_present(args, "model_path") {
        return Err(str_to_string("missing field `model_path`"));
    } else {
        match get_str_field(args, "model_path") {
            Some(s) => s,
            None => {
                return Err(str_to_string("invalid field `model_path`: expected a string"));
            },
        }
    };
    let prompt = if !get_field_present(args, "prompt") {
        return Err(str_to_string("missing field `prompt`"));
    } else {
        match get_str_field(args, "prompt") {
            Some(s) => s,
            None => {
                return Err(str_to_string("invalid field `prompt`: expected a string"));
            },
        }
    };
    let max_tokens = if !get_field_present(args, "max_tokens") || get_field_null(args, "max_tokens")
    {
        None
    } else {
        match get_u64_field(args, "max_tokens") {
            Some(n) => Some(n),
            None => {
                return Err(str_to_string("invalid field `max_tokens`: expected an unsigned integer"));
            },
        }
    };
    let temperature = if !get_field_present(args, "temperature") || get_field_null(
        args,
        "temperature",
    ) {
        None
    } else {
        match get_number_field(args, "temperature") {
            Some(t) => Some(t),
            None => {
                return Err(str_to_string("invalid field `temperature`: expected a number"));
            },
        }
    };
    Ok((model_path, GenerateRequest { prompt, max_tokens, temperature }))
}

} // verus!

use vstd::prelude::*;

verus! {

#[verifier::external_type_specification]
#[verifier::external_body]
pub struct ExJsonValue(serde_json::Value);

#[verifier::external_type_specification]
#[verifier::external_body]
pub struct ExJsonError(serde_json::Error);

/// Whether serde_json reads the text as one JSON value (within its nesting limit of 128
/// levels and the range of its numbers).
pub uninterp spec fn parses_as_json(text: Seq<char>) -> bool;

/// For a text that parses, whether the value that a JSON pointer leads to is `null`;
/// `None` where the pointer leads nowhere.
pub uninterp spec fn json_null_at(text: Seq<char>, pointer: Seq<char>) -> Option<bool>;

/// The integer that a JSON pointer leads to in the text; `None` where the text does not
/// parse, the pointer leads nowhere, or the value there is not an integer that fits `i64`.
pub uninterp spec fn json_i64_at(text: Seq<char>, pointer: Seq<char>) -> Option<i64>;

/// The string that a JSON pointer leads to in the text; `None` where the text does not
/// parse, the pointer leads nowhere, or the value there is not a string.
pub uninterp spec fn json_str_at(text: Seq<char>, pointer: Seq<char>) -> Option<Seq<char>>;

/// Relies on serde_json::from_str into a `Value`: whether it succeeds depends on the text
/// alone.
#[verifier::external_body]
fn parse_json(text: &str) -> (r: Result<serde_json::Value, serde_json::Error>)
    ensures
        r is Ok == parses_as_json(text@),
{
    serde_json::from_str(text)
}

/// Relies on serde_json::from_str, Value::pointer and Value::is_null: parses the text,
/// follows the pointer and tells whether the value found is `null`.
#[verifier::external_body]
fn null_at(text: &str, pointer: &str) -> (r: Result<Option<bool>, ()>)
    ensures
        r is Ok == parses_as_json(text@),
        r matches Ok(x) ==> x == json_null_at(text@, pointer@),
{
    match serde_json::from_str::<serde_json::Value>(text) {
        Ok(v) => Ok(match v.pointer(pointer) {
            Some(x) => Some(x.is_null()),
            None => None,
        }),
        Err(_) => Err(()),
    }
}

/// Relies on serde_json::from_str, Value::pointer and Value::as_i64: the integer that the
/// pointer leads to, if the text parses.
#[verifier::external_body]
fn i64_at(text: &str, pointer: &str) -> (r: Option<i64>)
    ensures
        r == json_i64_at(text@, pointer@),
{
    match serde_json::from_str::<serde_json::Value>(text) {
        Ok(v) => match v.pointer(pointer) {
            Some(x) => x.as_i64(),
            None => None,
        },
        Err(_) => None,
    }
}

/// Relies on serde_json::from_str, Value::pointer and Value::as_str: the string that the
/// pointer leads to, if the text parses.
#[verifier::external_body]
fn str_at(text: &str, pointer: &str) -> (r: Option<String>)
    ensures
        match r {
            Some(s) => json_str_at(text@, pointer@) == Some(s@),
            None => json_str_at(text@, pointer@) is None,
        },
{
    match serde_json::from_str::<serde_json::Value>(text) {
        Ok(v) => match v.pointer(pointer) {
            Some(x) => match x.as_str() {
                Some(s) => Some(s.to_string()),
                None => None,
            },
            None => None,
        },
        Err(_) => None,
    }
}

/// Whether a text is one JSON value.
pub fn is_json(text: &str) -> (r: bool)
    ensures
        r == parses_as_json(text@),
{
    parse_json(text).is_ok()
}

/// A fetched body is a usable forecast: JSON whose current reading has a time that is
/// not `null`.
pub open spec fn usable_forecast(body: Seq<char>) -> bool {
    parses_as_json(body) && json_null_at(body, "/currently/time"@) == Some(false)
}

/// Whether a fetched body is a usable forecast.
pub fn has_current_time(body: &str) -> (r: bool)
    ensures
        r == usable_forecast(body@),
{
    match null_at(body, "/currently/time") {
        Ok(Some(is_null)) => !is_null,
        Ok(None) => false,
        Err(()) => false,
    }
}

/// The integer at a JSON pointer, or 0.
pub open spec fn int_or_zero(o: Option<i64>) -> i64 {
    match o {
        Some(n) => n,
        None => 0,
    }
}

/// The string at a JSON pointer, or the default `d`.
pub open spec fn text_or(o: Option<Seq<char>>, d: Seq<char>) -> Seq<char> {
    match o {
        Some(s) => s,
        None => d,
    }
}

/// The integer at `pointer` in the text, or 0 where there is none.
pub fn int_field(text: &str, pointer: &str) -> (r: i64)
    ensures
        r == int_or_zero(json_i64_at(text@, pointer@)),
{
    match i64_at(text, pointer) {
        Some(n) => n,
        None => 0,
    }
}

/// The string at `pointer` in the text, or `default` where there is none.
pub fn text_field(text: &str, pointer: &str, default: &str) -> (r: String)
    ensures
        r@ == text_or(json_str_at(text@, pointer@), default@),
{
    match str_at(text, pointer) {
        Some(s) => s,
        None => default.to_owned(),
    }
}

} // verus!

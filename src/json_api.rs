use vstd::prelude::*;

verus! {

/// A parsed JSON document of the `json` crate.
#[verifier::external_type_specification]
#[verifier::external_body]
pub struct ExJsonValue(json::JsonValue);

/// The error that `json::parse` reports.
#[verifier::external_type_specification]
#[verifier::external_body]
pub struct ExJsonError(json::Error);

/// The document that `json::parse` makes of a text, or `None` where it
/// reports an error.
pub uninterp spec fn json_parse(s: Seq<char>) -> Option<json::JsonValue>;

/// What indexing a value by a key gives (`null` where it is missing).
pub uninterp spec fn json_member(v: json::JsonValue, key: Seq<char>) -> json::JsonValue;

/// What indexing a value by a position gives (`null` where it is missing).
pub uninterp spec fn json_element(v: json::JsonValue, i: usize) -> json::JsonValue;

/// What `JsonValue::has_key` answers.
pub uninterp spec fn json_has_key(v: json::JsonValue, key: Seq<char>) -> bool;

/// What `JsonValue::is_array` answers.
pub uninterp spec fn json_is_array(v: json::JsonValue) -> bool;

/// What `JsonValue::len` answers.
pub uninterp spec fn json_len(v: json::JsonValue) -> usize;

/// The text that `JsonValue`'s `Display` writes.
pub uninterp spec fn json_text(v: json::JsonValue) -> Seq<char>;

/// The longest run of ASCII digits that `json::parse` is known to handle: a
/// fraction counts its digits down in an `i16` exponent, which overflows
/// past this many.
pub const DIGIT_RUN_LIMIT: usize = 32767;

/// An ASCII decimal digit.
pub open spec fn is_digit(c: char) -> bool {
    '0' <= c && c <= '9'
}

/// Every character of `s` in `[a, b)` is a digit.
pub open spec fn digits_between(s: Seq<char>, a: int, b: int) -> bool {
    forall|k: int| a <= k < b ==> is_digit(#[trigger] s[k])
}

/// `s` holds more than `DIGIT_RUN_LIMIT` digits in a row.
pub open spec fn has_long_digit_run(s: Seq<char>) -> bool {
    exists|i: int|
        0 <= i && i + DIGIT_RUN_LIMIT + 1 <= s.len() && #[trigger] digits_between(
            s,
            i,
            i + DIGIT_RUN_LIMIT + 1,
        )
}

/// Relies on `json::parse`: the result depends on the text alone. It is
/// kept from texts with a longer run of digits, where it may panic.
pub assume_specification[ json::parse ](source: &str) -> (r: Result<json::JsonValue, json::Error>)
    requires
        !has_long_digit_run(source@),
    ensures
        match r {
            Ok(v) => json_parse(source@) == Some(v),
            Err(_) => json_parse(source@) is None,
        },
;

/// Relies on `JsonValue::has_key`, to tell whether an object has a key.
pub assume_specification[ json::JsonValue::has_key ](v: &json::JsonValue, key: &str) -> (r: bool)
    ensures
        r == json_has_key(*v, key@),
;

/// Relies on `JsonValue::is_array`, to tell whether a value is an array.
pub assume_specification[ json::JsonValue::is_array ](v: &json::JsonValue) -> (r: bool)
    ensures
        r == json_is_array(*v),
;

/// Relies on `JsonValue::len`, for the number of members of an array.
pub assume_specification[ json::JsonValue::len ](v: &json::JsonValue) -> (r: usize)
    ensures
        r == json_len(*v),
;

/// Relies on `Index<&str>` for `JsonValue`.
#[verifier::external_body]
pub(crate) fn member<'a>(v: &'a json::JsonValue, key: &str) -> (r: &'a json::JsonValue)
    ensures
        *r == json_member(*v, key@),
{
    &v[key]
}

/// Relies on `Index<usize>` for `JsonValue`.
#[verifier::external_body]
pub(crate) fn element(v: &json::JsonValue, i: usize) -> (r: &json::JsonValue)
    ensures
        *r == json_element(*v, i),
{
    &v[i]
}

/// Relies on `Display` for `JsonValue`: a string is written bare, `null`
/// as `null`.
#[verifier::external_body]
pub(crate) fn text_of(v: &json::JsonValue) -> (r: String)
    ensures
        r@ == json_text(*v),
{
    v.to_string()
}

} // verus!

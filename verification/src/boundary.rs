//! The calls that leave this crate. Verus takes the contracts in this file on
//! trust: each says of a function of the `url` or `serde_json` crate only
//! that its result is determined by its arguments.

use vstd::prelude::*;

verus! {

/// `url::ParseError`, the error of `url::Url::parse` and `url::Url::join`.
/// Nothing is read from it.
#[verifier::external_type_specification]
#[verifier::external_body]
pub struct ExUrlParseError(url::ParseError);

/// `serde_json::Error`, the error of `serde_json::to_string` and
/// `serde_json::from_str`. Nothing is read from it.
#[verifier::external_type_specification]
#[verifier::external_body]
pub struct ExJsonError(serde_json::Error);

/// The serialization of the URL that `url::Url::join` resolves `reference`
/// to against the URL that `url::Url::parse` reads from `base`; `None` where
/// either of the two refuses its input.
pub uninterp spec fn joined_url(base: Seq<char>, reference: Seq<char>) -> Option<Seq<char>>;

/// The JSON text that `serde_json::to_string` writes for the string `value`;
/// `None` where it reports an error.
pub uninterp spec fn json_of_string(value: Seq<char>) -> Option<Seq<char>>;

/// The string that `serde_json::from_str` reads from the JSON text `json`;
/// `None` where it reports an error.
pub uninterp spec fn string_of_json(json: Seq<char>) -> Option<Seq<char>>;

/// Calls `url::Url::parse` on `base` and `url::Url::join` on the outcome with
/// `reference`, and hands back the joined URL's serialization or the error of
/// whichever call failed. Trusted: the outcome is `joined_url` of the two
/// texts, so equal arguments give equal results.
#[verifier::external_body]
pub(crate) fn join_url(base: &str, reference: &str) -> (r: Result<String, url::ParseError>)
    ensures
        match r {
            Ok(s) => joined_url(base@, reference@) == Some(s@),
            Err(_) => joined_url(base@, reference@) is None,
        },
{
    match url::Url::parse(base) {
        Ok(parsed) => match parsed.join(reference) {
            Ok(joined) => Ok(String::from(joined)),
            Err(e) => Err(e),
        },
        Err(e) => Err(e),
    }
}

/// Calls `serde_json::to_string` on the string `value`. Trusted: the outcome
/// is `json_of_string` of `value`.
#[verifier::external_body]
pub(crate) fn json_encode_string(value: &str) -> (r: Result<String, serde_json::Error>)
    ensures
        match r {
            Ok(s) => json_of_string(value@) == Some(s@),
            Err(_) => json_of_string(value@) is None,
        },
{
    serde_json::to_string(value)
}

/// Calls `serde_json::from_str` to read one string from `json`. Trusted: the
/// outcome is `string_of_json` of `json`.
#[verifier::external_body]
pub(crate) fn json_decode_string(json: &str) -> (r: Result<String, serde_json::Error>)
    ensures
        match r {
            Ok(s) => string_of_json(json@) == Some(s@),
            Err(_) => string_of_json(json@) is None,
        },
{
    serde_json::from_str::<String>(json)
}

} // verus!

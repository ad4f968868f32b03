//! The upstream credential, read from the request headers.

use crate::error::{result_view, ApiError, ApiErrorView};
use axum::http::{HeaderMap, HeaderValue};
use vstd::prelude::*;
use vstd::string::StringExecFns;

verus! {

#[verifier::external_type_specification]
#[verifier::external_body]
pub struct ExHeaderValue(HeaderValue);

#[verifier::external_type_specification]
#[verifier::external_body]
#[verifier::reject_recursive_types(T)]
pub struct ExHeaderMap<T>(HeaderMap<T>);

/// What `HeaderMap::get` finds under `name`: the bytes of the first value
/// stored under that header, if there is one.
pub uninterp spec fn header_bytes(headers: HeaderMap, name: Seq<char>) -> Option<Seq<u8>>;

/// The bytes that a header value holds.
pub uninterp spec fn header_value_bytes(value: HeaderValue) -> Seq<u8>;

/// A byte that may stand in a header value read as text: printable ASCII or
/// a tab.
pub open spec fn is_visible_ascii(b: u8) -> bool {
    (32 <= b && b < 127) || b == 9
}

pub open spec fn all_visible_ascii(bytes: Seq<u8>) -> bool {
    forall|i: int| 0 <= i < bytes.len() ==> is_visible_ascii(#[trigger] bytes[i])
}

/// ASCII bytes as the characters they stand for.
pub open spec fn ascii_text(bytes: Seq<u8>) -> Seq<char> {
    Seq::new(bytes.len(), |i: int| bytes[i] as char)
}

/// The bytes of a header value as text, where they can be read as text.
pub open spec fn header_text(bytes: Seq<u8>) -> Option<Seq<char>> {
    if all_visible_ascii(bytes) {
        Some(ascii_text(bytes))
    } else {
        None
    }
}

/// Calls `HeaderMap::get` with the header's name as a string. The value
/// found holds the bytes that `header_bytes` names; where nothing is found,
/// `header_bytes` names nothing. A name that is no valid header name finds
/// nothing.
#[verifier::external_body]
fn lookup<'a>(headers: &'a HeaderMap, name: &str) -> (found: Option<&'a HeaderValue>)
    ensures
        found matches Some(value) ==> header_bytes(*headers, name@) == Some(
            header_value_bytes(*value),
        ),
        found is None ==> header_bytes(*headers, name@) is None,
{
    headers.get(name)
}

/// Calls `HeaderValue::to_str`, which succeeds exactly when every byte of the
/// value is printable ASCII or a tab, and then gives the bytes as text.
#[verifier::external_body]
fn value_text<'a>(value: &'a HeaderValue) -> (text: Option<&'a str>)
    ensures
        text is Some <==> all_visible_ascii(header_value_bytes(*value)),
        text matches Some(s) ==> s@ == ascii_text(header_value_bytes(*value)),
{
    match value.to_str() {
        Ok(s) => Some(s),
        Err(_) => None,
    }
}

/// The header that carries the credential.
pub const TOKEN_HEADER: &'static str = "X-OpenRouter-API-Token";

/// What is said of a credential that is no text.
pub open spec fn malformed_credential_text() -> Seq<char> {
    "Invalid DeepSeek API token"@
}

/// The credential, given what the headers hold under `TOKEN_HEADER`: `None`
/// where the header is absent, `Some(None)` where its value is no text.
pub open spec fn token_spec(found: Option<Option<Seq<char>>>) -> Result<Seq<char>, ApiErrorView> {
    match found {
        None => Err(ApiErrorView::MissingCredential { header: TOKEN_HEADER@ }),
        Some(None) => Err(ApiErrorView::MalformedCredential { message: malformed_credential_text() }),
        Some(Some(token)) => Ok(token),
    }
}

/// What `headers` hold under `TOKEN_HEADER`, in the form that `token_spec`
/// takes.
pub open spec fn credential_header(headers: HeaderMap) -> Option<Option<Seq<char>>> {
    match header_bytes(headers, TOKEN_HEADER@) {
        None => None,
        Some(bytes) => Some(header_text(bytes)),
    }
}

/// Decides on the credential from what was found under `TOKEN_HEADER`:
/// `None` where the header is absent, `Some(None)` where its value is no
/// text, else the text.
pub fn token_from_header(found: Option<Option<&str>>) -> (token: Result<String, ApiError>)
    ensures
        result_view(token) == token_spec(found.deep_view()),
{
    match found {
        None => Err(ApiError::MissingCredential { header: String::from_str(TOKEN_HEADER) }),
        Some(None) => Err(
            ApiError::MalformedCredential {
                message: String::from_str("Invalid DeepSeek API token"),
            },
        ),
        Some(Some(text)) => Ok(String::from_str(text)),
    }
}

/// Reads the credential from the request headers. A request without the
/// header is refused as `MissingCredential`; one whose header value holds a
/// byte that is neither printable ASCII nor a tab, as `MalformedCredential`.
pub fn extract_api_tokens(headers: &HeaderMap) -> (token: Result<String, ApiError>)
    ensures
        result_view(token) == token_spec(credential_header(*headers)),
{
    let found = match lookup(headers, TOKEN_HEADER) {
        None => None,
        Some(value) => Some(value_text(value)),
    };
    token_from_header(found)
}

} // verus!

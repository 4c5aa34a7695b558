//! Reads text out of the headers of an HTTP request.
use crate::text;
use hyper::header::{HeaderMap, HeaderValue, ToStrError};
use vstd::prelude::*;

verus! {

/// `HeaderMap` of the `http` crate, as `hyper` hands it out.
#[verifier::external_type_specification]
#[verifier::external_body]
#[verifier::reject_recursive_types(T)]
pub struct ExHeaderMap<T>(HeaderMap<T>);

/// `HeaderValue` of the `http` crate.
#[verifier::external_type_specification]
#[verifier::external_body]
pub struct ExHeaderValue(HeaderValue);

/// `ToStrError` of the `http` crate: a header value that is no text.
#[verifier::external_type_specification]
#[verifier::external_body]
pub struct ExToStrError(ToStrError);

/// The bytes of the first value of each header, by the header's name in lower case.
pub uninterp spec fn first_values(headers: HeaderMap<HeaderValue>) -> Map<Seq<char>, Seq<u8>>;

/// The bytes of a header value.
pub uninterp spec fn value_bytes(value: HeaderValue) -> Seq<u8>;

/// Looks a header up with `HeaderMap::get`: the first value under the name, whose letters
/// may be of either case.
#[verifier::external_body]
fn get_header<'a>(headers: &'a HeaderMap<HeaderValue>, name: &str) -> (value: Option<
    &'a HeaderValue,
>)
    ensures
        match value {
            Some(value) => {
                &&& first_values(*headers).dom().contains(text::ascii_lowercase(name@))
                &&& value_bytes(*value) == first_values(*headers)[text::ascii_lowercase(name@)]
            },
            None => !first_values(*headers).dom().contains(text::ascii_lowercase(name@)),
        },
{
    headers.get(name)
}

/// Whether a byte of a header value is text: a visible ASCII character, a space or a tab.
pub open spec fn is_header_text_byte(byte: u8) -> bool {
    32 <= byte < 127 || byte == 9
}

/// The text of a header value, where all its bytes are text.
pub open spec fn header_text(bytes: Seq<u8>) -> Option<Seq<char>> {
    if forall|i: int| 0 <= i < bytes.len() ==> is_header_text_byte(#[trigger] bytes[i]) {
        Some(bytes.map_values(|byte: u8| byte as char))
    } else {
        None
    }
}

/// Reads a header value with `HeaderValue::to_str`: its characters where each is a visible
/// ASCII character, a space or a tab, and an error otherwise.
#[verifier::external_body]
fn header_to_str(value: &HeaderValue) -> (text: Result<&str, ToStrError>)
    ensures
        match text {
            Ok(text) => header_text(value_bytes(*value)) == Some(text@),
            Err(_) => header_text(value_bytes(*value)) is None,
        },
{
    value.to_str()
}

/// The text of the first header of this name.
pub open spec fn header_named(
    headers: HeaderMap<HeaderValue>,
    name: Seq<char>,
) -> Option<Seq<char>> {
    let key = text::ascii_lowercase(name);
    if first_values(headers).dom().contains(key) {
        header_text(first_values(headers)[key])
    } else {
        None
    }
}

/// The text of the first header of this name, unless there is none or it is no text.
pub fn read_header(headers: &HeaderMap<HeaderValue>, name: &str) -> (text: Option<String>)
    ensures
        text::text_of(text) == header_named(*headers, name@),
        ({
            let values = first_values(*headers);
            let key = text::ascii_lowercase(name@);
            let readable = values.dom().contains(key) && forall|i: int|
                0 <= i < values[key].len() ==> 32 <= #[trigger] values[key][i] <= 126
                    || values[key][i] == 9;
            match text {
                Some(text) => {
                    &&& readable
                    &&& text@.len() == values[key].len()
                    &&& forall|i: int|
                        0 <= i < text@.len() ==> #[trigger] text@[i] == values[key][i] as char
                },
                None => !readable,
            }
        }),
{
    match get_header(headers, name) {
        Some(value) => match header_to_str(value) {
            Ok(text) => Some(text.to_owned()),
            Err(_) => None,
        },
        None => None,
    }
}

} // verus!

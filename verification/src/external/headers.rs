//! HTTP headers, from the `http` crate.

use http::{HeaderMap, HeaderName, HeaderValue};
use vstd::prelude::*;
use vstd::string::StringSliceAdditionalSpecFns;

verus! {

/// `http::HeaderMap`: header names, each with the values it was given.
#[verifier::external_type_specification]
#[verifier::external_body]
#[verifier::reject_recursive_types(T)]
pub struct ExHeaderMap<T>(http::HeaderMap<T>);

/// `http::HeaderName`: a valid header name, in lower case.
#[verifier::external_type_specification]
#[verifier::external_body]
pub struct ExHeaderName(http::HeaderName);

/// `http::HeaderValue`: the bytes of one header value.
#[verifier::external_type_specification]
#[verifier::external_body]
pub struct ExHeaderValue(http::HeaderValue);

/// What a header map holds: for each name, its values in order.
pub uninterp spec fn header_contents(headers: HeaderMap<HeaderValue>) -> Map<
    Seq<char>,
    Seq<Seq<u8>>,
>;

/// The lower-case text of a header name, as `HeaderName::as_str` gives it.
pub uninterp spec fn header_name_text(name: HeaderName) -> Seq<char>;

/// The bytes of a header value, as `HeaderValue::as_bytes` gives them.
pub uninterp spec fn header_value_bytes(value: HeaderValue) -> Seq<u8>;

/// The contents of a header map that holds nothing.
pub open spec fn no_headers() -> Map<Seq<char>, Seq<Seq<u8>>> {
    Map::empty()
}

/// A byte that may stand in a header value.
pub open spec fn is_value_byte(b: u8) -> bool {
    b >= 32 && b != 127 || b == 9
}

/// A byte that stands for a visible ASCII character, a space or a tab.
pub open spec fn is_visible_ascii(b: u8) -> bool {
    32 <= b < 127 || b == 9
}

/// A character of a lower-case header name.
pub open spec fn is_name_char(c: char) -> bool {
    ||| 'a' <= c <= 'z'
    ||| '0' <= c <= '9'
    ||| c == '-'
    ||| c == '_'
}

/// The number of distinct names up to which a header map always takes one more.
pub const HEADER_NAME_LIMIT: usize = 6554;

/// The map holds few enough names to take one more.
pub open spec fn has_room(headers: HeaderMap<HeaderValue>) -> bool {
    &&& header_contents(headers).dom().finite()
    &&& header_contents(headers).dom().len() < HEADER_NAME_LIMIT
}

/// `HeaderMap::new`: a header map that holds nothing.
#[verifier::external_body]
pub(crate) fn empty_headers() -> (headers: HeaderMap<HeaderValue>)
    ensures
        header_contents(headers) == no_headers(),
{
    HeaderMap::new()
}

/// `HeaderMap`'s `clone`: a header map that holds the same.
#[verifier::external_body]
pub(crate) fn copy_headers(headers: &HeaderMap<HeaderValue>) -> (copy: HeaderMap<HeaderValue>)
    ensures
        header_contents(copy) == header_contents(*headers),
{
    headers.clone()
}

/// `HeaderMap::keys_len`: the number of distinct names.
#[verifier::external_body]
pub(crate) fn name_count(headers: &HeaderMap<HeaderValue>) -> (count: usize)
    ensures
        count == header_contents(*headers).dom().len(),
        (count < HEADER_NAME_LIMIT) == has_room(*headers),
{
    headers.keys_len()
}

/// `HeaderMap::try_insert`: the name now has this one value, whatever values it
/// had before, and every other name keeps its own; or the map is full and holds
/// what it held.
///
/// Below the stated count of names a map is never full. Above it that depends on
/// how the names are hashed, so nothing more is said of it.
#[verifier::external_body]
pub(crate) fn try_insert_header(
    headers: &mut HeaderMap<HeaderValue>,
    name: HeaderName,
    value: HeaderValue,
) -> (fits: bool)
    ensures
        has_room(*old(headers)) ==> fits,
        header_contents(*final(headers)) == if fits {
            header_contents(*old(headers)).insert(
                header_name_text(name),
                seq![header_value_bytes(value)],
            )
        } else {
            header_contents(*old(headers))
        },
{
    headers.try_insert(name, value).is_ok()
}

/// `HeaderMap::get`: the first value of the name, `None` where it has none.
#[verifier::external_body]
pub(crate) fn first_value<'a>(headers: &'a HeaderMap<HeaderValue>, name: &HeaderName) -> (value:
    Option<&'a HeaderValue>)
    ensures
        match value {
            Some(v) => {
                &&& header_contents(*headers).contains_key(header_name_text(*name))
                &&& header_contents(*headers)[header_name_text(*name)].len() > 0
                &&& header_value_bytes(*v) == header_contents(*headers)[header_name_text(*name)][0]
            },
            None => !header_contents(*headers).contains_key(header_name_text(*name)),
        },
{
    headers.get(name)
}

/// `HeaderName::from_static`: the name with this text. The texts left out here
/// include those on which it panics.
pub assume_specification[ http::HeaderName::from_static ](src: &'static str) -> (name: HeaderName)
    requires
        0 < src@.len() <= 65535,
        forall|i: int| 0 <= i < src@.len() ==> is_name_char(#[trigger] src@[i]),
    ensures
        header_name_text(name) == src@,
;

/// `HeaderValue::from_str`: the value whose bytes are the text's UTF-8, where
/// each of them may stand in a header value; `None` otherwise.
#[verifier::external_body]
pub(crate) fn parse_header_value(text: &str) -> (value: Option<HeaderValue>)
    ensures
        value is Some <==> text.spec_bytes().all(|b: u8| is_value_byte(b)),
        value matches Some(v) ==> header_value_bytes(v) == text.spec_bytes(),
{
    HeaderValue::from_str(text).ok()
}

/// `HeaderValue::to_str`: the value as text, where all of its bytes are visible
/// ASCII; `None` otherwise.
#[verifier::external_body]
pub(crate) fn header_value_text(value: &HeaderValue) -> (text: Option<String>)
    ensures
        text is Some <==> header_value_bytes(*value).all(|b: u8| is_visible_ascii(b)),
        text matches Some(t) ==> t@ == header_value_bytes(*value).map_values(|b: u8| b as char),
{
    value.to_str().ok().map(str::to_owned)
}

} // verus!

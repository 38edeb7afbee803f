//! The boundary to the web framework's response type.
//!
//! A response is opaque here. What the library needs of it is named: the
//! table of its headers and its status code. Each function of this module
//! calls one method of the framework and states, over those names, what that
//! method does. None of these statements is proved.

use rocket::http::{ContentType, Header, Status};
use rocket::Response;
use vstd::prelude::*;

verus! {

/// The framework's response, `rocket::Response`: carried through, never
/// looked into.
#[verifier::external_type_specification]
#[verifier::external_body]
pub struct ExResponse<'r>(Response<'r>);

/// The framework's status, `rocket::http::Status`: the failure of a wrapped
/// value, handed on as it came.
#[verifier::external_type_specification]
#[verifier::external_body]
pub struct ExStatus(Status);

/// A table of headers: under the key of each name, the values of that
/// header in the order in which they were added.
pub type HeaderTable = Map<Seq<char>, Seq<Seq<char>>>;

/// The headers that a response holds, as `Response::headers` shows them:
/// each name, folded to lower case, with its values in the order in which
/// they were added.
pub uninterp spec fn header_table(response: Response) -> Map<Seq<char>, Seq<Seq<char>>>;

/// The code of the status that `Response::status` gives.
pub uninterp spec fn status_code(response: Response) -> int;

/// What the framework's parser of media types, `MediaType::from_str`, makes
/// of `value`: the top-level type and the subtype as they are written there,
/// or `None` where `value` is malformed.
pub uninterp spec fn parsed_media_type(value: Seq<char>) -> Option<(Seq<char>, Seq<char>)>;

/// An ASCII upper-case letter becomes its lower-case letter; every other
/// character stays.
pub open spec fn lower_char(c: char) -> char {
    if 'A' <= c && c <= 'Z' {
        ((c as u32) + 32) as char
    } else {
        c
    }
}

/// The text with its ASCII letters in lower case. Two texts that the
/// framework compares without regard to case are equal where these are.
pub open spec fn ascii_lower(text: Seq<char>) -> Seq<char> {
    text.map_values(|c: char| lower_char(c))
}

/// The key under which a header name is kept: names that differ only in the
/// case of ASCII letters are one header.
pub open spec fn header_key(name: Seq<char>) -> Seq<char> {
    ascii_lower(name)
}

/// The values that `table` holds for `name`, none if the header is absent.
pub open spec fn values_of(table: HeaderTable, name: Seq<char>) -> Seq<Seq<char>> {
    if table.contains_key(header_key(name)) {
        table[header_key(name)]
    } else {
        Seq::empty()
    }
}

/// Whether a parsed media type is SVG: its top-level type is `image` and its
/// subtype `svg+xml`, both without regard to case. Parameters do not count.
pub open spec fn is_svg(media_type: Option<(Seq<char>, Seq<char>)>) -> bool {
    match media_type {
        Some((top, sub)) => ascii_lower(top) == ascii_lower("image"@) && ascii_lower(sub)
            == ascii_lower("svg+xml"@),
        None => false,
    }
}

/// Whether the headers in `table` give SVG as the content type: the first
/// value of `Content-Type` is there and is an SVG media type.
pub open spec fn svg_typed(table: HeaderTable) -> bool {
    let values = values_of(table, "Content-Type"@);
    values.len() > 0 && is_svg(parsed_media_type(values[0]))
}

/// `Response::set_header` with a header made by `Header::new`: the values of
/// the named header are replaced by the one value, the other headers and the
/// status stay.
#[verifier::external_body]
pub(crate) fn set_header(response: &mut Response<'_>, name: &'static str, value: &'static str)
    ensures
        header_table(*final(response)) == header_table(*old(response)).insert(
            header_key(name@),
            seq![value@],
        ),
        status_code(*final(response)) == status_code(*old(response)),
{
    response.set_header(Header::new(name, value));
}

/// `Response::adjoin_header` with a header made by `Header::new`: the value
/// is added behind the values that the named header has, the other headers
/// and the status stay.
#[verifier::external_body]
pub(crate) fn adjoin_header(response: &mut Response<'_>, name: &'static str, value: String)
    ensures
        header_table(*final(response)) == header_table(*old(response)).insert(
            header_key(name@),
            values_of(header_table(*old(response)), name@).push(value@),
        ),
        status_code(*final(response)) == status_code(*old(response)),
{
    response.adjoin_header(Header::new(name, value));
}

/// `Response::content_type`, compared with `ContentType::SVG`: the content
/// type is the first value of the `Content-Type` header, parsed as a media
/// type, and it equals SVG where its top-level type and its subtype do.
#[verifier::external_body]
pub(crate) fn has_svg_content_type(response: &Response<'_>) -> (svg: bool)
    ensures
        svg == (values_of(header_table(*response), "Content-Type"@).len() > 0 && is_svg(
            parsed_media_type(values_of(header_table(*response), "Content-Type"@)[0]),
        )),
{
    response.content_type() == Some(ContentType::SVG)
}

} // verus!

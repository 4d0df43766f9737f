//! Reading request headers.

use crate::text::opt_string;
use axum::http::{HeaderMap, HeaderValue};
use vstd::prelude::*;

verus! {

/// `axum::http::HeaderMap`: the multimap of header names to header values.
#[verifier::external_type_specification]
#[verifier::external_body]
#[verifier::reject_recursive_types(T)]
pub struct ExHeaderMap<T>(axum::http::HeaderMap<T>);

/// `axum::http::HeaderValue`: the bytes of one header value.
#[verifier::external_type_specification]
#[verifier::external_body]
pub struct ExHeaderValue(axum::http::HeaderValue);

/// What a header map holds: for each lower-case header name that is present, the bytes of its
/// values in the order in which they were added.
pub uninterp spec fn header_contents(headers: HeaderMap<HeaderValue>) -> Map<
    Seq<char>,
    Seq<Seq<u8>>,
>;

/// A lower-case header name made of letters and hyphens.
pub open spec fn is_header_name(name: Seq<char>) -> bool {
    &&& name.len() > 0
    &&& forall|i: int|
        0 <= i < name.len() ==> ('a' <= #[trigger] name[i] && name[i] <= 'z') || name[i] == '-'
}

/// Whether a header is present.
pub open spec fn has_header(headers: HeaderMap<HeaderValue>, name: Seq<char>) -> bool {
    header_contents(headers).contains_key(name)
}

/// The bytes of each value of a header, none where the header is absent.
pub open spec fn header_values(headers: HeaderMap<HeaderValue>, name: Seq<char>) -> Seq<Seq<u8>> {
    if has_header(headers, name) {
        header_contents(headers)[name]
    } else {
        Seq::empty()
    }
}

/// A byte of a header value that can be read as text.
pub open spec fn is_visible_byte(b: u8) -> bool {
    32 <= b < 127 || b == 9
}

/// A header value as text, where all its bytes can be read as text.
pub open spec fn visible_text(value: Seq<u8>) -> Option<Seq<char>> {
    if forall|i: int| 0 <= i < value.len() ==> is_visible_byte(#[trigger] value[i]) {
        Some(Seq::new(value.len(), |i: int| value[i] as char))
    } else {
        None
    }
}

/// Each value of a header as text, `None` for one that cannot be read as text.
pub open spec fn header_texts(headers: HeaderMap<HeaderValue>, name: Seq<char>) -> Seq<
    Option<Seq<char>>,
> {
    header_values(headers, name).map_values(|value: Seq<u8>| visible_text(value))
}

/// The characters of each optional string of a list.
pub open spec fn opt_string_views(list: Seq<Option<String>>) -> Seq<Option<Seq<char>>> {
    list.map_values(|s: Option<String>| opt_string(s))
}

/// `HeaderMap::get_all`, each value read with `HeaderValue::to_str`: the values of a header in
/// the order in which they were added, `None` for one with a byte outside visible ASCII and
/// tab. A header that is present has at least one value.
#[verifier::external_body]
pub(crate) fn read_header(headers: &HeaderMap, name: &str) -> (r: Vec<Option<String>>)
    requires
        is_header_name(name@),
    ensures
        opt_string_views(r@) == header_texts(*headers, name@),
        header_contents(*headers).contains_key(name@) ==> r@.len() > 0,
{
    headers.get_all(name).iter().map(|v| v.to_str().ok().map(str::to_owned)).collect()
}

/// A character that a header value may hold.
pub open spec fn is_header_char(c: char) -> bool {
    (c as u32 >= 32 && c as u32 != 127) || c as u32 == 9
}

/// Text that can stand in a header value.
pub open spec fn header_safe(text: Seq<char>) -> bool {
    forall|i: int| 0 <= i < text.len() ==> is_header_char(#[trigger] text[i])
}

/// `HeaderValue::from_str`, asked only whether it accepts: it refuses control characters other
/// than tab, and nothing else.
#[verifier::external_body]
pub(crate) fn is_header_value(text: &str) -> (r: bool)
    ensures
        r == header_safe(text@),
{
    HeaderValue::from_str(text).is_ok()
}

/// The first value of a header, where it is present and can be read as text.
pub open spec fn first_text(texts: Seq<Option<Seq<char>>>) -> Option<Seq<char>> {
    if texts.len() > 0 {
        texts[0]
    } else {
        None
    }
}

/// Text put together from header-safe texts is header-safe.
pub proof fn lemma_header_safe_concat(a: Seq<char>, b: Seq<char>)
    ensures
        header_safe(a + b) == (header_safe(a) && header_safe(b)),
{
    let ab = a + b;
    if header_safe(ab) {
        assert forall|i: int| 0 <= i < a.len() implies is_header_char(#[trigger] a[i]) by {
            assert(ab[i] == a[i]);
        }
        assert forall|i: int| 0 <= i < b.len() implies is_header_char(#[trigger] b[i]) by {
            assert(ab[a.len() + i] == b[i]);
        }
    }
    if header_safe(a) && header_safe(b) {
        assert forall|i: int| 0 <= i < ab.len() implies is_header_char(#[trigger] ab[i]) by {
            if i < a.len() {
                assert(ab[i] == a[i]);
            } else {
                assert(ab[i] == b[i - a.len()]);
            }
        }
    }
}

} // verus!

//! The organization that a request is about.

use crate::headers::{header_texts, opt_string_views, read_header};
use crate::portal::{CustomerCtx, Org};
use crate::text::{chars_of, opt_str, same_text, string_views};
use axum::http::{HeaderMap, HeaderValue};
use vstd::prelude::*;
use vstd::utf8::encode_utf8;

verus! {

/// A character that stands for itself in the query of a URL.
pub open spec fn is_unreserved(c: char) -> bool {
    ||| 'A' <= c && c <= 'Z'
    ||| 'a' <= c && c <= 'z'
    ||| '0' <= c && c <= '9'
    ||| c == '-' || c == '.' || c == '_' || c == '~'
}

/// The hexadecimal digit for `d`, in upper case.
pub open spec fn hex_digit(d: int) -> char {
    "0123456789ABCDEF"@[d]
}

/// Each byte as a percent sign and two hexadecimal digits.
pub open spec fn percent_encoded(bytes: Seq<u8>) -> Seq<char>
    decreases bytes.len(),
{
    if bytes.len() == 0 {
        Seq::empty()
    } else {
        percent_encoded(bytes.drop_last()) + seq![
            '%',
            hex_digit(bytes.last() as int / 16),
            hex_digit(bytes.last() as int % 16),
        ]
    }
}

/// A text in the query of a URL: unreserved characters as they are, the bytes of the others
/// percent-encoded.
pub open spec fn query_encoded(text: Seq<char>) -> Seq<char>
    decreases text.len(),
{
    if text.len() == 0 {
        Seq::empty()
    } else {
        query_encoded(text.drop_last()) + (if is_unreserved(text.last()) {
            seq![text.last()]
        } else {
            percent_encoded(encode_utf8(seq![text.last()]))
        })
    }
}

fn percent_text(bytes: &[u8]) -> (r: String)
    ensures
        r@ == percent_encoded(bytes@),
{
    let digits = "0123456789ABCDEF";
    proof {
        reveal_strlit("0123456789ABCDEF");
        reveal_strlit("%");
    }
    let mut text = String::new();
    let mut i: usize = 0;
    while i < bytes.len()
        invariant
            i <= bytes.len(),
            digits@ == "0123456789ABCDEF"@,
            digits@.len() == 16,
            "%"@ == seq!['%'],
            text@ == percent_encoded(bytes@.take(i as int)),
        decreases bytes.len() - i,
    {
        let high: usize = (bytes[i] / 16) as usize;
        let low: usize = (bytes[i] % 16) as usize;
        let ghost before = text@;
        text.append("%");
        text.append(digits.substring_char(high, high + 1));
        text.append(digits.substring_char(low, low + 1));
        assert(text@ =~= before + seq!['%', hex_digit(high as int), hex_digit(low as int)]);
        assert(bytes@.take(i + 1).drop_last() =~= bytes@.take(i as int));
        i += 1;
    }
    assert(bytes@.take(i as int) =~= bytes@);
    text
}

/// A value as it stands in the query of a URL.
pub fn encode_query_value(value: &str) -> (r: String)
    ensures
        r@ == query_encoded(value@),
{
    let chars = chars_of(value);
    let mut text = String::new();
    let mut i: usize = 0;
    while i < chars.len()
        invariant
            i <= chars.len(),
            chars@ == value@,
            text@ == query_encoded(value@.take(i as int)),
        decreases chars.len() - i,
    {
        let c = chars[i];
        let piece = value.substring_char(i, i + 1);
        assert(piece@ =~= seq![c]);
        assert(value@.take(i + 1).drop_last() =~= value@.take(i as int));
        if ('A' <= c && c <= 'Z') || ('a' <= c && c <= 'z') || ('0' <= c && c <= '9') || c == '-'
            || c == '.' || c == '_' || c == '~' {
            text.append(piece);
        } else {
            let encoded = percent_text(piece.as_bytes());
            text.append(encoded.as_str());
        }
        i += 1;
    }
    assert(value@.take(i as int) =~= value@);
    text
}

/// An unreserved text is its own encoding: an identifier that is a UUID is shown as it is.
pub proof fn law_unreserved_text_is_unchanged(text: Seq<char>)
    requires
        forall|i: int| 0 <= i < text.len() ==> is_unreserved(#[trigger] text[i]),
    ensures
        query_encoded(text) == text,
    decreases text.len(),
{
    if text.len() > 0 {
        assert forall|i: int| 0 <= i < text.drop_last().len() implies is_unreserved(
            #[trigger] text.drop_last()[i],
        ) by {
            assert(text.drop_last()[i] == text[i]);
        }
        law_unreserved_text_is_unchanged(text.drop_last());
        assert(text.drop_last() + seq![text.last()] =~= text);
    } else {
        assert(query_encoded(text) =~= text);
    }
}

/// Why no organization was selected.
#[derive(Clone, Copy, Debug, PartialEq, Eq, Structural)]
pub enum OrgError {
    /// None is named, and the customer does not belong to exactly one.
    Required,
    /// What is named is no identifier of an organization.
    Malformed,
    /// The customer does not belong to the one that is named.
    Forbidden,
}

impl OrgError {
    /// The status of each error.
    pub open spec fn spec_status(self) -> u16 {
        match self {
            OrgError::Required => 400,
            OrgError::Malformed => 400,
            OrgError::Forbidden => 403,
        }
    }

    /// The status of the refusal.
    pub fn status(self) -> (r: u16)
        ensures
            r == self.spec_status(),
    {
        match self {
            OrgError::Required => 400,
            OrgError::Malformed => 400,
            OrgError::Forbidden => 403,
        }
    }

    /// The machine-readable code of each error.
    pub open spec fn spec_code(self) -> Seq<char> {
        match self {
            OrgError::Required => "organization_required"@,
            OrgError::Malformed => "invalid_organization"@,
            OrgError::Forbidden => "organization_forbidden"@,
        }
    }

    /// The machine-readable code of the refusal.
    pub fn code(self) -> (r: &'static str)
        ensures
            r@ == self.spec_code(),
    {
        match self {
            OrgError::Required => "organization_required",
            OrgError::Malformed => "invalid_organization",
            OrgError::Forbidden => "organization_forbidden",
        }
    }
}

/// Where the hyphens of a UUID stand.
pub open spec fn is_hyphen_place(i: int) -> bool {
    i == 8 || i == 13 || i == 18 || i == 23
}

/// A hexadecimal digit in either case.
pub open spec fn is_any_hex_digit(c: char) -> bool {
    ||| '0' <= c && c <= '9'
    ||| 'a' <= c && c <= 'f'
    ||| 'A' <= c && c <= 'F'
}

/// The identifier of an organization: a UUID in its hyphenated form.
pub open spec fn is_org_id(text: Seq<char>) -> bool {
    &&& text.len() == 36
    &&& forall|i: int|
        0 <= i < 36 ==> if is_hyphen_place(i) {
            #[trigger] text[i] == '-'
        } else {
            is_any_hex_digit(text[i])
        }
}

fn is_identifier(text: &str) -> (r: bool)
    ensures
        r == is_org_id(text@),
{
    let chars = chars_of(text);
    if chars.len() != 36 {
        return false;
    }
    let mut i: usize = 0;
    while i < 36
        invariant
            i <= 36,
            chars@ == text@,
            chars.len() == 36,
            forall|j: int|
                0 <= j < i ==> if is_hyphen_place(j) {
                    #[trigger] text@[j] == '-'
                } else {
                    is_any_hex_digit(text@[j])
                },
        decreases 36 - i,
    {
        let c = chars[i];
        let fits = if i == 8 || i == 13 || i == 18 || i == 23 {
            c == '-'
        } else {
            ('0' <= c && c <= '9') || ('a' <= c && c <= 'f') || ('A' <= c && c <= 'F')
        };
        if !fits {
            assert(text@[i as int] == c);
            return false;
        }
        i += 1;
    }
    true
}

/// The organization that is selected: the one that is named, where the customer belongs to it,
/// or else the only one.
pub open spec fn selection(orgs: Seq<Seq<char>>, named: Option<Seq<char>>) -> Result<
    Seq<char>,
    OrgError,
> {
    match named {
        Some(id) => if !is_org_id(id) {
            Err(OrgError::Malformed)
        } else if orgs.contains(id) {
            Ok(id)
        } else {
            Err(OrgError::Forbidden)
        },
        None => if orgs.len() == 1 {
            Ok(orgs[0])
        } else {
            Err(OrgError::Required)
        },
    }
}

/// The selected organization, as pages name it.
pub open spec fn selected(orgs: Seq<Seq<char>>, named: Option<Seq<char>>) -> Result<
    Org<Seq<char>>,
    OrgError,
> {
    match selection(orgs, named) {
        Ok(id) => Ok(Org { id, query: query_encoded(id) }),
        Err(error) => Err(error),
    }
}

fn select(orgs: &[String], named: Option<&str>) -> (r: Result<String, OrgError>)
    ensures
        match r {
            Ok(id) => selection(string_views(orgs@), opt_str(named)) == Ok::<_, OrgError>(id@),
            Err(error) => selection(string_views(orgs@), opt_str(named)) == Err::<Seq<char>, _>(
                error,
            ),
        },
{
    let ghost views = string_views(orgs@);
    match named {
        None => {
            if orgs.len() == 1 {
                assert(views[0] == orgs@[0]@);
                Ok(orgs[0].clone())
            } else {
                Err(OrgError::Required)
            }
        },
        Some(id) => {
            if !is_identifier(id) {
                return Err(OrgError::Malformed);
            }
            let mut i: usize = 0;
            while i < orgs.len()
                invariant
                    i <= orgs.len(),
                    views == string_views(orgs@),
                    named == Some(id),
                    is_org_id(id@),
                    forall|j: int| 0 <= j < i ==> #[trigger] views[j] != id@,
                decreases orgs.len() - i,
            {
                assert(views[i as int] == orgs@[i as int]@);
                if same_text(orgs[i].as_str(), id) {
                    assert(views.contains(id@));
                    return Ok(id.to_owned());
                }
                i += 1;
            }
            assert(!views.contains(id@));
            Err(OrgError::Forbidden)
        },
    }
}

/// The organization of a page: the one that the query names, or the only one.
pub fn selected_org(customer: &CustomerCtx, named: Option<&str>) -> (r: Result<
    Org<String>,
    OrgError,
>)
    ensures
        match r {
            Ok(org) => selected(customer@.orgs, opt_str(named)) == Ok::<_, OrgError>(org@),
            Err(error) => selected(customer@.orgs, opt_str(named)) == Err::<Org<Seq<char>>, _>(
                error,
            ),
        },
{
    match select(customer.orgs.as_slice(), named) {
        Ok(id) => {
            let query = encode_query_value(id.as_str());
            Ok(Org { id, query })
        },
        Err(error) => Err(error),
    }
}

/// What the values of the organization header select. A value that cannot be read names nothing
/// that could be an organization.
pub open spec fn header_selection(
    orgs: Seq<Seq<char>>,
    values: Seq<Option<Seq<char>>>,
) -> Result<Seq<char>, OrgError> {
    if values.len() == 0 {
        selection(orgs, None)
    } else {
        match values[0] {
            Some(id) => selection(orgs, Some(id)),
            None => Err(OrgError::Malformed),
        }
    }
}

/// The organization of an API request: the one that the `x-fiducia-org-id` header names, or the
/// only one.
pub fn selected_customer_org(customer: &CustomerCtx, headers: &HeaderMap) -> (r: Result<
    String,
    OrgError,
>)
    ensures
        match r {
            Ok(id) => header_selection(
                customer@.orgs,
                header_texts(*headers, "x-fiducia-org-id"@),
            ) == Ok::<_, OrgError>(id@),
            Err(error) => header_selection(
                customer@.orgs,
                header_texts(*headers, "x-fiducia-org-id"@),
            ) == Err::<Seq<char>, _>(error),
        },
{
    proof {
        reveal_strlit("x-fiducia-org-id");
    }
    let values = read_header(headers, "x-fiducia-org-id");
    assert(opt_string_views(values@).len() == header_texts(*headers, "x-fiducia-org-id"@).len());
    if values.len() == 0 {
        return select(customer.orgs.as_slice(), None);
    }
    assert(opt_string_views(values@)[0] == header_texts(*headers, "x-fiducia-org-id"@)[0]);
    match &values[0] {
        Some(id) => select(customer.orgs.as_slice(), Some(id.as_str())),
        None => Err(OrgError::Malformed),
    }
}

/// Whatever a request names, a customer only ever acts for an organization they belong to.
pub proof fn law_only_own_organizations_are_selected(
    orgs: Seq<Seq<char>>,
    values: Seq<Option<Seq<char>>>,
)
    ensures
        header_selection(orgs, values) matches Ok(id) ==> orgs.contains(id),
        values.len() > 0 ==> (selected(orgs, values[0]) matches Ok(org) ==> orgs.contains(org.id)),
{
    if orgs.len() == 1 {
        assert(orgs.contains(orgs[0]));
    }
}

/// The characters that stand for themselves in the query of a URL, one by one.
pub open spec fn unreserved() -> Seq<char> {
    "ABCDEFGHIJKLMNOPQRSTUVWXYZabcdefghijklmnopqrstuvwxyz0123456789-._~"@
}

/// A character stands for itself exactly where it is one of those listed.
pub proof fn law_unreserved_characters_are_listed(c: char)
    ensures
        is_unreserved(c) <==> unreserved().contains(c),
{
    reveal_strlit("ABCDEFGHIJKLMNOPQRSTUVWXYZabcdefghijklmnopqrstuvwxyz0123456789-._~");
    let list = unreserved();
    let n = c as int;
    if is_unreserved(c) {
        let i: int = if 65 <= n <= 90 {
            n - 65
        } else if 97 <= n <= 122 {
            n - 71
        } else if 48 <= n <= 57 {
            n + 4
        } else if c == '-' {
            62
        } else if c == '.' {
            63
        } else if c == '_' {
            64
        } else {
            65
        };
        assert(list[i] == c);
    }
    if list.contains(c) {
        let i = choose|i: int| 0 <= i < list.len() && list[i] == c;
        assert(list[i] == c);
    }
}

/// The number that an upper-case hexadecimal digit stands for.
pub open spec fn hex_value(c: char) -> int {
    if '0' <= c && c <= '9' {
        c as int - '0' as int
    } else {
        c as int - 'A' as int + 10
    }
}

/// The bytes that a query value stands for: a percent sign and two digits for one byte, any other
/// character for itself.
pub open spec fn query_decoded(text: Seq<char>) -> Seq<u8>
    decreases text.len(),
{
    if text.len() == 0 {
        Seq::empty()
    } else if text[0] == '%' && text.len() >= 3 {
        seq![(16 * hex_value(text[1]) + hex_value(text[2])) as u8] + query_decoded(text.skip(3))
    } else {
        encode_utf8(seq![text[0]]) + query_decoded(text.skip(1))
    }
}

proof fn lemma_hex_digits(d: int)
    requires
        0 <= d < 16,
    ensures
        hex_value(hex_digit(d)) == d,
        is_unreserved(hex_digit(d)),
{
    reveal_strlit("0123456789ABCDEF");
}

proof fn lemma_percent_decoded(bytes: Seq<u8>, rest: Seq<char>)
    ensures
        query_decoded(percent_encoded(bytes) + rest) == bytes + query_decoded(rest),
    decreases bytes.len(),
{
    if bytes.len() == 0 {
        assert(percent_encoded(bytes) + rest =~= rest);
        assert(bytes + query_decoded(rest) =~= query_decoded(rest));
    } else {
        let b = bytes.last();
        let high = b as int / 16;
        let low = b as int % 16;
        let triple = seq!['%', hex_digit(high), hex_digit(low)];
        let head = percent_encoded(bytes.drop_last());
        assert(percent_encoded(bytes) + rest =~= head + (triple + rest));
        lemma_percent_decoded(bytes.drop_last(), triple + rest);
        lemma_hex_digits(high);
        lemma_hex_digits(low);
        assert((triple + rest).skip(3) =~= rest);
        assert((16 * high + low) as u8 == b);
        assert(query_decoded(triple + rest) =~= seq![b] + query_decoded(rest));
        assert(bytes.drop_last() + (seq![b] + query_decoded(rest)) =~= bytes + query_decoded(rest));
    }
}

proof fn lemma_encoding_of_concat(a: Seq<char>, b: Seq<char>)
    ensures
        encode_utf8(a + b) == encode_utf8(a) + encode_utf8(b),
    decreases a.len(),
{
    if a.len() == 0 {
        assert(a + b =~= b);
        assert(encode_utf8(a) + encode_utf8(b) =~= encode_utf8(b));
    } else {
        assert((a + b).drop_first() =~= a.drop_first() + b);
        lemma_encoding_of_concat(a.drop_first(), b);
        assert((a + b)[0] == a[0]);
        assert(encode_utf8(a + b) =~= encode_utf8(a) + encode_utf8(b));
    }
}

proof fn lemma_query_decoded(text: Seq<char>, rest: Seq<char>)
    ensures
        query_decoded(query_encoded(text) + rest) == encode_utf8(text) + query_decoded(rest),
    decreases text.len(),
{
    if text.len() == 0 {
        assert(query_encoded(text) + rest =~= rest);
        assert(encode_utf8(text) =~= Seq::<u8>::empty());
        assert(encode_utf8(text) + query_decoded(rest) =~= query_decoded(rest));
    } else {
        let c = text.last();
        let head = query_encoded(text.drop_last());
        assert(text =~= text.drop_last() + seq![c]);
        lemma_encoding_of_concat(text.drop_last(), seq![c]);
        let bytes = encode_utf8(seq![c]);
        let piece = if is_unreserved(c) {
            seq![c]
        } else {
            percent_encoded(bytes)
        };
        assert(query_encoded(text) + rest =~= head + (piece + rest));
        lemma_query_decoded(text.drop_last(), piece + rest);
        if is_unreserved(c) {
            assert((piece + rest).skip(1) =~= rest);
            assert((piece + rest)[0] == c);
        } else {
            lemma_percent_decoded(bytes, rest);
        }
        assert(query_decoded(piece + rest) == bytes + query_decoded(rest));
        assert(encode_utf8(text.drop_last()) + (bytes + query_decoded(rest)) =~= encode_utf8(text)
            + query_decoded(rest));
    }
}

proof fn lemma_percent_characters(bytes: Seq<u8>)
    ensures
        forall|i: int|
            0 <= i < percent_encoded(bytes).len() ==> {
                let c = #[trigger] percent_encoded(bytes)[i];
                c == '%' || is_unreserved(c)
            },
    decreases bytes.len(),
{
    if bytes.len() > 0 {
        lemma_percent_characters(bytes.drop_last());
        let head = percent_encoded(bytes.drop_last());
        let high = bytes.last() as int / 16;
        let low = bytes.last() as int % 16;
        lemma_hex_digits(high);
        lemma_hex_digits(low);
        let triple = seq!['%', hex_digit(high), hex_digit(low)];
        assert forall|i: int| 0 <= i < percent_encoded(bytes).len() implies {
            let c = #[trigger] percent_encoded(bytes)[i];
            c == '%' || is_unreserved(c)
        } by {
            if i < head.len() {
                assert(percent_encoded(bytes)[i] == head[i]);
            } else {
                assert(percent_encoded(bytes)[i] == triple[i - head.len()]);
            }
        }
    }
}

/// A query value is read back as the bytes of its text, and is made of characters that stand for
/// themselves and percent signs only, so that no text can end the query or add a parameter to it.
pub proof fn law_query_values_are_read_back(text: Seq<char>)
    ensures
        query_decoded(query_encoded(text)) == encode_utf8(text),
        forall|i: int|
            0 <= i < query_encoded(text).len() ==> {
                let c = #[trigger] query_encoded(text)[i];
                c == '%' || unreserved().contains(c)
            },
    decreases text.len(),
{
    lemma_query_decoded(text, Seq::empty());
    assert(query_encoded(text) + Seq::<char>::empty() =~= query_encoded(text));
    assert(encode_utf8(text) + Seq::<u8>::empty() =~= encode_utf8(text));
    if text.len() > 0 {
        law_query_values_are_read_back(text.drop_last());
        let head = query_encoded(text.drop_last());
        let c = text.last();
        let bytes = encode_utf8(seq![c]);
        lemma_percent_characters(bytes);
        assert forall|i: int| 0 <= i < query_encoded(text).len() implies {
            let c = #[trigger] query_encoded(text)[i];
            c == '%' || unreserved().contains(c)
        } by {
            if i < head.len() {
                assert(query_encoded(text)[i] == head[i]);
            } else {
                let d = query_encoded(text)[i];
                if !is_unreserved(c) {
                    assert(d == percent_encoded(bytes)[i - head.len()]);
                } else {
                    assert(d == c);
                }
                law_unreserved_characters_are_listed(d);
            }
        }
    }
}

/// Texts are encoded piece by piece.
pub proof fn law_query_values_are_encoded_in_pieces(a: Seq<char>, b: Seq<char>)
    ensures
        query_encoded(a + b) == query_encoded(a) + query_encoded(b),
    decreases b.len(),
{
    if b.len() == 0 {
        assert(a + b =~= a);
        assert(query_encoded(a) + query_encoded(b) =~= query_encoded(a));
    } else {
        assert((a + b).drop_last() =~= a + b.drop_last());
        law_query_values_are_encoded_in_pieces(a, b.drop_last());
        assert(query_encoded(a + b) =~= query_encoded(a) + query_encoded(b));
    }
}

/// Whether a text is made of hexadecimal digits in either case.
pub open spec fn is_hex_text(text: Seq<char>) -> bool {
    forall|i: int|
        0 <= i < text.len() ==> "0123456789abcdefABCDEF"@.contains(#[trigger] text[i])
}

proof fn lemma_any_hex_digit(c: char)
    ensures
        is_any_hex_digit(c) <==> "0123456789abcdefABCDEF"@.contains(c),
{
    reveal_strlit("0123456789abcdefABCDEF");
    let list = "0123456789abcdefABCDEF"@;
    let n = c as int;
    if is_any_hex_digit(c) {
        let i: int = if n <= 57 {
            n - 48
        } else if n >= 97 {
            n - 87
        } else {
            n - 49
        };
        assert(list[i] == c);
    }
    if list.contains(c) {
        let i = choose|i: int| 0 <= i < list.len() && list[i] == c;
        assert(list[i] == c);
    }
}

/// An identifier is five groups of hexadecimal digits, of 8, 4, 4, 4 and 12, joined by hyphens; every
/// such text is one.
pub proof fn law_identifiers_are_five_groups(
    a: Seq<char>,
    b: Seq<char>,
    c: Seq<char>,
    d: Seq<char>,
    e: Seq<char>,
)
    requires
        a.len() == 8,
        b.len() == 4,
        c.len() == 4,
        d.len() == 4,
        e.len() == 12,
    ensures
        is_org_id(a + "-"@ + b + "-"@ + c + "-"@ + d + "-"@ + e) <==> is_hex_text(a) && is_hex_text(
            b,
        ) && is_hex_text(c) && is_hex_text(d) && is_hex_text(e),
{
    reveal_strlit("-");
    let text = a + "-"@ + b + "-"@ + c + "-"@ + d + "-"@ + e;
    assert(text.len() == 36);
    assert forall|i: int| 0 <= i < 8 implies #[trigger] a[i] == text[i] by {}
    assert forall|i: int| 0 <= i < 4 implies #[trigger] b[i] == text[9 + i] by {}
    assert forall|i: int| 0 <= i < 4 implies #[trigger] c[i] == text[14 + i] by {}
    assert forall|i: int| 0 <= i < 4 implies #[trigger] d[i] == text[19 + i] by {}
    assert forall|i: int| 0 <= i < 12 implies #[trigger] e[i] == text[24 + i] by {}
    assert forall|x: char| is_any_hex_digit(x) <==> #[trigger] "0123456789abcdefABCDEF"@.contains(
        x,
    ) by {
        lemma_any_hex_digit(x);
    }
    if is_org_id(text) {
        assert forall|i: int| 0 <= i < 8 implies "0123456789abcdefABCDEF"@.contains(
            #[trigger] a[i],
        ) by {
            assert(is_any_hex_digit(text[i]));
        }
        assert forall|i: int| 0 <= i < 4 implies "0123456789abcdefABCDEF"@.contains(
            #[trigger] b[i],
        ) by {
            assert(is_any_hex_digit(text[9 + i]));
        }
        assert forall|i: int| 0 <= i < 4 implies "0123456789abcdefABCDEF"@.contains(
            #[trigger] c[i],
        ) by {
            assert(is_any_hex_digit(text[14 + i]));
        }
        assert forall|i: int| 0 <= i < 4 implies "0123456789abcdefABCDEF"@.contains(
            #[trigger] d[i],
        ) by {
            assert(is_any_hex_digit(text[19 + i]));
        }
        assert forall|i: int| 0 <= i < 12 implies "0123456789abcdefABCDEF"@.contains(
            #[trigger] e[i],
        ) by {
            assert(is_any_hex_digit(text[24 + i]));
        }
    }
    if is_hex_text(a) && is_hex_text(b) && is_hex_text(c) && is_hex_text(d) && is_hex_text(e) {
        assert forall|i: int| 0 <= i < 36 implies if is_hyphen_place(i) {
            #[trigger] text[i] == '-'
        } else {
            is_any_hex_digit(text[i])
        } by {
            if i < 8 {
                assert(a[i] == text[i]);
            } else if 9 <= i < 13 {
                assert(b[i - 9] == text[i]);
            } else if 14 <= i < 18 {
                assert(c[i - 14] == text[i]);
            } else if 19 <= i < 23 {
                assert(d[i - 19] == text[i]);
            } else if 24 <= i {
                assert(e[i - 24] == text[i]);
            }
        }
    }
}

/// No text of another length is an identifier, and every identifier has its hyphens in their places.
pub proof fn law_identifiers_have_their_shape(text: Seq<char>)
    requires
        is_org_id(text),
    ensures
        text.len() == 36,
        text[8] == '-' && text[13] == '-' && text[18] == '-' && text[23] == '-',
{
}

/// An organization that the customer belongs to is selected by its identifier, and by nothing where it
/// is the only one; another identifier is forbidden, no identifier is a bad request, and so is naming
/// none of several. A page has the selected one with its identifier as a query value.
pub proof fn law_selection_verdicts(orgs: Seq<Seq<char>>, named: Option<Seq<char>>)
    ensures
        match named {
            Some(id) => {
                &&& !is_org_id(id) ==> selection(orgs, named) == Err::<Seq<char>, _>(
                    OrgError::Malformed,
                )
                &&& is_org_id(id) && !orgs.contains(id) ==> selection(orgs, named) == Err::<
                    Seq<char>,
                    _,
                >(OrgError::Forbidden)
                &&& is_org_id(id) && orgs.contains(id) ==> selection(orgs, named) == Ok::<
                    _,
                    OrgError,
                >(id)
            },
            None => {
                &&& orgs.len() == 1 ==> selection(orgs, named) == Ok::<_, OrgError>(orgs[0])
                &&& orgs.len() != 1 ==> selection(orgs, named) == Err::<Seq<char>, _>(
                    OrgError::Required,
                )
            },
        },
        match selection(orgs, named) {
            Ok(id) => selected(orgs, named) matches Ok(org) && org.id == id && query_decoded(
                org.query,
            ) == encode_utf8(id),
            Err(error) => selected(orgs, named) == Err::<Org<Seq<char>>, _>(error),
        },
        header_selection(orgs, Seq::empty()) == selection(orgs, None),
        named is Some ==> forall|more: Seq<Option<Seq<char>>>|
            #[trigger] header_selection(orgs, seq![named] + more) == selection(orgs, named),
        forall|more: Seq<Option<Seq<char>>>|
            #[trigger] header_selection(orgs, seq![None::<Seq<char>>] + more) == Err::<
                Seq<char>,
                _,
            >(OrgError::Malformed),
        OrgError::Required.spec_status() == 400,
        OrgError::Malformed.spec_status() == 400,
        OrgError::Forbidden.spec_status() == 403,
        OrgError::Required.spec_code() == "organization_required"@,
        OrgError::Malformed.spec_code() == "invalid_organization"@,
        OrgError::Forbidden.spec_code() == "organization_forbidden"@,
{
    if let Ok(id) = selection(orgs, named) {
        law_query_values_are_read_back(id);
    }
    assert forall|more: Seq<Option<Seq<char>>>| named is Some implies #[trigger] header_selection(
        orgs,
        seq![named] + more,
    ) == selection(orgs, named) by {
        assert((seq![named] + more)[0] == named);
    }
    assert forall|more: Seq<Option<Seq<char>>>| #[trigger]
        header_selection(orgs, seq![None::<Seq<char>>] + more) == Err::<Seq<char>, _>(
            OrgError::Malformed,
        ) by {
        assert((seq![None::<Seq<char>>] + more)[0] is None);
    }
}

} // verus!

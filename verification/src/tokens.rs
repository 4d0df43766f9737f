//! Message authentication codes, their text form, and random identifiers.

use base64::Engine;
use hmac::Mac;
use vstd::prelude::*;

verus! {

/// The HMAC-SHA-256 tag of a message under a key.
pub uninterp spec fn hmac_sha256(key: Seq<u8>, message: Seq<u8>) -> Seq<u8>;

/// `Hmac::<Sha256>` over `new_from_slice`, `update` and `finalize`: the 32-byte tag of the
/// message under the key. A key of any length is accepted. What the tag is for given bytes is
/// left to its name.
#[verifier::external_body]
pub(crate) fn mac_tag(key: &[u8], message: &[u8]) -> (r: Vec<u8>)
    ensures
        r@ == hmac_sha256(key@, message@),
        r@.len() == 32,
{
    let mut mac = hmac::Hmac::<sha2::Sha256>::new_from_slice(key).expect("any key length");
    mac.update(message);
    mac.finalize().into_bytes().to_vec()
}

/// `Mac::verify_slice` for `Hmac::<Sha256>`: whether the tag is the full tag of the message
/// under the key.
#[verifier::external_body]
pub(crate) fn mac_verifies(key: &[u8], message: &[u8], tag: &[u8]) -> (r: bool)
    ensures
        r == (tag@ == hmac_sha256(key@, message@)),
{
    let mut mac = hmac::Hmac::<sha2::Sha256>::new_from_slice(key).expect("any key length");
    mac.update(message);
    mac.verify_slice(tag).is_ok()
}

/// The symbol of the URL-safe base64 alphabet for a six-bit value.
pub open spec fn base64_symbol(v: int) -> char {
    if v < 26 {
        (65 + v) as char
    } else if v < 52 {
        (71 + v) as char
    } else if v < 62 {
        (v - 4) as char
    } else if v == 62 {
        '-'
    } else {
        '_'
    }
}

/// The byte at `k`, zero past the end.
pub open spec fn byte_or_zero(data: Seq<u8>, k: int) -> int {
    if k < data.len() {
        data[k] as int
    } else {
        0
    }
}

/// The `i`-th group of six bits of the bytes, filled with zero bits at the end.
pub open spec fn sextet(data: Seq<u8>, i: int) -> int {
    let k = i / 4 * 3;
    if i % 4 == 0 {
        byte_or_zero(data, k) / 4
    } else if i % 4 == 1 {
        byte_or_zero(data, k) % 4 * 16 + byte_or_zero(data, k + 1) / 16
    } else if i % 4 == 2 {
        byte_or_zero(data, k + 1) % 16 * 4 + byte_or_zero(data, k + 2) / 64
    } else {
        byte_or_zero(data, k + 2) % 64
    }
}

/// URL-safe base64 without padding.
pub open spec fn base64_url(data: Seq<u8>) -> Seq<char> {
    Seq::new(((8 * data.len() + 5) / 6) as nat, |i: int| base64_symbol(sextet(data, i)))
}

/// `base64::engine::general_purpose::URL_SAFE_NO_PAD.encode`.
#[verifier::external_body]
pub(crate) fn base64_encode(data: &[u8]) -> (r: String)
    ensures
        r@ == base64_url(data@),
{
    base64::engine::general_purpose::URL_SAFE_NO_PAD.encode(data)
}

/// `base64::engine::general_purpose::URL_SAFE_NO_PAD.decode`: the bytes whose encoding is the
/// text, and nothing for a text that encodes no bytes. Padding, other symbols, an impossible
/// length and stray bits in the last symbol are all refused.
#[verifier::external_body]
pub(crate) fn base64_decode(text: &str) -> (r: Option<Vec<u8>>)
    ensures
        match r {
            Some(data) => base64_url(data@) == text@,
            None => forall|data: Seq<u8>| #[trigger] base64_url(data) != text@,
        },
{
    base64::engine::general_purpose::URL_SAFE_NO_PAD.decode(text).ok()
}

proof fn lemma_symbols_differ(v: int, w: int)
    requires
        0 <= v < 64,
        0 <= w < 64,
        base64_symbol(v) == base64_symbol(w),
    ensures
        v == w,
{
    assert(base64_symbol(v) as int == base64_symbol(w) as int);
}

proof fn lemma_sextet_range(data: Seq<u8>, i: int)
    requires
        0 <= i,
    ensures
        0 <= sextet(data, i) < 64,
{
}

proof fn lemma_encoded_lengths_differ(m: int, n: int)
    requires
        0 <= m,
        0 <= n,
        (8 * m + 5) / 6 == (8 * n + 5) / 6,
    ensures
        m == n,
{
}

/// Different bytes have different base64 texts.
pub proof fn law_base64_loses_nothing(a: Seq<u8>, b: Seq<u8>)
    requires
        base64_url(a) == base64_url(b),
    ensures
        a == b,
{
    assert(base64_url(a).len() == (8 * a.len() + 5) / 6);
    assert(base64_url(b).len() == (8 * b.len() + 5) / 6);
    lemma_encoded_lengths_differ(a.len() as int, b.len() as int);
    assert forall|i: int| 0 <= i < (8 * a.len() + 5) / 6 implies sextet(a, i) == sextet(b, i) by {
        assert(base64_url(a)[i] == base64_symbol(sextet(a, i)));
        assert(base64_url(b)[i] == base64_symbol(sextet(b, i)));
        lemma_sextet_range(a, i);
        lemma_sextet_range(b, i);
        lemma_symbols_differ(sextet(a, i), sextet(b, i));
    }
    assert forall|k: int| 0 <= k < a.len() implies a[k] == b[k] by {
        let m = k / 3;
        let i = if k % 3 == 0 {
            4 * m
        } else if k % 3 == 1 {
            4 * m + 1
        } else {
            4 * m + 2
        };
        assert(0 <= i && i + 1 < (8 * a.len() + 5) / 6);
        assert(sextet(a, i) == sextet(b, i));
        assert(sextet(a, i + 1) == sextet(b, i + 1));
        assert(i / 4 == m && (i + 1) / 4 == m);
    }
    assert(a =~= b);
}

/// A base64 text holds letters, digits, hyphens and underscores only.
pub proof fn law_base64_is_plain_text(data: Seq<u8>)
    ensures
        forall|i: int|
            0 <= i < base64_url(data).len() ==> {
                let c = #[trigger] base64_url(data)[i];
                ||| 'A' <= c <= 'Z'
                ||| 'a' <= c <= 'z'
                ||| '0' <= c <= '9'
                ||| c == '-'
                ||| c == '_'
            },
{
    assert forall|i: int| 0 <= i < base64_url(data).len() implies {
        let c = #[trigger] base64_url(data)[i];
        ||| 'A' <= c <= 'Z'
        ||| 'a' <= c <= 'z'
        ||| '0' <= c <= '9'
        ||| c == '-'
        ||| c == '_'
    } by {
        lemma_sextet_range(data, i);
        let v = sextet(data, i);
        assert(base64_url(data)[i] == base64_symbol(v));
        assert(base64_symbol(v) as int == (if v < 26 {
            65 + v
        } else if v < 52 {
            71 + v
        } else if v < 62 {
            v - 4
        } else if v == 62 {
            45
        } else {
            95
        }));
    }
}

/// A lower-case hexadecimal digit.
pub open spec fn is_hex_digit(c: char) -> bool {
    ('0' <= c && c <= '9') || ('a' <= c && c <= 'f')
}

/// A run of lower-case hexadecimal digits.
pub open spec fn is_hex(text: Seq<char>) -> bool {
    forall|i: int| 0 <= i < text.len() ==> is_hex_digit(#[trigger] text[i])
}

/// The digits that tell the variant of a random UUID.
pub open spec fn is_variant_digit(c: char) -> bool {
    c == '8' || c == '9' || c == 'a' || c == 'b'
}

/// The 32 hexadecimal digits of a random (version 4) UUID.
pub open spec fn is_simple_uuid(text: Seq<char>) -> bool {
    &&& text.len() == 32
    &&& is_hex(text)
    &&& text[12] == '4'
    &&& is_variant_digit(text[16])
}

/// A random (version 4) UUID in its hyphenated form.
pub open spec fn is_hyphenated_uuid(text: Seq<char>) -> bool {
    &&& text.len() == 36
    &&& text[14] == '4'
    &&& is_variant_digit(text[19])
    &&& forall|i: int|
        0 <= i < 36 ==> if i == 8 || i == 13 || i == 18 || i == 23 {
            #[trigger] text[i] == '-'
        } else {
            is_hex_digit(text[i])
        }
}

/// `uuid::Uuid::new_v4` in its `simple` form: 32 lower-case hexadecimal digits with the version
/// digit and a variant digit in their places. Which the others are is left to chance.
#[verifier::external_body]
pub(crate) fn random_simple_uuid() -> (r: String)
    ensures
        is_simple_uuid(r@),
{
    uuid::Uuid::new_v4().simple().to_string()
}

/// `uuid::Uuid::new_v4` in its default form: 36 characters, lower-case hexadecimal digits in
/// groups set off by hyphens, with the version digit and a variant digit in their places. Which
/// the others are is left to chance.
#[verifier::external_body]
pub(crate) fn random_hyphenated_uuid() -> (r: String)
    ensures
        is_hyphenated_uuid(r@),
{
    uuid::Uuid::new_v4().to_string()
}

} // verus!

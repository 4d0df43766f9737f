//! HTML text: template pieces taken verbatim, values escaped.

use crate::text::{decimal, decimal_text};
use vstd::prelude::*;

verus! {

/// How one character stands in HTML text or in a double-quoted attribute.
pub open spec fn escaped_char(c: char) -> Seq<char> {
    if c == '&' {
        seq!['&', 'a', 'm', 'p', ';']
    } else if c == '<' {
        seq!['&', 'l', 't', ';']
    } else if c == '>' {
        seq!['&', 'g', 't', ';']
    } else if c == '"' {
        seq!['&', 'q', 'u', 'o', 't', ';']
    } else {
        seq![c]
    }
}

/// `s` with each character escaped.
pub open spec fn escaped(s: Seq<char>) -> Seq<char>
    decreases s.len(),
{
    if s.len() == 0 {
        Seq::empty()
    } else {
        escaped(s.drop_last()) + escaped_char(s.last())
    }
}

/// Whether a character is one that escaping rewrites.
pub open spec fn is_markup_char(c: char) -> bool {
    c == '&' || c == '<' || c == '>' || c == '"'
}

/// `maud::Render::render_to` for `str`: appends the text with `&`, `<`, `>` and `"` replaced
/// by their character references and every other character as it is.
#[verifier::external_body]
fn push_escaped(out: &mut String, text: &str)
    ensures
        final(out)@ == old(out)@ + escaped(text@),
{
    maud::Render::render_to(text, out);
}

/// A piece of HTML.
#[derive(Clone, Debug, PartialEq, Eq)]
pub struct Markup {
    html: String,
}

impl View for Markup {
    type V = Seq<char>;

    closed spec fn view(&self) -> Seq<char> {
        self.html@
    }
}

impl Markup {
    /// No markup.
    pub fn empty() -> (r: Self)
        ensures
            r@ == Seq::<char>::empty(),
    {
        Markup { html: String::new() }
    }

    /// A template piece, taken as HTML.
    pub fn verbatim(piece: &str) -> (r: Markup)
        ensures
            r@ == piece@,
    {
        Markup { html: piece.to_owned() }
    }

    /// Appends a template piece, taken as HTML.
    pub fn push(&mut self, piece: &str)
        ensures
            final(self)@ == old(self)@ + piece@,
    {
        self.html.append(piece);
    }

    /// Appends a value, escaped.
    pub fn text(&mut self, value: &str)
        ensures
            final(self)@ == old(self)@ + escaped(value@),
    {
        push_escaped(&mut self.html, value);
    }

    /// Appends a number in decimal.
    pub fn number(&mut self, value: u64)
        ensures
            final(self)@ == old(self)@ + decimal(value as nat),
    {
        let numeral = decimal_text(value);
        self.html.append(numeral.as_str());
    }

    /// Appends finished markup.
    pub fn markup(&mut self, part: &Markup)
        ensures
            final(self)@ == old(self)@ + part@,
    {
        self.html.append(part.html.as_str());
    }

    /// The HTML text.
    pub fn into_string(self) -> (r: String)
        ensures
            r@ == self@,
    {
        self.html
    }
}

/// Escaping distributes over concatenation.
pub proof fn law_escape_of_concat(a: Seq<char>, b: Seq<char>)
    ensures
        escaped(a + b) == escaped(a) + escaped(b),
    decreases b.len(),
{
    if b.len() == 0 {
        assert(a + b =~= a);
        assert(escaped(a) + escaped(b) =~= escaped(a));
    } else {
        assert((a + b).drop_last() =~= a + b.drop_last());
        law_escape_of_concat(a, b.drop_last());
        assert(escaped(a + b) =~= escaped(a) + escaped(b));
    }
}

/// An escaped value can neither open nor close a tag nor end a double-quoted attribute.
pub proof fn law_escaped_text_is_inert(s: Seq<char>)
    ensures
        forall|i: int|
            0 <= i < escaped(s).len() ==> {
                let c = #[trigger] escaped(s)[i];
                c != '<' && c != '>' && c != '"'
            },
    decreases s.len(),
{
    if s.len() > 0 {
        law_escaped_text_is_inert(s.drop_last());
        let head = escaped(s.drop_last());
        let tail = escaped_char(s.last());
        assert forall|i: int| 0 <= i < escaped(s).len() implies {
            let c = #[trigger] escaped(s)[i];
            c != '<' && c != '>' && c != '"'
        } by {
            if i < head.len() {
                assert(escaped(s)[i] == head[i]);
            } else {
                assert(escaped(s)[i] == tail[i - head.len()]);
            }
        }
    }
}

/// A value without markup characters is escaped to itself.
pub proof fn law_plain_text_is_unchanged(s: Seq<char>)
    requires
        forall|i: int| 0 <= i < s.len() ==> !is_markup_char(#[trigger] s[i]),
    ensures
        escaped(s) == s,
    decreases s.len(),
{
    if s.len() > 0 {
        assert forall|i: int| 0 <= i < s.drop_last().len() implies !is_markup_char(
            #[trigger] s.drop_last()[i],
        ) by {
            assert(s.drop_last()[i] == s[i]);
        }
        law_plain_text_is_unchanged(s.drop_last());
        assert(escaped(s) =~= s);
    } else {
        assert(escaped(s) =~= s);
    }
}

proof fn lemma_escape_from_front(s: Seq<char>)
    requires
        s.len() > 0,
    ensures
        escaped(s) == escaped_char(s[0]) + escaped(s.skip(1)),
{
    let first = seq![s[0]];
    assert(s =~= first + s.skip(1));
    law_escape_of_concat(first, s.skip(1));
    assert(first.drop_last() =~= Seq::<char>::empty());
    assert(escaped(first.drop_last()) =~= Seq::<char>::empty());
    assert(escaped(first) =~= escaped_char(s[0]));
}

/// Different values are escaped differently: a browser can recover the value.
pub proof fn law_escaping_loses_nothing(a: Seq<char>, b: Seq<char>)
    requires
        escaped(a) == escaped(b),
    ensures
        a == b,
    decreases a.len(),
{
    if a.len() > 0 {
        lemma_escape_from_front(a);
    }
    if b.len() > 0 {
        lemma_escape_from_front(b);
    }
    if a.len() == 0 {
        assert(escaped(a).len() == 0);
        if b.len() > 0 {
            assert(escaped(b).len() >= escaped_char(b[0]).len());
            assert(escaped_char(b[0]).len() > 0);
            assert(false);
        }
        assert(a =~= b);
    } else if b.len() == 0 {
        assert(escaped(b).len() == 0);
        assert(escaped(a).len() >= escaped_char(a[0]).len());
        assert(escaped_char(a[0]).len() > 0);
        assert(false);
    } else {
        let ea = escaped_char(a[0]);
        let eb = escaped_char(b[0]);
        assert(escaped(a)[0] == ea[0]);
        assert(escaped(b)[0] == eb[0]);
        if is_markup_char(a[0]) && is_markup_char(b[0]) {
            assert(escaped(a)[1] == ea[1]);
            assert(escaped(b)[1] == eb[1]);
        }
        assert(a[0] == b[0]);
        assert(escaped(a).skip(ea.len() as int) =~= escaped(a.skip(1)));
        assert(escaped(b).skip(eb.len() as int) =~= escaped(b.skip(1)));
        law_escaping_loses_nothing(a.skip(1), b.skip(1));
        assert(a =~= seq![a[0]] + a.skip(1));
        assert(b =~= seq![b[0]] + b.skip(1));
    }
}

} // verus!

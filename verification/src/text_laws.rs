//! What trimming, cutting, lower case and numerals are, told by what they give back rather than by
//! how they go about it.

use crate::text::{
    after_last, ascii_lower, ascii_lowered, decimal, is_blank, is_white_space, is_without,
    law_blanks_are_trimmed, lemma_after_last, lemma_decimal_digits, trimmed, without_leading_space,
    without_trailing_char, without_trailing_space,
};
use vstd::prelude::*;

verus! {

/// The characters that Unicode counts as white space, one by one.
pub open spec fn white_space() -> Seq<char> {
    seq![
        '\t',
        '\n',
        '\u{b}',
        '\u{c}',
        '\r',
        ' ',
        '\u{85}',
        '\u{a0}',
        '\u{1680}',
        '\u{2000}',
        '\u{2001}',
        '\u{2002}',
        '\u{2003}',
        '\u{2004}',
        '\u{2005}',
        '\u{2006}',
        '\u{2007}',
        '\u{2008}',
        '\u{2009}',
        '\u{200a}',
        '\u{2028}',
        '\u{2029}',
        '\u{202f}',
        '\u{205f}',
        '\u{3000}',
    ]
}

/// A character counts as white space exactly where it is one of those listed.
pub proof fn law_white_space_is_listed(c: char)
    ensures
        is_white_space(c) <==> white_space().contains(c),
{
    let list = white_space();
    let n = c as int;
    if is_white_space(c) {
        let i: int = if n <= 13 {
            n - 9
        } else if n == 0x20 {
            5
        } else if n == 0x85 {
            6
        } else if n == 0xa0 {
            7
        } else if n == 0x1680 {
            8
        } else if n <= 0x200a {
            n - 0x2000 + 9
        } else if n == 0x2028 {
            20
        } else if n == 0x2029 {
            21
        } else if n == 0x202f {
            22
        } else if n == 0x205f {
            23
        } else {
            24
        };
        assert(list[i] == c);
    }
    if list.contains(c) {
        let i = choose|i: int| 0 <= i < list.len() && list[i] == c;
        assert(list[i] == c);
    }
}

/// Trimming takes the white space from both ends and nothing else: whatever a text is that begins
/// and ends with other characters, it is what is left of it once white space was put around it.
pub proof fn law_trimming_keeps_the_core(before: Seq<char>, core: Seq<char>, after: Seq<char>)
    requires
        is_blank(before),
        is_blank(after),
        core.len() > 0 ==> !white_space().contains(core[0]) && !white_space().contains(core.last()),
    ensures
        trimmed(before + core + after) == core,
{
    law_blanks_are_trimmed(before, core, after);
    if core.len() > 0 {
        law_white_space_is_listed(core[0]);
        law_white_space_is_listed(core.last());
    }
    assert(without_leading_space(core) == core);
    assert(without_trailing_space(core) == core);
}

/// Cutting a run of one character from the end leaves what stands before it, however long the run
/// is.
pub proof fn law_trailing_run_is_cut(core: Seq<char>, c: char, n: nat)
    requires
        core.len() > 0 ==> core.last() != c,
    ensures
        without_trailing_char(core + Seq::new(n, |i: int| c), c) == core,
    decreases n,
{
    let run = Seq::new(n, |i: int| c);
    if n == 0 {
        assert(core + run =~= core);
    } else {
        let shorter = Seq::new((n - 1) as nat, |i: int| c);
        assert((core + run).last() == c);
        assert((core + run).drop_last() =~= core + shorter);
        law_trailing_run_is_cut(core, c, (n - 1) as nat);
    }
}

/// What stands behind the last occurrence of a character is the piece without it at the end.
pub proof fn law_last_piece_is_found(before: Seq<char>, piece: Seq<char>, c: char)
    requires
        is_without(piece, c),
    ensures
        after_last(piece, c) == piece,
        after_last(before.push(c) + piece, c) == piece,
{
    lemma_after_last(before, piece, c);
}

/// The number that a row of decimal digits stands for.
pub open spec fn numeral_value(digits: Seq<char>) -> int
    decreases digits.len(),
{
    if digits.len() == 0 {
        0
    } else {
        10 * numeral_value(digits.drop_last()) + (digits.last() as int - '0' as int)
    }
}

/// A numeral is read back as its number, is made of digits, and has no leading zero.
pub proof fn law_numerals_are_read_back(n: nat)
    ensures
        numeral_value(decimal(n)) == n,
        forall|i: int| 0 <= i < decimal(n).len() ==> '0' <= #[trigger] decimal(n)[i] <= '9',
        decimal(n).len() > 0,
        decimal(n)[0] == '0' ==> n == 0,
    decreases n,
{
    lemma_decimal_digits(n);
    if n < 10 {
        assert(decimal(n).drop_last() =~= Seq::<char>::empty());
        assert(numeral_value(decimal(n).drop_last()) == 0);
    } else {
        law_numerals_are_read_back(n / 10);
        assert(decimal(n).drop_last() =~= decimal(n / 10));
        assert(decimal(n)[0] == decimal(n / 10)[0]);
    }
}

/// Lower case changes the upper-case ASCII letters to the letters 32 places on, and no other
/// character; a text is put in lower case character by character.
pub proof fn law_lower_case_changes_letters_only(text: Seq<char>)
    ensures
        ascii_lowered(text).len() == text.len(),
        forall|i: int|
            0 <= i < text.len() ==> {
                let c = text[i];
                let lowered = #[trigger] ascii_lowered(text)[i];
                &&& 65 <= c as int <= 90 ==> lowered as int == c as int + 32
                &&& !(65 <= c as int <= 90) ==> lowered == c
            },
{
    assert forall|i: int| 0 <= i < text.len() implies {
        let c = text[i];
        let lowered = #[trigger] ascii_lowered(text)[i];
        &&& 65 <= c as int <= 90 ==> lowered as int == c as int + 32
        &&& !(65 <= c as int <= 90) ==> lowered == c
    } by {
        assert(ascii_lowered(text)[i] == ascii_lower(text[i]));
    }
}

/// Whether a piece stands somewhere in a text.
pub open spec fn occurs(text: Seq<char>, piece: Seq<char>) -> bool {
    exists|before: Seq<char>, after: Seq<char>| text == #[trigger] (before + piece + after)
}

/// A piece that is read at a place of a text stands in it.
pub proof fn lemma_occurs_at(text: Seq<char>, piece: Seq<char>, i: int)
    requires
        0 <= i <= i + piece.len() <= text.len(),
        text.subrange(i, i + piece.len()) == piece,
    ensures
        occurs(text, piece),
{
    let before = text.take(i);
    let after = text.skip(i + piece.len());
    assert(text =~= before + piece + after) by {
        assert forall|j: int| 0 <= j < text.len() implies text[j] == (before + piece + after)[j] by {
            if i <= j < i + piece.len() {
                assert(text.subrange(i, i + piece.len())[j - i] == text[j]);
            }
        }
    }
}

} // verus!

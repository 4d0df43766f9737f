//! The cookies that a request carries.

use crate::headers::{header_texts, opt_string_views, read_header};
use crate::text::{
    before_first, chars_of, is_without, lacks, lemma_before_first, opt_string, starts_with, trim,
    trimmed,
};
use axum::http::{HeaderMap, HeaderValue};
use vstd::prelude::*;

verus! {

/// The value of a `name=value` pair, white space at its ends aside, where it has that name.
pub open spec fn pair_value(pair: Seq<char>, name: Seq<char>) -> Option<Seq<char>> {
    if is_without(name, '=') && name.push('=').is_prefix_of(trimmed(pair)) {
        Some(trimmed(pair).skip(name.len() as int + 1))
    } else {
        None
    }
}

/// The value of the first pair with a name in a line of pairs set off by semicolons.
pub open spec fn cookie_in_line(line: Seq<char>, name: Seq<char>) -> Option<Seq<char>>
    decreases line.len(),
{
    let pair = before_first(line, ';');
    match pair_value(pair, name) {
        Some(value) => Some(value),
        None => if pair.len() < line.len() {
            cookie_in_line(line.skip(pair.len() as int + 1), name)
        } else {
            None
        },
    }
}

/// The value of the first pair with a name in the lines that can be read.
pub open spec fn cookie_in_lines(
    lines: Seq<Option<Seq<char>>>,
    name: Seq<char>,
) -> Option<Seq<char>>
    decreases lines.len(),
{
    if lines.len() == 0 {
        None
    } else {
        match lines[0] {
            Some(line) if cookie_in_line(line, name) is Some => cookie_in_line(line, name),
            _ => cookie_in_lines(lines.skip(1), name),
        }
    }
}

/// The value of a cookie of a request.
pub open spec fn cookie_in(headers: HeaderMap<HeaderValue>, name: Seq<char>) -> Option<Seq<char>> {
    cookie_in_lines(header_texts(headers, "cookie"@), name)
}

fn value_in_pair(pair: &str, name: &str) -> (r: Option<String>)
    ensures
        opt_string(r) == pair_value(pair@, name@),
{
    if !lacks(name, '=') {
        return None;
    }
    let text = trim(pair);
    let mut key = name.to_owned();
    key.append("=");
    proof {
        reveal_strlit("=");
    }
    assert(key@ =~= name@.push('='));
    if !starts_with(text, key.as_str()) {
        return None;
    }
    let end: usize = chars_of(text).len();
    let start: usize = chars_of(key.as_str()).len();
    assert(text@.subrange(start as int, end as int) =~= text@.skip(name@.len() as int + 1));
    Some(text.substring_char(start, end).to_owned())
}

fn value_in_line(line: &str, name: &str) -> (r: Option<String>)
    ensures
        opt_string(r) == cookie_in_line(line@, name@),
{
    let chars = chars_of(line);
    let mut start: usize = 0;
    assert(line@.skip(0) =~= line@);
    loop
        invariant
            chars@ == line@,
            start <= chars.len(),
            cookie_in_line(line@, name@) == cookie_in_line(line@.skip(start as int), name@),
        decreases chars.len() - start,
    {
        let ghost rest = line@.skip(start as int);
        let mut end: usize = start;
        while end < chars.len() && chars[end] != ';'
            invariant
                chars@ == line@,
                start <= end <= chars.len(),
                forall|i: int| start <= i < end ==> #[trigger] chars@[i] != ';',
            decreases chars.len() - end,
        {
            end += 1;
        }
        proof {
            let k = end - start;
            assert forall|i: int| 0 <= i < k implies #[trigger] rest[i] != ';' by {
                assert(rest[i] == chars@[start + i]);
            }
            lemma_before_first(rest, ';', k);
            assert(line@.subrange(start as int, end as int) =~= rest.take(k));
        }
        let pair = line.substring_char(start, end);
        match value_in_pair(pair, name) {
            Some(value) => {
                return Some(value);
            },
            None => {
                if end == chars.len() {
                    return None;
                }
                assert(rest.skip(end - start + 1) =~= line@.skip(end + 1));
                start = end + 1;
            },
        }
    }
}

/// The value of a cookie of a request: the first one of that name in the `Cookie` headers.
pub fn cookie_value(headers: &HeaderMap, name: &str) -> (r: Option<String>)
    ensures
        opt_string(r) == cookie_in(*headers, name@),
{
    proof {
        reveal_strlit("cookie");
    }
    let lines = read_header(headers, "cookie");
    let ghost texts = header_texts(*headers, "cookie"@);
    assert(opt_string_views(lines@).len() == texts.len());
    let mut i: usize = 0;
    assert(texts.skip(0) =~= texts);
    while i < lines.len()
        invariant
            i <= lines.len(),
            texts == header_texts(*headers, "cookie"@),
            lines@.len() == texts.len(),
            opt_string_views(lines@) == texts,
            cookie_in_lines(texts, name@) == cookie_in_lines(texts.skip(i as int), name@),
        decreases lines.len() - i,
    {
        assert(opt_string_views(lines@)[i as int] == texts[i as int]);
        assert(texts.skip(i as int)[0] == texts[i as int]);
        assert(texts.skip(i as int).skip(1) =~= texts.skip(i + 1));
        if let Some(line) = &lines[i] {
            let found = value_in_line(line.as_str(), name);
            if found.is_some() {
                return found;
            }
        }
        i += 1;
    }
    None
}

/// The pairs of a line are read in order: one that stands later is read only where no earlier one
/// has the name.
pub proof fn law_pairs_are_read_in_order(before: Seq<char>, after: Seq<char>, name: Seq<char>)
    ensures
        cookie_in_line(before + ";"@ + after, name) == match cookie_in_line(before, name) {
            Some(value) => Some(value),
            None => cookie_in_line(after, name),
        },
    decreases before.len(),
{
    reveal_strlit(";");
    let line = before + ";"@ + after;
    let pair = before_first(before, ';');
    lemma_up_to_semicolon(before);
    if pair.len() == before.len() {
        assert forall|i: int| 0 <= i < before.len() implies #[trigger] line[i] != ';' by {
            assert(line[i] == before[i]);
            assert(before.take(pair.len() as int)[i] == before[i]);
        }
        lemma_before_first(line, ';', before.len() as int);
        assert(line.take(before.len() as int) =~= before);
        assert(before.take(before.len() as int) =~= before);
        assert(line.skip(before.len() as int + 1) =~= after);
    } else {
        let k = pair.len() as int;
        assert forall|i: int| 0 <= i < k implies #[trigger] line[i] != ';' by {
            assert(line[i] == before[i]);
            assert(pair[i] == before[i]);
        }
        assert(line[k] == before[k]);
        lemma_before_first(line, ';', k);
        assert(line.take(k) =~= pair);
        assert(line.skip(k + 1) =~= before.skip(k + 1) + ";"@ + after);
        law_pairs_are_read_in_order(before.skip(k + 1), after, name);
    }
}

proof fn lemma_up_to_semicolon(s: Seq<char>)
    ensures
        before_first(s, ';').len() <= s.len(),
        before_first(s, ';') == s.take(before_first(s, ';').len() as int),
        is_without(before_first(s, ';'), ';'),
        before_first(s, ';').len() < s.len() ==> s[before_first(s, ';').len() as int] == ';',
    decreases s.len(),
{
    let head = before_first(s, ';');
    if s.len() == 0 || s[0] == ';' {
        assert(head =~= s.take(0));
    } else {
        lemma_up_to_semicolon(s.skip(1));
        let tail = before_first(s.skip(1), ';');
        assert(head =~= s.take(head.len() as int)) by {
            assert forall|i: int| 0 < i < head.len() implies #[trigger] head[i] == s[i] by {
                assert(head[i] == tail[i - 1]);
                assert(s.skip(1).take(tail.len() as int)[i - 1] == s[i]);
            }
        }
        assert forall|i: int| 0 <= i < head.len() implies #[trigger] head[i] != ';' by {
            if i > 0 {
                assert(head[i] == tail[i - 1]);
            }
        }
    }
}

/// A cookie that a browser sends back as it was set is read back.
pub proof fn law_cookie_is_read_back(name: Seq<char>, value: Seq<char>)
    requires
        is_without(name, '='),
        is_without(name, ';'),
        is_without(value, ';'),
        trimmed(name + "="@ + value) == name + "="@ + value,
    ensures
        cookie_in_lines(seq![Some(name + "="@ + value)], name) == Some(value),
{
    reveal_strlit("=");
    let line = name + "="@ + value;
    assert(line =~= name.push('=') + value);
    assert forall|i: int| 0 <= i < line.len() implies #[trigger] line[i] != ';' by {
        if i < name.len() {
            assert(line[i] == name[i]);
        } else if i > name.len() {
            assert(line[i] == value[i - name.len() - 1]);
        }
    }
    lemma_before_first(line, ';', line.len() as int);
    assert(line.take(line.len() as int) =~= line);
    assert(line.subrange(0, name.len() as int + 1) =~= name.push('='));
    assert(line.skip(name.len() as int + 1) =~= value);
    assert(pair_value(line, name) == Some(value));
}

/// A pair is read exactly where it is the name, an equals sign and the value, white space at its ends
/// aside.
pub proof fn law_pair_is_name_and_value(pair: Seq<char>, name: Seq<char>, value: Seq<char>)
    ensures
        pair_value(pair, name) == Some(value) <==> is_without(name, '=') && trimmed(pair) == name
            + "="@ + value,
{
    reveal_strlit("=");
    let text = trimmed(pair);
    let key = name.push('=');
    assert(name + "="@ + value =~= key + value);
    if pair_value(pair, name) == Some(value) {
        assert(text.subrange(0, key.len() as int) == key);
        assert(text =~= text.subrange(0, key.len() as int) + text.skip(key.len() as int));
    }
    if text == key + value {
        assert(text.subrange(0, key.len() as int) =~= key);
        assert(text.skip(key.len() as int) =~= value);
    }
}

/// A line of one pair is read as that pair.
pub proof fn law_line_of_one_pair(pair: Seq<char>, name: Seq<char>)
    requires
        is_without(pair, ';'),
    ensures
        cookie_in_line(pair, name) == pair_value(pair, name),
{
    lemma_before_first(pair, ';', pair.len() as int);
    assert(pair.take(pair.len() as int) =~= pair);
}

/// The lines are read in order: one that comes later is read only where no earlier one has the name,
/// and one that cannot be read counts for nothing.
pub proof fn law_lines_are_read_in_order(
    before: Seq<Option<Seq<char>>>,
    line: Seq<char>,
    after: Seq<Option<Seq<char>>>,
    name: Seq<char>,
)
    ensures
        cookie_in_lines(Seq::empty(), name) is None,
        cookie_in_lines(before.push(Some(line)) + after, name) == match cookie_in_lines(
            before,
            name,
        ) {
            Some(value) => Some(value),
            None => match cookie_in_line(line, name) {
                Some(value) => Some(value),
                None => cookie_in_lines(after, name),
            },
        },
        cookie_in_lines(before.push(None) + after, name) == match cookie_in_lines(before, name) {
            Some(value) => Some(value),
            None => cookie_in_lines(after, name),
        },
    decreases before.len(),
{
    let read = before.push(Some(line)) + after;
    let unread = before.push(None) + after;
    if before.len() == 0 {
        assert(read[0] == Some(line));
        assert(unread[0] is None);
        assert(read.skip(1) =~= after);
        assert(unread.skip(1) =~= after);
    } else {
        assert(read[0] == before[0]);
        assert(unread[0] == before[0]);
        assert(read.skip(1) =~= before.skip(1).push(Some(line)) + after);
        assert(unread.skip(1) =~= before.skip(1).push(None) + after);
        law_lines_are_read_in_order(before.skip(1), line, after, name);
    }
}

} // verus!

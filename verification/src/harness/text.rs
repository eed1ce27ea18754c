//! Looking into texts: for a part, line by line, and without the whitespace
//! at their ends.

use vstd::prelude::*;

use crate::strings::{chars_of, text_of};

verus! {

/// Whether a part stands at a place of a text.
pub open spec fn stands_at(text: Seq<char>, part: Seq<char>, at: int) -> bool {
    0 <= at <= text.len() - part.len() && text.subrange(at, at + part.len()) == part
}

/// Whether a text contains a part.
pub open spec fn contains_text(text: Seq<char>, part: Seq<char>) -> bool {
    exists|at: int| #[trigger] stands_at(text, part, at)
}

/// The first place at or after `from` where a part stands.
pub open spec fn first_place(text: Seq<char>, part: Seq<char>, from: int) -> Option<int>
    decreases text.len() - part.len() - from + 1,
{
    if from > text.len() - part.len() {
        None
    } else if stands_at(text, part, from) {
        Some(from)
    } else {
        first_place(text, part, from + 1)
    }
}

/// The first place is found exactly where there is one, and is the first.
pub proof fn the_first_place_is_first(text: Seq<char>, part: Seq<char>, from: int)
    requires
        0 <= from,
    ensures
        match first_place(text, part, from) {
            Some(at) => from <= at && stands_at(text, part, at) && forall|earlier: int|
                from <= earlier < at ==> !#[trigger] stands_at(text, part, earlier),
            None => forall|at: int| from <= at ==> !#[trigger] stands_at(text, part, at),
        },
    decreases text.len() - part.len() - from + 1,
{
    if from <= text.len() - part.len() && !stands_at(text, part, from) {
        the_first_place_is_first(text, part, from + 1);
    }
}

/// The first place at or after `from` where a part stands.
pub fn find_from(text: &[char], part: &[char], from: usize) -> (place: Option<usize>)
    ensures
        match place {
            Some(at) => first_place(text@, part@, from as int) == Some(at as int),
            None => first_place(text@, part@, from as int) is None,
        },
{
    if part.len() > text.len() {
        return None;
    }
    let total: usize = text.len();
    let last: usize = total - part.len();
    let mut at: usize = from;
    while at <= last
        invariant
            total == text@.len(),
            last == total - part@.len(),
            from <= at,
            first_place(text@, part@, at as int) == first_place(text@, part@, from as int),
        decreases last + 1 - at,
    {
        let mut matched: usize = 0;
        while matched < part.len() && text[at + matched] == part[matched]
            invariant
                matched <= part.len(),
                at + part@.len() <= total,
                total == text@.len(),
                forall|i: int| 0 <= i < matched ==> text@[at + i] == #[trigger] part@[i],
            decreases part.len() - matched,
        {
            matched += 1;
        }
        if matched == part.len() {
            assert(text@.subrange(at as int, at + part@.len()) =~= part@);
            return Some(at);
        }
        assert(text@.subrange(at as int, at + part@.len())[matched as int] != part@[matched as int]);
        if at == last {
            return None;
        }
        at += 1;
    }
    None
}

/// Whether a text contains a part.
pub fn contains(text: &str, part: &str) -> (found: bool)
    ensures
        found == contains_text(text@, part@),
{
    let place = find_from(&chars_of(text), &chars_of(part), 0);
    proof {
        the_first_place_is_first(text@, part@, 0);
        if place is Some {
            assert(stands_at(text@, part@, place->0 as int));
        }
    }
    place.is_some()
}

/// Whether a character is whitespace: the characters with the Unicode property
/// `White_Space`.
pub open spec fn is_blank_char(c: char) -> bool {
    let code = c as int;
    9 <= code <= 13 || code == 0x20 || code == 0x85 || code == 0xA0 || code == 0x1680 || 0x2000
        <= code <= 0x200A || code == 0x2028 || code == 0x2029 || code == 0x202F || code == 0x205F
        || code == 0x3000
}

fn is_blank(c: char) -> (blank: bool)
    ensures
        blank == is_blank_char(c),
{
    let code = c as u32;
    (9 <= code && code <= 13) || code == 0x20 || code == 0x85 || code == 0xA0 || code == 0x1680 || (
    0x2000 <= code && code <= 0x200A) || code == 0x2028 || code == 0x2029 || code == 0x202F || code
        == 0x205F || code == 0x3000
}

/// A text without the whitespace at its start.
pub open spec fn without_leading(text: Seq<char>) -> Seq<char>
    decreases text.len(),
{
    if text.len() > 0 && is_blank_char(text[0]) {
        without_leading(text.skip(1))
    } else {
        text
    }
}

/// A text without the whitespace at its end.
pub open spec fn without_trailing(text: Seq<char>) -> Seq<char>
    decreases text.len(),
{
    if text.len() > 0 && is_blank_char(text.last()) {
        without_trailing(text.drop_last())
    } else {
        text
    }
}

/// A text without the whitespace at its ends.
pub open spec fn trimmed(text: Seq<char>) -> Seq<char> {
    without_trailing(without_leading(text))
}

proof fn leading_is_gone(text: Seq<char>)
    ensures
        without_leading(text).len() > 0 ==> !is_blank_char(without_leading(text)[0]),
    decreases text.len(),
{
    if text.len() > 0 && is_blank_char(text[0]) {
        leading_is_gone(text.skip(1));
    }
}

proof fn trailing_is_gone(text: Seq<char>)
    ensures
        without_trailing(text).len() > 0 ==> !is_blank_char(without_trailing(text).last())
            && without_trailing(text)[0] == text[0],
    decreases text.len(),
{
    if text.len() > 0 && is_blank_char(text.last()) {
        trailing_is_gone(text.drop_last());
    }
}

/// What is left of a text has no whitespace at either end.
pub proof fn trimming_leaves_no_whitespace_at_the_ends(text: Seq<char>)
    ensures
        trimmed(text).len() > 0 ==> !is_blank_char(trimmed(text)[0]) && !is_blank_char(
            trimmed(text).last(),
        ),
{
    leading_is_gone(text);
    trailing_is_gone(without_leading(text));
    if trimmed(text).len() > 0 {
        trailing_shortens(without_leading(text));
    }
}

proof fn trailing_shortens(text: Seq<char>)
    ensures
        without_trailing(text).len() <= text.len(),
    decreases text.len(),
{
    if text.len() > 0 && is_blank_char(text.last()) {
        trailing_shortens(text.drop_last());
    }
}

/// The characters without the whitespace at their ends.
pub fn trim_chars(chars: &[char]) -> (left: Vec<char>)
    ensures
        left@ == trimmed(chars@),
{
    let mut start: usize = 0;
    assert(chars@.skip(0) =~= chars@);
    while start < chars.len() && is_blank(chars[start])
        invariant
            start <= chars.len(),
            without_leading(chars@.skip(start as int)) == without_leading(chars@),
        decreases chars.len() - start,
    {
        assert(chars@.skip(start as int).skip(1) =~= chars@.skip(start + 1));
        start += 1;
    }
    assert(chars@.skip(start as int) == without_leading(chars@));
    let mut left = cut(chars, start, chars.len());
    assert(left@ =~= chars@.skip(start as int));
    while left.len() > 0 && is_blank(left[left.len() - 1])
        invariant
            without_trailing(left@) == trimmed(chars@),
        decreases left.len(),
    {
        let n: usize = left.len();
        let ghost before = left@;
        left.truncate(n - 1);
        assert(left@ =~= before.drop_last());
    }
    left
}

/// A text without the whitespace at its ends.
pub fn trim(text: &str) -> (left: String)
    ensures
        left@ == trimmed(text@),
{
    text_of(&trim_chars(&chars_of(text)))
}

/// The place of the first line feed at or after `from`, or the text's end.
pub open spec fn line_end(text: Seq<char>, from: int) -> int
    decreases text.len() - from,
{
    if from < 0 || from >= text.len() || text[from] == '\n' {
        from
    } else {
        line_end(text, from + 1)
    }
}

proof fn line_end_bounds(text: Seq<char>, from: int)
    requires
        0 <= from <= text.len(),
    ensures
        from <= line_end(text, from) <= text.len(),
        forall|i: int| from <= i < line_end(text, from) ==> #[trigger] text[i] != '\n',
        line_end(text, from) < text.len() ==> text[line_end(text, from)] == '\n',
    decreases text.len() - from,
{
    if from < text.len() && text[from] != '\n' {
        line_end_bounds(text, from + 1);
    }
}

/// The line that starts at `from`: up to the line feed, and without a carriage
/// return right before that line feed.
pub open spec fn line_at(text: Seq<char>, from: int) -> Seq<char> {
    let end = line_end(text, from);
    if from < end < text.len() && text[end - 1] == '\r' {
        text.subrange(from, end - 1)
    } else {
        text.subrange(from, end)
    }
}

/// The lines of a text from a place on. Each ends in a line feed, but the last
/// need not; after a line feed that ends the text there is no further line.
pub open spec fn lines_from(text: Seq<char>, from: int) -> Seq<Seq<char>>
    decreases text.len() - from,
{
    if from < 0 || from >= text.len() {
        Seq::empty()
    } else {
        let end = line_end(text, from);
        if end < from || end >= text.len() {
            seq![line_at(text, from)]
        } else {
            seq![line_at(text, from)] + lines_from(text, end + 1)
        }
    }
}

/// The lines of a text.
pub open spec fn lines_of(text: Seq<char>) -> Seq<Seq<char>> {
    lines_from(text, 0)
}

/// No line holds a line feed.
pub proof fn a_line_holds_no_line_feed(text: Seq<char>, from: int)
    requires
        0 <= from,
    ensures
        forall|i: int, j: int|
            0 <= i < lines_from(text, from).len() && 0 <= j < lines_from(text, from)[i].len()
                ==> #[trigger] lines_from(text, from)[i][j] != '\n',
    decreases text.len() - from,
{
    if from < text.len() {
        line_end_bounds(text, from);
        let end = line_end(text, from);
        if end < text.len() {
            a_line_holds_no_line_feed(text, end + 1);
            let rest = lines_from(text, end + 1);
            assert forall|i: int, j: int|
                0 <= i < lines_from(text, from).len() && 0 <= j < lines_from(
                    text,
                    from,
                )[i].len() implies #[trigger] lines_from(text, from)[i][j] != '\n' by {
                if i > 0 {
                    assert(lines_from(text, from)[i] == rest[i - 1]);
                    assert(rest[i - 1][j] != '\n');
                }
            }
        }
    }
}

/// A list of lines, by what each holds.
pub open spec fn lines_view(lines: Seq<Vec<char>>) -> Seq<Seq<char>> {
    lines.map_values(|line: Vec<char>| line@)
}

/// The characters from one place of a text up to another.
pub fn cut(chars: &[char], from: usize, to: usize) -> (part: Vec<char>)
    requires
        from <= to <= chars@.len(),
    ensures
        part@ == chars@.subrange(from as int, to as int),
{
    let mut part: Vec<char> = Vec::new();
    let mut i: usize = from;
    while i < to
        invariant
            from <= i <= to <= chars@.len(),
            part@ == chars@.subrange(from as int, i as int),
        decreases to - i,
    {
        part.push(chars[i]);
        i += 1;
    }
    part
}

/// The lines of a text.
pub fn lines(text: &[char]) -> (lines: Vec<Vec<char>>)
    ensures
        lines_view(lines@) == lines_of(text@),
{
    let mut lines: Vec<Vec<char>> = Vec::new();
    let mut from: usize = 0;
    assert(lines_view(lines@) + lines_from(text@, 0) =~= lines_of(text@));
    while from < text.len()
        invariant
            from <= text@.len(),
            lines_view(lines@) + lines_from(text@, from as int) == lines_of(text@),
        decreases text@.len() - from,
    {
        let mut end: usize = from;
        while end < text.len() && text[end] != '\n'
            invariant
                from <= end <= text@.len(),
                line_end(text@, end as int) == line_end(text@, from as int),
            decreases text@.len() - end,
        {
            end += 1;
        }
        let ended = end < text.len();
        let stop: usize = if ended && from < end && text[end - 1] == '\r' {
            end - 1
        } else {
            end
        };
        let line = cut(text, from, stop);
        let ghost before = lines_view(lines@);
        assert(line@ == line_at(text@, from as int));
        lines.push(line);
        assert(lines_view(lines@) =~= before.push(line@));
        let next: usize = if ended {
            end + 1
        } else {
            end
        };
        assert(lines_view(lines@) + lines_from(text@, next as int) =~= before + lines_from(
            text@,
            from as int,
        ));
        from = next;
    }
    assert(lines_from(text@, from as int) =~= Seq::empty());
    assert(lines_view(lines@) =~= lines_view(lines@) + lines_from(text@, from as int));
    lines
}

/// What counts as whitespace: the controls from tab to carriage return, the
/// spaces of every width, the separators of lines and paragraphs. What is
/// printed is not among it.
pub proof fn spaces_of_every_width_are_whitespace(c: char)
    ensures
        c == ' ' || c == '\t' || c == '\n' || c == '\r' || c as int == 0x3000 || c as int == 0xA0
            || 0x2000 <= c as int <= 0x200A || c as int == 0x2028 || c as int == 0x2029
            ==> is_blank_char(c),
        '!' <= c <= '~' || 0x3001 <= c as int || c as int == 0x200B ==> !is_blank_char(c),
{
}

/// Trimming takes whitespace off the ends and nothing else: what is left is a
/// part of the text, and all that stands around it is whitespace.
pub proof fn trimming_takes_only_whitespace(text: Seq<char>) -> (cut: (int, int))
    ensures
        0 <= cut.0 <= cut.1 <= text.len(),
        trimmed(text) == text.subrange(cut.0, cut.1),
        forall|i: int|
            0 <= i < text.len() && (i < cut.0 || i >= cut.1) ==> is_blank_char(#[trigger] text[i]),
{
    let start = leading_blanks(text);
    let rest = text.skip(start);
    let end = trailing_blanks(rest);
    assert(rest.take(end) =~= text.subrange(start, start + end));
    assert forall|i: int|
        0 <= i < text.len() && (i < start || i >= start + end) implies is_blank_char(
        #[trigger] text[i],
    ) by {
        if i >= start + end {
            assert(rest[i - start] == text[i]);
        }
    }
    (start, start + end)
}

proof fn leading_blanks(text: Seq<char>) -> (start: int)
    ensures
        0 <= start <= text.len(),
        without_leading(text) == text.skip(start),
        forall|i: int| 0 <= i < start ==> is_blank_char(#[trigger] text[i]),
    decreases text.len(),
{
    if text.len() > 0 && is_blank_char(text[0]) {
        let start = leading_blanks(text.skip(1));
        assert(text.skip(1).skip(start) =~= text.skip(start + 1));
        assert forall|i: int| 0 <= i < start + 1 implies is_blank_char(#[trigger] text[i]) by {
            if i > 0 {
                assert(text.skip(1)[i - 1] == text[i]);
            }
        }
        start + 1
    } else {
        assert(text.skip(0) =~= text);
        0
    }
}

proof fn trailing_blanks(text: Seq<char>) -> (end: int)
    ensures
        0 <= end <= text.len(),
        without_trailing(text) == text.take(end),
        forall|i: int| end <= i < text.len() ==> is_blank_char(#[trigger] text[i]),
    decreases text.len(),
{
    if text.len() > 0 && is_blank_char(text.last()) {
        let end = trailing_blanks(text.drop_last());
        assert(text.drop_last().take(end) =~= text.take(end));
        assert forall|i: int| end <= i < text.len() implies is_blank_char(#[trigger] text[i]) by {
            if i < text.len() - 1 {
                assert(text.drop_last()[i] == text[i]);
            }
        }
        end
    } else {
        assert(text.take(text.len() as int) =~= text);
        text.len() as int
    }
}

proof fn line_end_moves_along(front: Seq<char>, text: Seq<char>, from: int)
    requires
        0 <= from,
    ensures
        line_end(front + text, front.len() + from) == front.len() + line_end(text, from),
    decreases text.len() - from,
{
    if from < text.len() && text[from] != '\n' {
        line_end_moves_along(front, text, from + 1);
    }
}

proof fn lines_move_along(front: Seq<char>, text: Seq<char>, from: int)
    requires
        0 <= from,
    ensures
        lines_from(front + text, front.len() + from) == lines_from(text, from),
    decreases text.len() - from,
{
    if from < text.len() {
        line_end_moves_along(front, text, from);
        line_end_bounds(text, from);
        let end = line_end(text, from);
        assert(line_at(front + text, front.len() + from) =~= line_at(text, from));
        if end < text.len() {
            lines_move_along(front, text, end + 1);
        }
    }
}

proof fn line_end_is_the_first_feed(line: Seq<char>, rest: Seq<char>, from: int)
    requires
        0 <= from <= line.len(),
        forall|i: int| 0 <= i < line.len() ==> #[trigger] line[i] != '\n',
        rest.len() > 0 ==> rest[0] == '\n',
    ensures
        line_end(line + rest, from) == line.len(),
    decreases line.len() - from,
{
    if from < line.len() {
        assert((line + rest)[from] == line[from]);
        line_end_is_the_first_feed(line, rest, from + 1);
    }
}

/// A line feed ends a line, and what follows it is divided on its own; a carriage
/// return right before the line feed is no part of the line.
pub proof fn a_line_feed_ends_a_line(line: Seq<char>, rest: Seq<char>)
    requires
        forall|i: int| 0 <= i < line.len() ==> #[trigger] line[i] != '\n',
    ensures
        ({
            let first = if line.len() > 0 && line.last() == '\r' {
                line.drop_last()
            } else {
                line
            };
            lines_of(line + seq!['\n'] + rest) == seq![first] + lines_of(rest)
        }),
        line.len() > 0 ==> lines_of(line) == seq![line],
        lines_of(Seq::empty()).len() == 0,
{
    let front = line + seq!['\n'];
    let text = front + rest;
    assert(text =~= line + (seq!['\n'] + rest));
    line_end_is_the_first_feed(line, seq!['\n'] + rest, 0);
    lines_move_along(front, rest, 0);
    assert(text.len() > line.len());
    let first = if line.len() > 0 && line.last() == '\r' {
        line.drop_last()
    } else {
        line
    };
    assert(line_at(text, 0) =~= first);
    if line.len() > 0 {
        assert(line + Seq::<char>::empty() =~= line);
        line_end_is_the_first_feed(line, Seq::empty(), 0);
        assert(line_at(line, 0) =~= line);
    }
}

} // verus!

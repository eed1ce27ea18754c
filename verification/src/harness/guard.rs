//! Whether this machine is one that may be driven.

use vstd::prelude::*;

use super::text::{cut, find_from, lines, trim_chars};
#[allow(unused_imports)]
use super::text::{
    contains_text, first_place, lines_of, lines_view, stands_at, the_first_place_is_first, trimmed,
};
#[allow(unused_imports)]
use crate::strings::lossy_utf8;
use crate::strings::{chars_of, decode_utf8_lossy, same_text, text_of};

verus! {

/// The model that a guest reports.
pub const GUEST_MODEL: &'static str = "Virtual Machine";

/// What the manufacturer that a guest reports starts with.
pub const GUEST_MANUFACTURER: &'static str = "Microsoft";

/// The type that stands before a text in a registry listing.
pub const TEXT_TYPE: &'static str = "REG_SZ";

/// Whether a machine reports that it is a guest.
pub open spec fn reports_guest(manufacturer: Seq<char>, model: Seq<char>) -> bool {
    model == GUEST_MODEL@ && GUEST_MANUFACTURER@.is_prefix_of(manufacturer)
}

/// What is said where a machine is no guest.
pub open spec fn refusal(manufacturer: Seq<char>, model: Seq<char>) -> Seq<char> {
    "この機械は Hyper-V ゲストではありません ("@ + manufacturer + " / "@ + model
        + ")。\nこのハーネスは既定の IME を切り替え、フォーカスのあるウィンドウへ\n打鍵を送り込みます。テスト VM の中でだけ実行してください。"@
}

/// Fails unless the machine is a guest, by what its firmware reports. What it
/// does not report counts as empty.
pub fn require_vm(manufacturer: Option<String>, model: Option<String>) -> (result: Result<
    String,
    String,
>)
    ensures
        ({
            let m = if manufacturer is Some {
                manufacturer->0@
            } else {
                Seq::empty()
            };
            let p = if model is Some {
                model->0@
            } else {
                Seq::empty()
            };
            match result {
                Ok(line) => reports_guest(m, p) && line@ == "guest: "@ + m + " / "@ + p,
                Err(reason) => !reports_guest(m, p) && reason@ == refusal(m, p),
            }
        }),
{
    let manufacturer = match manufacturer {
        Some(text) => text,
        None => String::new(),
    };
    let model = match model {
        Some(text) => text,
        None => String::new(),
    };
    if same_text(&model, GUEST_MODEL) && starts_with(&manufacturer, GUEST_MANUFACTURER) {
        let mut line = "guest: ".to_string();
        line.push_str(&manufacturer);
        line.push_str(" / ");
        line.push_str(&model);
        return Ok(line);
    }
    let mut reason = "この機械は Hyper-V ゲストではありません (".to_string();
    reason.push_str(&manufacturer);
    reason.push_str(" / ");
    reason.push_str(&model);
    reason.push_str(
        ")。\nこのハーネスは既定の IME を切り替え、フォーカスのあるウィンドウへ\n打鍵を送り込みます。テスト VM の中でだけ実行してください。",
    );
    Err(reason)
}

fn starts_with(text: &str, start: &str) -> (starts: bool)
    ensures
        starts == start@.is_prefix_of(text@),
{
    let text = chars_of(text);
    let start = chars_of(start);
    if start.len() > text.len() {
        return false;
    }
    let head = cut(&text, 0, start.len());
    let same = same_text(&text_of(&head), &text_of(&start));
    assert(same == (start@ == text@.subrange(0, start@.len() as int)));
    same
}

/// The text in a line of a registry listing: what stands behind the first type
/// and before the next, without the whitespace around it.
pub open spec fn text_in_line(line: Seq<char>) -> Option<Seq<char>> {
    match first_place(line, TEXT_TYPE@, 0) {
        None => None,
        Some(at) => {
            let from = at + TEXT_TYPE@.len();
            match first_place(line, TEXT_TYPE@, from) {
                Some(to) => Some(trimmed(line.subrange(from, to))),
                None => Some(trimmed(line.skip(from))),
            }
        },
    }
}

/// The text that the first line with the value's name holds.
pub open spec fn text_in_lines(lines: Seq<Seq<char>>, value: Seq<char>) -> Option<Seq<char>>
    decreases lines.len(),
{
    if lines.len() == 0 {
        None
    } else if contains_text(lines[0], value) {
        text_in_line(lines[0])
    } else {
        text_in_lines(lines.skip(1), value)
    }
}

/// The text of a value in a registry listing: of the first line with the
/// value's name.
pub fn registry_string_in(listing: &str, value: &str) -> (text: Option<String>)
    ensures
        match text {
            Some(text) => text_in_lines(lines_of(listing@), value@) == Some(text@),
            None => text_in_lines(lines_of(listing@), value@) is None,
        },
{
    let all = lines(&chars_of(listing));
    let name = chars_of(value);
    let kind = chars_of(TEXT_TYPE);
    let ghost whole = lines_view(all@);
    let mut i: usize = 0;
    assert(whole.skip(0) =~= whole);
    while i < all.len()
        invariant
            i <= all.len(),
            whole == lines_view(all@),
            name@ == value@,
            kind@ == TEXT_TYPE@,
            whole == lines_of(listing@),
            text_in_lines(whole.skip(i as int), value@) == text_in_lines(whole, value@),
        decreases all.len() - i,
    {
        let line = &all[i];
        assert(whole[i as int] == line@);
        assert(whole.skip(i as int)[0] == line@);
        assert(whole.skip(i as int).skip(1) =~= whole.skip(i + 1));
        let place = find_from(line, &name, 0);
        proof {
            the_first_place_is_first(line@, value@, 0);
            the_first_place_is_first(line@, TEXT_TYPE@, 0);
        }
        if place.is_some() {
            assert(contains_text(line@, value@));
            let at: usize = match find_from(line, &kind, 0) {
                Some(at) => at,
                None => {
                    return None;
                },
            };
            let from: usize = at + kind.len();
            proof {
                the_first_place_is_first(line@, TEXT_TYPE@, from as int);
            }
            let to: usize = match find_from(line, &kind, from) {
                Some(to) => to,
                None => line.len(),
            };
            assert(line@.subrange(from as int, line@.len() as int) =~= line@.skip(from as int));
            let found = trim_chars(&cut(line, from, to));
            let found = text_of(&found);
            return Some(found);
        }
        i += 1;
    }
    assert(whole.skip(i as int) =~= Seq::empty());
    None
}

/// The text of a value in the bytes of a registry listing.
pub fn registry_string(output: &[u8], value: &str) -> (text: Option<String>)
    ensures
        match text {
            Some(text) => text_in_lines(lines_of(lossy_utf8(output@)), value@) == Some(text@),
            None => text_in_lines(lines_of(lossy_utf8(output@)), value@) is None,
        },
{
    let listing = decode_utf8_lossy(output);
    registry_string_in(&listing, value)
}

/// A machine is a guest where its model is that of a guest and its manufacturer
/// starts as a guest's does; what follows in the manufacturer does not matter,
/// and nothing may follow in the model.
pub proof fn a_guest_is_known_by_its_model(rest: Seq<char>, model: Seq<char>)
    ensures
        reports_guest("Microsoft"@ + rest, "Virtual Machine"@),
        reports_guest("Microsoft"@ + rest, model) ==> model == "Virtual Machine"@,
        !reports_guest(Seq::empty(), model),
{
    reveal_strlit("Microsoft");
    let manufacturer = "Microsoft"@ + rest;
    assert("Microsoft"@ =~= manufacturer.subrange(0, "Microsoft"@.len() as int));
}

/// The text of a value is what stands behind the type in its line, without the
/// whitespace around it.
pub proof fn the_text_stands_behind_its_type(before: Seq<char>, text: Seq<char>)
    requires
        forall|at: int|
            at != before.len() ==> !#[trigger] stands_at(
                before + "REG_SZ"@ + text,
                "REG_SZ"@,
                at,
            ),
    ensures
        text_in_line(before + "REG_SZ"@ + text) == Some(trimmed(text)),
{
    reveal_strlit("REG_SZ");
    let line = before + "REG_SZ"@ + text;
    let at = before.len() as int;
    assert(line.subrange(at, at + "REG_SZ"@.len()) =~= "REG_SZ"@);
    assert(stands_at(line, "REG_SZ"@, at));
    the_first_place_is_first(line, "REG_SZ"@, 0);
    the_first_place_is_first(line, "REG_SZ"@, at + 6);
    assert(line.skip(at + 6) =~= text);
}

/// Lines without the value's name are passed over, and the first with it counts.
pub proof fn the_first_line_with_the_name_counts(
    line: Seq<char>,
    rest: Seq<Seq<char>>,
    value: Seq<char>,
)
    ensures
        contains_text(line, value) ==> text_in_lines(seq![line] + rest, value) == text_in_line(
            line,
        ),
        !contains_text(line, value) ==> text_in_lines(seq![line] + rest, value) == text_in_lines(
            rest,
            value,
        ),
{
    assert((seq![line] + rest).skip(1) =~= rest);
}

} // verus!

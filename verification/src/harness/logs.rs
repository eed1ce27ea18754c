//! Looking through the logs for signs that something went wrong.

use vstd::prelude::*;

use super::text::{find_from, lines, trim_chars};
#[allow(unused_imports)]
use super::text::{
    contains_text, lines_of, lines_view, stands_at, the_first_place_is_first, trimmed,
};
#[allow(unused_imports)]
use crate::strings::lossy_utf8;
use crate::strings::{chars_of, decode_utf8_lossy, text_of};
use crate::trace::log_folder;
#[allow(unused_imports)]
use crate::trace::log_folder_in;

verus! {

/// What a log says of a panic.
pub const PANIC_MARKER: &'static str = "panicked at";

/// What a log says where the text service could not be activated.
pub const ACTIVATION_MARKER: &'static str = "Activate failed";

/// A line that says that something went wrong.
#[derive(Debug)]
pub struct Hit {
    /// The name of the log.
    pub file: String,
    pub line: String,
}

impl View for Hit {
    type V = (Seq<char>, Seq<char>);

    open spec fn view(&self) -> (Seq<char>, Seq<char>) {
        (self.file@, self.line@)
    }
}

/// Where the logs are: where the client keeps its own.
pub fn log_dir(base: Option<&str>) -> (directory: Option<String>)
    ensures
        match directory {
            Some(directory) => base is Some && directory@ == log_folder_in(base->0@),
            None => base is None,
        },
{
    log_folder(base)
}

/// Whether a line says that something went wrong.
pub open spec fn is_defect(line: Seq<char>) -> bool {
    contains_text(line, PANIC_MARKER@) || contains_text(line, ACTIVATION_MARKER@)
}

/// The lines that say that something went wrong, without the whitespace around
/// them, each with the log's name.
pub open spec fn hits_in(file: Seq<char>, lines: Seq<Seq<char>>) -> Seq<(Seq<char>, Seq<char>)>
    decreases lines.len(),
{
    if lines.len() == 0 {
        Seq::empty()
    } else if is_defect(lines.last()) {
        hits_in(file, lines.drop_last()).push((file, trimmed(lines.last())))
    } else {
        hits_in(file, lines.drop_last())
    }
}

/// A list of hits, by what each holds.
pub open spec fn hits_view(hits: Seq<Hit>) -> Seq<(Seq<char>, Seq<char>)> {
    hits.map_values(|hit: Hit| hit@)
}

fn holds(line: &[char], marker: &str) -> (found: bool)
    ensures
        found == contains_text(line@, marker@),
{
    let place = find_from(line, &chars_of(marker), 0);
    proof {
        the_first_place_is_first(line@, marker@, 0);
    }
    place.is_some()
}

/// The lines of a log that say that something went wrong.
pub fn scan_text(file: &str, text: &str) -> (hits: Vec<Hit>)
    ensures
        hits_view(hits@) == hits_in(file@, lines_of(text@)),
{
    let all = lines(&chars_of(text));
    let ghost whole = lines_view(all@);
    let mut hits: Vec<Hit> = Vec::new();
    let mut i: usize = 0;
    assert(hits_view(hits@) =~= hits_in(file@, whole.take(0)));
    while i < all.len()
        invariant
            i <= all.len(),
            whole == lines_view(all@),
            hits_view(hits@) == hits_in(file@, whole.take(i as int)),
        decreases all.len() - i,
    {
        let line = &all[i];
        let ghost next = whole.take(i + 1);
        assert(next.last() == line@);
        assert(next.drop_last() =~= whole.take(i as int));
        let ghost before = hits_view(hits@);
        if holds(line, PANIC_MARKER) || holds(line, ACTIVATION_MARKER) {
            let found = trim_chars(line);
            let hit = Hit { file: file.to_string(), line: text_of(&found) };
            let ghost hit_view = hit@;
            hits.push(hit);
            assert(hits_view(hits@) =~= before.push(hit_view));
        }
        i += 1;
    }
    assert(whole.take(whole.len() as int) =~= whole);
    hits
}

/// The lines of a log that say that something went wrong, by the log's bytes. A
/// log that breaks off within a character is still looked through.
pub fn scan(file: &str, bytes: &[u8]) -> (hits: Vec<Hit>)
    ensures
        hits_view(hits@) == hits_in(file@, lines_of(lossy_utf8(bytes@))),
{
    let text = decode_utf8_lossy(bytes);
    scan_text(file, &text)
}

/// A log none of whose lines holds a marker has no hits: what the supervisor
/// says of a server that it starts again is no defect.
pub proof fn other_lines_are_no_defect(file: Seq<char>, lines: Seq<Seq<char>>)
    requires
        forall|i: int| 0 <= i < lines.len() ==> !is_defect(#[trigger] lines[i]),
    ensures
        hits_in(file, lines) == Seq::<(Seq<char>, Seq<char>)>::empty(),
    decreases lines.len(),
{
    if lines.len() > 0 {
        assert forall|i: int| 0 <= i < lines.drop_last().len() implies !is_defect(
            #[trigger] lines.drop_last()[i],
        ) by {
            assert(lines.drop_last()[i] == lines[i]);
        }
        assert(!is_defect(lines[lines.len() - 1]));
        other_lines_are_no_defect(file, lines.drop_last());
    }
}

/// Every line that holds a marker is a hit.
pub proof fn every_defect_is_a_hit(file: Seq<char>, lines: Seq<Seq<char>>, at: int)
    requires
        0 <= at < lines.len(),
        is_defect(lines[at]),
    ensures
        hits_in(file, lines).contains((file, trimmed(lines[at]))),
    decreases lines.len(),
{
    let hit = (file, trimmed(lines[at]));
    let whole = hits_in(file, lines);
    if at == lines.len() - 1 {
        assert(whole.last() == hit);
    } else {
        let rest = hits_in(file, lines.drop_last());
        assert(lines.drop_last()[at] == lines[at]);
        every_defect_is_a_hit(file, lines.drop_last(), at);
        let place = choose|i: int| 0 <= i < rest.len() && rest[i] == hit;
        assert(whole[place] == hit);
    }
}

/// A line that tells of a panic, or of an activation that failed, is a defect
/// wherever in the line it does so.
pub proof fn a_marker_counts_wherever_it_stands(before: Seq<char>, after: Seq<char>)
    ensures
        is_defect(before + "panicked at"@ + after),
        is_defect(before + "Activate failed"@ + after),
{
    let panicked = before + "panicked at"@ + after;
    let failed = before + "Activate failed"@ + after;
    let at = before.len() as int;
    assert(panicked.subrange(at, at + "panicked at"@.len()) =~= "panicked at"@);
    assert(failed.subrange(at, at + "Activate failed"@.len()) =~= "Activate failed"@);
    assert(stands_at(panicked, "panicked at"@, at));
    assert(stands_at(failed, "Activate failed"@, at));
}

/// Every hit is a line of the log that tells of a defect, without the whitespace
/// around it, and names the log.
pub proof fn every_hit_is_a_defect(file: Seq<char>, lines: Seq<Seq<char>>, at: int)
    requires
        0 <= at < hits_in(file, lines).len(),
    ensures
        hits_in(file, lines)[at].0 == file,
        exists|i: int|
            0 <= i < lines.len() && is_defect(#[trigger] lines[i]) && hits_in(file, lines)[at].1
                == trimmed(lines[i]),
    decreases lines.len(),
{
    let before = lines.drop_last();
    let earlier = hits_in(file, before);
    if at < earlier.len() {
        every_hit_is_a_defect(file, before, at);
        let i = choose|i: int|
            0 <= i < before.len() && is_defect(#[trigger] before[i]) && earlier[at].1 == trimmed(
                before[i],
            );
        assert(lines[i] == before[i]);
        assert(hits_in(file, lines)[at] == earlier[at]);
    } else {
        assert(is_defect(lines[lines.len() - 1]));
    }
}

} // verus!

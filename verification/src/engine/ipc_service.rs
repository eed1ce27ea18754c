//! What is said to the conversion server and to the candidate window.

use vstd::prelude::*;

#[allow(unused_imports)]
use super::engine_health::{verdict_of, EngineHealth};
use super::engine_health::{record, Verdict};
#[allow(unused_imports)]
use crate::failure::Cause;
use crate::failure::{is_server_unavailable, Failure};
use crate::strings::{clone_numbers, clone_texts, decimal_text};
#[allow(unused_imports)]
use crate::strings::{decimal, texts_view};

verus! {

/// How long, in milliseconds, a call that converts may take: it may run a
/// neural model.
pub const CONVERSION_TIMEOUT: u64 = 2000;

/// How long an engine call that only moves state around may take.
pub const HOUSEKEEPING_TIMEOUT: u64 = 500;

/// How long a candidate-window call may take; it is cosmetic.
pub const WINDOW_TIMEOUT: u64 = 300;

/// How many times a call may be issued whose repetition changes nothing.
pub const IDEMPOTENT_ATTEMPTS: u32 = 2;

/// The conversions that the engine offers for a reading.
#[derive(Debug, Default)]
pub struct Candidates {
    pub texts: Vec<String>,
    /// What of the reading each candidate leaves unconverted.
    pub sub_texts: Vec<String>,
    pub hiragana: String,
    /// The keystrokes each candidate covers.
    pub corresponding_count: Vec<i32>,
    /// The kana of the reading each candidate covers.
    pub surface_count: Vec<i32>,
}

/// A candidate list as plain sequences.
#[verifier::ext_equal]
pub struct CandidatesView {
    pub texts: Seq<Seq<char>>,
    pub sub_texts: Seq<Seq<char>>,
    pub hiragana: Seq<char>,
    pub corresponding_count: Seq<i32>,
    pub surface_count: Seq<i32>,
}

/// One candidate: its text, what it leaves unconverted, and the keystrokes and
/// kana that it covers.
#[verifier::ext_equal]
pub struct EntryView {
    pub text: Seq<char>,
    pub sub_text: Seq<char>,
    pub corresponding_count: i32,
    pub surface_count: i32,
}

/// The element at an index, or a default past the end.
pub open spec fn at_or<T>(items: Seq<T>, index: int, default: T) -> T {
    if 0 <= index < items.len() {
        items[index]
    } else {
        default
    }
}

impl CandidatesView {
    /// A list with nothing in it.
    pub open spec fn empty() -> CandidatesView {
        CandidatesView {
            texts: Seq::empty(),
            sub_texts: Seq::empty(),
            hiragana: Seq::empty(),
            corresponding_count: Seq::empty(),
            surface_count: Seq::empty(),
        }
    }

    /// The candidate at an index; what the list does not have of it is blank.
    pub open spec fn entry(self, index: int) -> EntryView {
        EntryView {
            text: at_or(self.texts, index, Seq::empty()),
            sub_text: at_or(self.sub_texts, index, Seq::empty()),
            corresponding_count: at_or(self.corresponding_count, index, 0),
            surface_count: at_or(self.surface_count, index, 0),
        }
    }
}

impl View for Candidates {
    type V = CandidatesView;

    open spec fn view(&self) -> CandidatesView {
        CandidatesView {
            texts: texts_view(self.texts@),
            sub_texts: texts_view(self.sub_texts@),
            hiragana: self.hiragana@,
            corresponding_count: self.corresponding_count@,
            surface_count: self.surface_count@,
        }
    }
}

fn text_at(texts: &Vec<String>, index: usize) -> (text: String)
    ensures
        text@ == at_or(texts_view(texts@), index as int, Seq::empty()),
{
    if index < texts.len() {
        texts[index].clone()
    } else {
        let text = String::new();
        assert(text@ =~= Seq::<char>::empty());
        text
    }
}

fn number_at(numbers: &Vec<i32>, index: usize) -> (number: i32)
    ensures
        number == at_or(numbers@, index as int, 0i32),
{
    if index < numbers.len() {
        numbers[index]
    } else {
        0
    }
}

impl Clone for Candidates {
    fn clone(&self) -> (list: Candidates)
        ensures
            list@ == self@,
    {
        self.copy()
    }
}

impl Candidates {
    /// A list with nothing in it.
    pub fn none() -> (list: Candidates)
        ensures
            list@ == CandidatesView::empty(),
    {
        let list = Candidates {
            texts: Vec::new(),
            sub_texts: Vec::new(),
            hiragana: String::new(),
            corresponding_count: Vec::new(),
            surface_count: Vec::new(),
        };
        assert(list@ =~= CandidatesView::empty());
        list
    }

    /// A copy of the list.
    pub fn copy(&self) -> (list: Candidates)
        ensures
            list@ == self@,
    {
        Candidates {
            texts: clone_texts(&self.texts),
            sub_texts: clone_texts(&self.sub_texts),
            hiragana: self.hiragana.clone(),
            corresponding_count: clone_numbers(&self.corresponding_count),
            surface_count: clone_numbers(&self.surface_count),
        }
    }

    /// The text, the rest, the keystrokes and the kana of the candidate at
    /// `index`. The list may be empty and its columns may differ in length;
    /// what is missing comes back blank.
    pub fn entry(&self, index: usize) -> (entry: (String, String, i32, i32))
        ensures
            (EntryView {
                text: entry.0@,
                sub_text: entry.1@,
                corresponding_count: entry.2,
                surface_count: entry.3,
            }) == self@.entry(index as int),
    {
        (
            text_at(&self.texts, index),
            text_at(&self.sub_texts, index),
            number_at(&self.corresponding_count, index),
            number_at(&self.surface_count, index),
        )
    }
}

/// One suggestion as the server sends it.
#[derive(Debug)]
pub struct Suggestion {
    pub text: String,
    pub subtext: String,
    pub corresponding_count: i32,
    pub surface_count: i32,
}

/// The reading that the server holds, and its conversions.
#[derive(Debug)]
pub struct ComposingText {
    pub hiragana: String,
    pub suggestions: Vec<Suggestion>,
}

impl ComposingText {
    /// The candidate list that a reply amounts to: one row for each
    /// suggestion, in order.
    pub open spec fn candidates(self) -> CandidatesView {
        CandidatesView {
            texts: self.suggestions@.map_values(|s: Suggestion| s.text@),
            sub_texts: self.suggestions@.map_values(|s: Suggestion| s.subtext@),
            hiragana: self.hiragana@,
            corresponding_count: self.suggestions@.map_values(|s: Suggestion| s.corresponding_count),
            surface_count: self.suggestions@.map_values(|s: Suggestion| s.surface_count),
        }
    }
}

impl Candidates {
    /// The candidate list of a reply.
    pub fn from_reply(reply: ComposingText) -> (list: Candidates)
        ensures
            list@ == reply.candidates(),
    {
        let mut texts: Vec<String> = Vec::new();
        let mut sub_texts: Vec<String> = Vec::new();
        let mut corresponding_count: Vec<i32> = Vec::new();
        let mut surface_count: Vec<i32> = Vec::new();
        let mut i: usize = 0;
        while i < reply.suggestions.len()
            invariant
                i <= reply.suggestions.len(),
                i == texts.len(),
                i == sub_texts.len(),
                i == corresponding_count.len(),
                i == surface_count.len(),
                forall|j: int| 0 <= j < i ==> texts@[j]@ == reply.suggestions@[j].text@,
                forall|j: int| 0 <= j < i ==> sub_texts@[j]@ == reply.suggestions@[j].subtext@,
                forall|j: int|
                    0 <= j < i ==> corresponding_count@[j]
                        == reply.suggestions@[j].corresponding_count,
                forall|j: int|
                    0 <= j < i ==> surface_count@[j] == reply.suggestions@[j].surface_count,
            decreases reply.suggestions.len() - i,
        {
            texts.push(reply.suggestions[i].text.clone());
            sub_texts.push(reply.suggestions[i].subtext.clone());
            corresponding_count.push(reply.suggestions[i].corresponding_count);
            surface_count.push(reply.suggestions[i].surface_count);
            i += 1;
        }
        let list = Candidates {
            texts,
            sub_texts,
            hiragana: reply.hiragana,
            corresponding_count,
            surface_count,
        };
        assert(list@ =~= reply.candidates());
        list
    }
}

/// What a converting call answers with: the candidates of the reading that the
/// server sent, or a failure where it sent none. The caller always gave it
/// text to convert, so a missing reading is a fault and not an empty list.
pub fn candidates_or_missing(reply: Option<ComposingText>) -> (result: Result<Candidates, Failure>)
    ensures
        match reply {
            Some(reply) => result is Ok && result->Ok_0@ == reply.candidates(),
            None => result is Err && !result->Err_0.is_unavailable() && result->Err_0.says(
                "composing_text is None"@,
            ),
        },
{
    match reply {
        Some(reply) => Ok(Candidates::from_reply(reply)),
        None => Err(missing_reading()),
    }
}

/// The failure of a reply that holds no reading.
pub fn missing_reading() -> (failure: Failure)
    ensures
        !failure.is_unavailable(),
        failure.says("composing_text is None"@),
{
    Failure::new("composing_text is None".to_string())
}

/// One update of what the candidate window shows. What is `None` stays as it
/// is: an empty list blanks the window, no list leaves it alone.
#[derive(Debug, Default, PartialEq)]
pub struct CandidateView {
    pub candidates: Option<Vec<String>>,
    pub selection: Option<i32>,
    /// The rectangle of the caret: top, left, bottom, right.
    pub position: Option<(i32, i32, i32, i32)>,
}

/// An update of the candidate window as plain values.
#[verifier::ext_equal]
pub struct WindowUpdate {
    pub candidates: Option<Seq<Seq<char>>>,
    pub selection: Option<i32>,
    pub position: Option<(i32, i32, i32, i32)>,
}

impl View for CandidateView {
    type V = WindowUpdate;

    open spec fn view(&self) -> WindowUpdate {
        WindowUpdate {
            candidates: match self.candidates {
                Some(texts) => Some(texts_view(texts@)),
                None => None,
            },
            selection: self.selection,
            position: self.position,
        }
    }
}

impl Clone for CandidateView {
    fn clone(&self) -> (view: CandidateView)
        ensures
            view@ == self@,
    {
        CandidateView {
            candidates: match &self.candidates {
                Some(texts) => Some(clone_texts(texts)),
                None => None,
            },
            selection: self.selection,
            position: self.position,
        }
    }
}

impl CandidateView {
    /// A fresh list and the highlight that goes with it.
    pub fn list_and_selection(candidates: Vec<String>, selection: i32) -> (view: CandidateView)
        ensures
            view@ == (WindowUpdate {
                candidates: Some(texts_view(candidates@)),
                selection: Some(selection),
                position: None,
            }),
    {
        CandidateView { candidates: Some(candidates), selection: Some(selection), position: None }
    }

    /// The highlight alone.
    pub fn selection(selection: i32) -> (view: CandidateView)
        ensures
            view@ == (WindowUpdate { candidates: None, selection: Some(selection), position: None }),
    {
        CandidateView { candidates: None, selection: Some(selection), position: None }
    }

    /// A fresh list alone.
    pub fn list(candidates: Vec<String>) -> (view: CandidateView)
        ensures
            view@ == (WindowUpdate {
                candidates: Some(texts_view(candidates@)),
                selection: None,
                position: None,
            }),
    {
        CandidateView { candidates: Some(candidates), selection: None, position: None }
    }

    /// The caret's rectangle alone.
    pub fn at(top: i32, left: i32, bottom: i32, right: i32) -> (view: CandidateView)
        ensures
            view@ == (WindowUpdate {
                candidates: None,
                selection: None,
                position: Some((top, left, bottom, right)),
            }),
    {
        CandidateView { candidates: None, selection: None, position: Some((top, left, bottom, right)) }
    }
}

/// What came of a call that was given a deadline.
#[derive(Debug)]
pub enum Reply<T> {
    /// Nothing, until the deadline.
    TimedOut,
    /// The pipe is gone, for the reason given.
    Lost(String),
    /// The server rejected the call, for the reason given.
    Rejected(String),
    Answered(T),
}

/// A number below 1000 in three digits, without the zeros at the end.
pub open spec fn fraction(millis: int) -> Seq<char> {
    if millis % 10 != 0 {
        seq![
            (0x30 + millis / 100) as char,
            (0x30 + millis / 10 % 10) as char,
            (0x30 + millis % 10) as char,
        ]
    } else if millis % 100 != 0 {
        seq![(0x30 + millis / 100) as char, (0x30 + millis / 10 % 10) as char]
    } else {
        seq![(0x30 + millis / 100) as char]
    }
}

/// A span of milliseconds as it is written out: in seconds from one second on.
pub open spec fn span(millis: int) -> Seq<char> {
    if millis == 0 {
        "0ns"@
    } else if millis < 1000 {
        decimal(millis as nat) + "ms"@
    } else if millis % 1000 == 0 {
        decimal((millis / 1000) as nat) + "s"@
    } else {
        decimal((millis / 1000) as nat) + "."@ + fraction(millis % 1000) + "s"@
    }
}

fn digit(n: u64) -> (c: char)
    requires
        n < 10,
    ensures
        c == (0x30 + n) as char,
{
    (0x30u8 + n as u8) as char
}

/// A span of milliseconds as it is written out.
pub fn span_text(millis: u64) -> (text: String)
    ensures
        text@ == span(millis as int),
{
    if millis == 0 {
        return "0ns".to_string();
    }
    if millis < 1000 {
        let mut text = decimal_text(millis);
        text.push_str("ms");
        return text;
    }
    let mut text = decimal_text(millis / 1000);
    let rest: u64 = millis % 1000;
    if rest != 0 {
        text.push_str(".");
        let ghost whole = text@;
        text.push(digit(rest / 100));
        if rest % 100 != 0 {
            text.push(digit(rest / 10 % 10));
            if rest % 10 != 0 {
                text.push(digit(rest % 10));
            }
        }
        assert(text@ =~= whole + fraction(rest as int));
    }
    text.push_str("s");
    text
}

/// What a call comes to. Where nothing came or the pipe is gone, the server
/// was not reached; a rejection is the failure as it stands.
pub open spec fn comes_to<T>(
    reply: Reply<T>,
    deadline: u64,
    result: Result<T, Failure>,
) -> bool {
    match reply {
        Reply::Answered(answer) => result == Ok::<T, Failure>(answer),
        Reply::Rejected(reason) => {
            &&& result is Err
            &&& result->Err_0.causes@ == seq![Cause::Message(reason)]
        },
        Reply::TimedOut => {
            &&& result is Err
            &&& lost_with_note(result->Err_0, "IPC request timed out after "@ + span(deadline as int))
        },
        Reply::Lost(reason) => {
            &&& result is Err
            &&& lost_with_note(result->Err_0, "IPC transport error: "@ + reason@)
        },
    }
}

/// Whether a failure is that the server was not reached, with a note around it.
pub open spec fn lost_with_note(failure: Failure, note: Seq<char>) -> bool {
    &&& failure.is_unavailable()
    &&& failure.causes@.len() == 2
    &&& failure.causes@[0] is Unavailable
    &&& failure.causes@[1] is Message
    &&& failure.causes@[1]->Message_0@ == note
}

/// What a call comes to.
pub fn exec<T>(deadline: u64, reply: Reply<T>) -> (result: Result<T, Failure>)
    ensures
        comes_to(reply, deadline, result),
        result is Err ==> result->Err_0.is_unavailable() == (reply is TimedOut || reply is Lost),
{
    match reply {
        Reply::Answered(answer) => Ok(answer),
        Reply::Rejected(reason) => Err(Failure::new(reason)),
        Reply::TimedOut => {
            let mut note = "IPC request timed out after ".to_string();
            note.push_str(&span_text(deadline));
            Err(Failure::unavailable().context(note))
        },
        Reply::Lost(reason) => {
            let mut note = "IPC transport error: ".to_string();
            note.push_str(&reason);
            Err(Failure::unavailable().context(note))
        },
    }
}

/// What a call into the engine comes to, and what it says of the engine: it is
/// out of reach exactly where nothing came or the pipe is gone. Also whether
/// that changes what was known of it.
pub fn engine_exec<T>(verdict: &mut Verdict, deadline: u64, reply: Reply<T>) -> (outcome: (
    Result<T, Failure>,
    bool,
))
    ensures
        comes_to(reply, deadline, outcome.0),
        final(verdict).health() == verdict_of(outcome.0),
        outcome.1 == (old(verdict).health() != final(verdict).health()),
{
    let result = exec(deadline, reply);
    let changed = record(verdict, &result);
    (result, changed)
}

/// What a converting call comes to: the candidates of the reading that the
/// engine sent. That it sent none is a failure, but still an answer.
pub fn converted(verdict: &mut Verdict, reply: Reply<Option<ComposingText>>) -> (outcome: (
    Result<Candidates, Failure>,
    bool,
))
    ensures
        match reply {
            Reply::Answered(Some(text)) => outcome.0 is Ok && outcome.0->Ok_0@ == text.candidates(),
            Reply::Answered(None) => outcome.0 is Err && outcome.0->Err_0.says(
                "composing_text is None"@,
            ),
            Reply::Rejected(reason) => outcome.0 is Err && outcome.0->Err_0.says(reason@),
            Reply::TimedOut => outcome.0 is Err && lost_with_note(
                outcome.0->Err_0,
                "IPC request timed out after "@ + span(CONVERSION_TIMEOUT as int),
            ),
            Reply::Lost(reason) => outcome.0 is Err && lost_with_note(
                outcome.0->Err_0,
                "IPC transport error: "@ + reason@,
            ),
        },
        final(verdict).health() == if reply is TimedOut || reply is Lost {
            EngineHealth::Unreachable
        } else {
            EngineHealth::Reachable
        },
        outcome.1 == (old(verdict).health() != final(verdict).health()),
{
    let (result, changed) = engine_exec(verdict, CONVERSION_TIMEOUT, reply);
    proof {
        a_rejection_is_an_answer(reply, CONVERSION_TIMEOUT, result);
    }
    match result {
        Ok(text) => (candidates_or_missing(text), changed),
        Err(failure) => (Err(failure), changed),
    }
}

/// A call makes the engine out of reach exactly where nothing came of it or
/// the pipe is gone; a rejection is an answer.
pub proof fn a_rejection_is_an_answer<T>(
    reply: Reply<T>,
    deadline: u64,
    result: Result<T, Failure>,
)
    requires
        comes_to(reply, deadline, result),
    ensures
        (verdict_of(result) == EngineHealth::Unreachable) == (reply is TimedOut
            || reply is Lost),
{
    if reply is Rejected {
        let causes = result->Err_0.causes@;
        assert forall|i: int| 0 <= i < causes.len() implies !(causes[i] is Unavailable) by {
            assert(i == 0);
        }
    }
}

/// The count that goes over the wire for a removal of `count` kana: one too
/// large for the field becomes the largest it holds, and never a negative one.
pub fn removal_count(count: u32) -> (wire: i32)
    ensures
        wire == if count <= i32::MAX {
            count as int
        } else {
            i32::MAX as int
        },
{
    if count <= 0x7fff_ffff {
        count as i32
    } else {
        i32::MAX
    }
}

/// Whether a call whose repetition changes nothing is to be issued again after
/// its `attempt`-th outcome: only where the server could not be reached, and
/// only while attempts are left.
pub open spec fn retries<T>(outcome: Result<T, Failure>, attempt: u32) -> bool {
    outcome is Err && outcome->Err_0.is_unavailable() && attempt < IDEMPOTENT_ATTEMPTS
}

/// Decides whether such a call is issued again.
pub fn is_worth_retrying<T>(outcome: &Result<T, Failure>, attempt: u32) -> (again: bool)
    ensures
        again == retries(*outcome, attempt),
{
    match outcome {
        Err(failure) => is_server_unavailable(failure) && attempt < IDEMPOTENT_ATTEMPTS,
        Ok(_) => false,
    }
}

/// Issues a call whose repetition changes nothing, and once more where the
/// first attempt could not reach the server: then the second attempt's outcome
/// is the outcome, whatever it is. Any other outcome of the first attempt is
/// the outcome. `call` is given the number of the attempt, which tells the two
/// apart, and has to be ready for the second only where there is one.
pub fn retry_idempotent<T, F: Fn(u32) -> Result<T, Failure>>(call: F) -> (result: Result<
    T,
    Failure,
>)
    requires
        call.requires((1u32,)),
        forall|first: Result<T, Failure>| #[trigger]
            call.ensures((1u32,), first) && retries(first, 1) ==> call.requires((2u32,)),
    ensures
        exists|first: Result<T, Failure>| #[trigger]
            call.ensures((1u32,), first) && if retries(first, 1) {
                call.ensures((2u32,), result)
            } else {
                result == first
            },
{
    let first = call(1);
    if is_worth_retrying(&first, 1) {
        let second = call(2);
        assert(call.ensures((1u32,), first) && retries(first, 1));
        second
    } else {
        assert(call.ensures((1u32,), first) && !retries(first, 1));
        first
    }
}

/// Every suggestion of a reply becomes one row of the list: its text, what it
/// leaves of the reading, the keystrokes and the kana that it covers, each in
/// its own column.
pub proof fn a_reply_is_listed_row_by_row(reply: ComposingText, row: int)
    requires
        0 <= row < reply.suggestions@.len(),
    ensures
        ({
            let list = reply.candidates();
            let suggestion = reply.suggestions@[row];
            &&& list.texts.len() == reply.suggestions@.len()
            &&& list.sub_texts.len() == reply.suggestions@.len()
            &&& list.corresponding_count.len() == reply.suggestions@.len()
            &&& list.surface_count.len() == reply.suggestions@.len()
            &&& list.texts[row] == suggestion.text@
            &&& list.sub_texts[row] == suggestion.subtext@
            &&& list.corresponding_count[row] == suggestion.corresponding_count
            &&& list.surface_count[row] == suggestion.surface_count
            &&& list.hiragana == reply.hiragana@
        }),
{
}

/// A call is issued again only after its first attempt, and only where that
/// could not reach the server: an answer, a rejection among them, is final.
pub proof fn only_a_lost_first_attempt_is_repeated<T>(
    outcome: Result<T, Failure>,
    attempt: u32,
)
    requires
        attempt >= 1,
    ensures
        retries(outcome, attempt) <==> attempt == 1 && outcome is Err
            && outcome->Err_0.is_unavailable(),
{
}

/// A list is seen column by column.
pub proof fn a_list_is_seen_as_it_is_kept(list: Candidates, row: int)
    ensures
        list@.texts.len() == list.texts@.len(),
        list@.sub_texts.len() == list.sub_texts@.len(),
        0 <= row < list.texts@.len() ==> list@.texts[row] == list.texts@[row]@,
        0 <= row < list.sub_texts@.len() ==> list@.sub_texts[row] == list.sub_texts@[row]@,
        list@.corresponding_count == list.corresponding_count@,
        list@.surface_count == list.surface_count@,
        list@.hiragana == list.hiragana@,
{
}

/// A span of whole seconds is told in seconds, and one of less than a second in
/// milliseconds.
pub proof fn a_span_is_told_in_its_unit(n: nat)
    ensures
        n > 0 ==> span(1000 * n as int) == decimal(n) + "s"@,
        0 < n < 1000 ==> span(n as int) == decimal(n) + "ms"@,
{
    assert((1000 * n) as int / 1000 == n);
    assert((1000 * n) as int % 1000 == 0);
}

/// A call that came to nothing, and one whose pipe is gone, say so: how long was
/// waited, or for what reason, around the loss of the server. A rejection says
/// what the server said and nothing more, and an answer is handed on.
pub proof fn a_call_says_what_came_of_it<T>(
    deadline: u64,
    reason: String,
    answer: T,
    result: Result<T, Failure>,
)
    ensures
        comes_to(Reply::TimedOut, deadline, result) ==> result is Err && {
            let causes = result->Err_0.causes@;
            &&& causes.len() == 2
            &&& causes[0] is Unavailable
            &&& causes[1] matches Cause::Message(note) && note@ == "IPC request timed out after "@
                + span(deadline as int)
        },
        comes_to(Reply::Lost(reason), deadline, result) ==> result is Err && {
            let causes = result->Err_0.causes@;
            &&& causes.len() == 2
            &&& causes[0] is Unavailable
            &&& causes[1] matches Cause::Message(note) && note@ == "IPC transport error: "@
                + reason@
        },
        comes_to(Reply::Rejected(reason), deadline, result) ==> result is Err && {
            let causes = result->Err_0.causes@;
            &&& causes.len() == 1
            &&& causes[0] matches Cause::Message(note) && note@ == reason@
        },
        comes_to(Reply::Answered(answer), deadline, result) ==> result == Ok::<T, Failure>(answer),
{
}

} // verus!

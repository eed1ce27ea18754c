//! The composition that is kept for one document, and the working copy that a
//! batch of actions edits.

use vstd::prelude::*;

use super::client_action::ClientAction;
#[allow(unused_imports)]
use super::full_width::fullwidth_char;
use super::full_width::to_fullwidth;
use super::input_mode::InputMode;
#[allow(unused_imports)]
use super::ipc_service::{CandidatesView, EntryView};
use super::ipc_service::Candidates;
#[allow(unused_imports)]
use crate::strings::texts_view;
use crate::strings::{chars_of, text_of};

verus! {

/// Where a composition stands.
#[derive(Debug, Clone, Copy, PartialEq, Eq, Structural)]
pub enum CompositionState {
    Idle,
    /// The reading is being typed.
    Composing,
    /// A candidate is being chosen.
    Previewing,
}

impl Default for CompositionState {
    fn default() -> (state: CompositionState)
        ensures
            state == CompositionState::Idle,
    {
        CompositionState::Idle
    }
}

/// The composition of one document. `H` is the handle by which the host holds
/// it open.
///
/// Between batches the state is that of an open composition only while the
/// host holds one open ([`Composition::wf`]). Within a batch the two may
/// differ: the handle changes the moment the host gives or takes it, the state
/// when the batch is written back.
pub struct Composition<H> {
    /// What is shown of the selected candidate.
    pub preview: String,
    /// What of the reading is shown after it.
    pub suffix: String,
    /// The keystrokes that the server has consumed for the reading it holds.
    pub raw_input: String,
    /// The reading.
    pub raw_hiragana: String,
    /// The keystrokes that the preview covers.
    pub corresponding_count: i32,
    /// The kana of the reading that the preview covers.
    pub surface_count: i32,
    pub selection_index: i32,
    pub candidates: Candidates,
    /// The state and the handle, which are one fact stated twice.
    pub hold: Hold<H>,
}

/// What the last batch left a composition in, and the handle by which the host
/// holds it open.
pub struct Hold<H> {
    state: CompositionState,
    tip: Option<H>,
}

impl<H> Hold<H> {
    /// What the last batch left the composition in.
    pub closed spec fn state_view(self) -> CompositionState {
        self.state
    }

    /// The handle that the host has given out.
    pub closed spec fn tip_view(self) -> Option<H> {
        self.tip
    }
}

impl<H> Composition<H> {
    /// What the last batch left the composition in.
    pub open spec fn spec_state(&self) -> CompositionState {
        self.hold.state_view()
    }

    /// The handle that the host has given out.
    pub open spec fn spec_tip(&self) -> Option<H> {
        self.hold.tip_view()
    }

    /// The invariant between batches: a composition that is not over is one
    /// that the host holds open.
    pub open spec fn wf(&self) -> bool {
        self.spec_state() != CompositionState::Idle ==> self.spec_tip() is Some
    }

    /// What a batch sees of the composition, to end in `state`.
    pub open spec fn edit_view(&self, state: CompositionState) -> EditView {
        EditView {
            preview: self.preview@,
            suffix: self.suffix@,
            raw_input: self.raw_input@,
            raw_hiragana: self.raw_hiragana@,
            corresponding_count: self.corresponding_count,
            surface_count: self.surface_count,
            candidates: self.candidates@,
            selection_index: self.selection_index,
            state,
        }
    }

    /// A composition that nothing has been typed into.
    pub fn new() -> (composition: Composition<H>)
        ensures
            composition.edit_view(CompositionState::Idle) == EditView::blank(CompositionState::Idle),
            composition.spec_state() == CompositionState::Idle,
            composition.spec_tip() is None,
            composition.wf(),
    {
        let composition = Composition {
            preview: String::new(),
            suffix: String::new(),
            raw_input: String::new(),
            raw_hiragana: String::new(),
            corresponding_count: 0,
            surface_count: 0,
            selection_index: 0,
            candidates: Candidates::none(),
            hold: Hold { state: CompositionState::Idle, tip: None },
        };
        assert(composition.edit_view(CompositionState::Idle) =~= EditView::blank(
            CompositionState::Idle,
        ));
        composition
    }

    /// What the last completed batch left this composition in.
    pub fn state(&self) -> (state: CompositionState)
        ensures
            state == self.spec_state(),
    {
        self.hold.state
    }

    /// The handle of the open composition, which is what is asked within a
    /// batch: only the handle is current then.
    pub fn tip(&self) -> (tip: Option<&H>)
        ensures
            match tip {
                Some(tip) => self.spec_tip() == Some(*tip),
                None => self.spec_tip() is None,
            },
    {
        self.hold.tip.as_ref()
    }

    /// Whether the host holds a composition open.
    pub fn has_tip(&self) -> (held: bool)
        ensures
            held == (self.spec_tip() is Some),
    {
        self.hold.tip.is_some()
    }

    /// Records the handle that the host just gave out.
    pub fn attach_tip(&mut self, tip: Option<H>)
        ensures
            final(self).spec_tip() == tip,
            final(self).spec_state() == old(self).spec_state(),
            final(self).edit_view(CompositionState::Idle) == old(self).edit_view(
                CompositionState::Idle,
            ),
    {
        self.hold.tip = tip;
    }

    /// Lets go of the handle.
    pub fn detach_tip(&mut self)
        ensures
            final(self).spec_tip() is None,
            final(self).spec_state() == old(self).spec_state(),
            final(self).edit_view(CompositionState::Idle) == old(self).edit_view(
                CompositionState::Idle,
            ),
    {
        self.hold.tip = None;
    }
}

/// The text of keystrokes that Backspace leaves: the first `count` of them,
/// which are those that the new top candidate covers. A negative count is read
/// as one past any end.
pub open spec fn kept_for_count(raw_input: Seq<char>, count: i32) -> Seq<char> {
    if 0 <= count < raw_input.len() {
        raw_input.take(count as int)
    } else {
        raw_input
    }
}

/// The keystrokes that are left when `count` of them, from the front, have
/// been committed. A negative count is read as one past any end.
pub open spec fn after_commit(raw_input: Seq<char>, appended: Seq<char>, count: i32) -> Seq<char> {
    let combined = raw_input + appended;
    if 0 <= count <= combined.len() {
        combined.skip(count as int)
    } else {
        Seq::empty()
    }
}

/// The bytes that the engine is given for text typed in a mode.
pub open spec fn keystrokes_of(mode: InputMode, text: Seq<char>) -> Seq<char> {
    match mode {
        InputMode::Kana => text.map_values(|c: char| fullwidth_char(c)),
        InputMode::Latin => text,
    }
}

/// Keeps the leading keystrokes that the new top candidate covers.
pub fn raw_input_kept_for_count(raw_input: &str, count: i32) -> (kept: String)
    ensures
        kept@ == kept_for_count(raw_input@, count),
{
    let mut chars = chars_of(raw_input);
    if count >= 0 {
        chars.truncate(count as usize);
    }
    let kept = text_of(&chars);
    assert(kept@ =~= kept_for_count(raw_input@, count));
    kept
}

/// Appends the freshly typed keystrokes, then drops from the front those that
/// the committed candidate consumed.
pub fn raw_input_after_commit(raw_input: &str, appended: &str, count: i32) -> (left: String)
    ensures
        left@ == after_commit(raw_input@, appended@, count),
{
    let mut chars = chars_of(raw_input);
    let mut more = chars_of(appended);
    chars.append(&mut more);
    assert(chars@ =~= raw_input@ + appended@);
    if count >= 0 && count as usize <= chars.len() {
        let rest = chars.split_off(count as usize);
        let left = text_of(&rest);
        assert(left@ =~= after_commit(raw_input@, appended@, count));
        left
    } else {
        let left = String::new();
        assert(left@ =~= after_commit(raw_input@, appended@, count));
        left
    }
}

/// The bytes that the engine is given for `text` typed in `mode`.
pub fn keystrokes(mode: InputMode, text: &str) -> (bytes: String)
    ensures
        bytes@ == keystrokes_of(mode, text@),
{
    match mode {
        InputMode::Kana => to_fullwidth(text),
        InputMode::Latin => text.to_string(),
    }
}

/// Replaying a whole reading gives the engine the same bytes as sending it
/// piece by piece: what is sent for two texts joined is what is sent for the
/// one and then for the other.
pub proof fn keystrokes_of_joined(mode: InputMode, a: Seq<char>, b: Seq<char>)
    ensures
        keystrokes_of(mode, a + b) == keystrokes_of(mode, a) + keystrokes_of(mode, b),
{
    assert(keystrokes_of(mode, a + b) =~= keystrokes_of(mode, a) + keystrokes_of(mode, b));
}

/// Committing, and then typing on, leaves the same keystrokes as doing both at
/// once, wherever the committed candidate covers no more than was typed.
pub proof fn commit_then_append(raw_input: Seq<char>, appended: Seq<char>, count: i32)
    requires
        0 <= count <= raw_input.len(),
    ensures
        after_commit(raw_input, appended, count) == after_commit(raw_input, Seq::empty(), count)
            + appended,
{
    assert(raw_input + Seq::<char>::empty() =~= raw_input);
    assert(after_commit(raw_input, appended, count) =~= after_commit(
        raw_input,
        Seq::empty(),
        count,
    ) + appended);
}

/// The keystrokes that a commit drops and those that it leaves are all there
/// were.
pub proof fn commit_splits_the_input(raw_input: Seq<char>, count: i32)
    ensures
        kept_for_count(raw_input, count) + after_commit(raw_input, Seq::empty(), count)
            == raw_input,
{
    assert(raw_input + Seq::<char>::empty() =~= raw_input);
    assert(kept_for_count(raw_input, count) + after_commit(raw_input, Seq::empty(), count)
        =~= raw_input);
}

/// A working copy as plain values.
#[verifier::ext_equal]
pub struct EditView {
    pub preview: Seq<char>,
    pub suffix: Seq<char>,
    pub raw_input: Seq<char>,
    pub raw_hiragana: Seq<char>,
    pub corresponding_count: i32,
    pub surface_count: i32,
    pub candidates: CandidatesView,
    pub selection_index: i32,
    pub state: CompositionState,
}

impl EditView {
    /// What is left of a composition that is over.
    pub open spec fn blank(state: CompositionState) -> EditView {
        EditView {
            preview: Seq::empty(),
            suffix: Seq::empty(),
            raw_input: Seq::empty(),
            raw_hiragana: Seq::empty(),
            corresponding_count: 0,
            surface_count: 0,
            candidates: CandidatesView::empty(),
            selection_index: 0,
            state,
        }
    }

    /// The candidate that a commit would confirm: the selected one, so long as
    /// it is what the preview shows.
    pub open spec fn confirmed(self) -> Option<i32> {
        if 0 <= self.selection_index < self.candidates.texts.len()
            && self.candidates.texts[self.selection_index as int] == self.preview {
            Some(self.selection_index)
        } else {
            None
        }
    }

    /// The working copy with a candidate of a list shown.
    pub open spec fn adopting(self, candidates: CandidatesView, index: int) -> EditView {
        let entry = candidates.entry(index);
        EditView {
            preview: entry.text,
            suffix: entry.sub_text,
            corresponding_count: entry.corresponding_count,
            surface_count: entry.surface_count,
            raw_hiragana: candidates.hiragana,
            ..self
        }
    }

    /// The working copy with the top of a fresh list shown.
    pub open spec fn adopting_fresh(self, candidates: CandidatesView) -> EditView {
        EditView { candidates, selection_index: 0, ..self.adopting(candidates, 0) }
    }
}

/// The working copy that a batch edits and that is then written back in one
/// step, whether or not the batch succeeded.
pub struct CompositionEdit {
    pub preview: String,
    pub suffix: String,
    pub raw_input: String,
    pub raw_hiragana: String,
    pub corresponding_count: i32,
    pub surface_count: i32,
    pub candidates: Candidates,
    pub selection_index: i32,
    /// Where the composition ends up.
    pub state: CompositionState,
}

impl View for CompositionEdit {
    type V = EditView;

    open spec fn view(&self) -> EditView {
        EditView {
            preview: self.preview@,
            suffix: self.suffix@,
            raw_input: self.raw_input@,
            raw_hiragana: self.raw_hiragana@,
            corresponding_count: self.corresponding_count,
            surface_count: self.surface_count,
            candidates: self.candidates@,
            selection_index: self.selection_index,
            state: self.state,
        }
    }
}

impl CompositionEdit {
    /// A working copy of the composition, to end in `state`.
    pub fn from_composition<H>(composition: &Composition<H>, state: CompositionState) -> (edit:
        CompositionEdit)
        ensures
            edit@ == composition.edit_view(state),
    {
        CompositionEdit {
            preview: composition.preview.clone(),
            suffix: composition.suffix.clone(),
            raw_input: composition.raw_input.clone(),
            raw_hiragana: composition.raw_hiragana.clone(),
            corresponding_count: composition.corresponding_count,
            surface_count: composition.surface_count,
            candidates: composition.candidates.copy(),
            selection_index: composition.selection_index,
            state,
        }
    }

    /// A copy of the working copy, to end in `state`.
    pub fn copy(&self, state: CompositionState) -> (edit: CompositionEdit)
        ensures
            edit@ == (EditView { state, ..self@ }),
    {
        CompositionEdit {
            preview: self.preview.clone(),
            suffix: self.suffix.clone(),
            raw_input: self.raw_input.clone(),
            raw_hiragana: self.raw_hiragana.clone(),
            corresponding_count: self.corresponding_count,
            surface_count: self.surface_count,
            candidates: self.candidates.copy(),
            selection_index: self.selection_index,
            state,
        }
    }

    /// The candidate that a commit would confirm, for the engine to learn
    /// from, or `None` where what is shown is no candidate that was picked.
    pub fn confirmed_candidate_index(&self) -> (index: Option<i32>)
        ensures
            index == self@.confirmed(),
    {
        if self.selection_index < 0 {
            return None;
        }
        let index: usize = self.selection_index as usize;
        if index < self.candidates.texts.len() {
            if self.candidates.texts[index] == self.preview {
                return Some(self.selection_index);
            }
        }
        None
    }

    /// Says that the preview is no candidate's any more. The list stays: it is
    /// still what the window shows and what an arrow key moves through.
    pub fn discard_candidate_selection(&mut self)
        ensures
            final(self)@ == (EditView { selection_index: -1i32, ..old(self)@ }),
            final(self)@.confirmed() is None,
    {
        self.selection_index = -1;
    }

    /// Shows the candidate at `index` of a list. A negative index is read as
    /// one past any end.
    pub fn adopt_candidate(&mut self, candidates: &Candidates, index: i32)
        ensures
            final(self)@ == old(self)@.adopting(candidates@, index as int),
    {
        let at: usize = if index < 0 {
            usize::MAX
        } else {
            index as usize
        };
        let (text, sub_text, count, surface) = candidates.entry(at);
        proof {
            if index < 0 {
                assert(candidates.texts.len() <= usize::MAX);
                assert(candidates.sub_texts.len() <= usize::MAX);
                assert(candidates.corresponding_count.len() <= usize::MAX);
                assert(candidates.surface_count.len() <= usize::MAX);
                assert(candidates@.entry(at as int) == candidates@.entry(index as int));
            }
        }
        self.corresponding_count = count;
        self.surface_count = surface;
        self.preview = text;
        self.suffix = sub_text;
        self.raw_hiragana = candidates.hiragana.clone();
    }

    /// Takes over a fresh list and shows its top.
    pub fn adopt_fresh(&mut self, candidates: Candidates)
        ensures
            final(self)@ == old(self)@.adopting_fresh(candidates@),
    {
        self.selection_index = 0;
        self.adopt_candidate(&candidates, 0);
        self.candidates = candidates;
    }

    /// Blanks what a composition that is over leaves behind, the list
    /// included. The state is the caller's.
    pub fn reset_for_teardown(&mut self)
        ensures
            final(self)@ == EditView::blank(old(self)@.state),
    {
        self.selection_index = 0;
        self.corresponding_count = 0;
        self.surface_count = 0;
        self.preview = String::new();
        self.suffix = String::new();
        self.raw_input = String::new();
        self.raw_hiragana = String::new();
        self.candidates = Candidates::none();
        assert(self@ =~= EditView::blank(old(self)@.state));
    }

    /// Writes the working copy back. The handle is the host's business; the
    /// state is reconciled with it, which establishes the invariant whatever
    /// the batch came to.
    pub fn commit<H>(self, composition: &mut Composition<H>)
        ensures
            final(composition).spec_tip() == old(composition).spec_tip(),
            final(composition).spec_state() == reconciled(
                self@.state,
                old(composition).spec_tip() is Some,
            ),
            final(composition).edit_view(self@.state) == self@,
            final(composition).wf(),
    {
        composition.preview = self.preview;
        composition.hold.state = reconcile(self.state, composition.hold.tip.is_some());
        composition.selection_index = self.selection_index;
        composition.raw_input = self.raw_input;
        composition.raw_hiragana = self.raw_hiragana;
        composition.candidates = self.candidates;
        composition.suffix = self.suffix;
        composition.corresponding_count = self.corresponding_count;
        composition.surface_count = self.surface_count;
    }
}

/// The state that a batch may leave behind: the one it means to, unless that
/// is an open composition and the host holds none open.
pub open spec fn reconciled(intended: CompositionState, has_tip: bool) -> CompositionState {
    if has_tip {
        intended
    } else {
        CompositionState::Idle
    }
}

/// The state that a batch may leave behind.
pub fn reconcile(intended: CompositionState, has_tip: bool) -> (state: CompositionState)
    ensures
        state == reconciled(intended, has_tip),
{
    match intended {
        CompositionState::Idle => CompositionState::Idle,
        CompositionState::Composing | CompositionState::Previewing => if has_tip {
            intended
        } else {
            CompositionState::Idle
        },
    }
}

/// Whether the outcome of an action can depend on the text around the
/// composition: it does where the reading is rewritten.
pub open spec fn reads_surroundings(action: ClientAction) -> bool {
    action is AppendText || action is RemoveText || action is ShrinkText
        || action is SetTextWithType
}

fn uses_surrounding_text(action: &ClientAction) -> (uses: bool)
    ensures
        uses == reads_surroundings(*action),
{
    match action {
        ClientAction::AppendText(_)
        | ClientAction::RemoveText(_)
        | ClientAction::ShrinkText(_)
        | ClientAction::SetTextWithType(_) => true,
        ClientAction::StartComposition
        | ClientAction::EndComposition
        | ClientAction::CancelComposition
        | ClientAction::CompositionTerminated
        | ClientAction::EndCompositionAtFocusLoss
        | ClientAction::MoveCursor(_)
        | ClientAction::SetSelection(_)
        | ClientAction::SetIMEMode(_) => false,
    }
}

/// Whether a batch has to tell the engine of the text around the composition
/// before it runs: where any of its actions can depend on that text.
pub fn needs_context_update(actions: &[ClientAction]) -> (needed: bool)
    ensures
        needed == exists|i: int| 0 <= i < actions@.len() && reads_surroundings(#[trigger] actions@[i]),
{
    let mut i: usize = 0;
    while i < actions.len()
        invariant
            i <= actions.len(),
            forall|j: int| 0 <= j < i ==> !reads_surroundings(#[trigger] actions@[j]),
        decreases actions.len() - i,
    {
        if uses_surrounding_text(&actions[i]) {
            return true;
        }
        i += 1;
    }
    false
}

/// A selection that was discarded is confirmed by no commit, whatever the list
/// and the preview.
pub proof fn discarded_selection_confirms_nothing(edit: EditView)
    requires
        edit.selection_index < 0,
    ensures
        edit.confirmed() is None,
{
}

/// Right after a candidate was taken off the list, it is the one that a commit
/// confirms.
pub proof fn adopted_candidate_is_confirmed(edit: EditView, index: i32)
    requires
        0 <= index < edit.candidates.texts.len(),
    ensures
        (EditView { selection_index: index, ..edit }).adopting(edit.candidates, index as int).confirmed()
            == Some(index),
{
}

/// A batch leaves the state that it means to where the host holds a composition
/// open, and nothing composed where it holds none.
pub proof fn without_a_handle_nothing_is_composed(intended: CompositionState)
    ensures
        reconciled(intended, true) == intended,
        reconciled(intended, false) == CompositionState::Idle,
{
}

/// What is sent for a text typed in direct input is the text, and in kana input
/// the text with each of its symbols widened.
pub proof fn direct_input_sends_what_is_typed(text: Seq<char>)
    ensures
        keystrokes_of(InputMode::Latin, text) == text,
        keystrokes_of(InputMode::Kana, text).len() == text.len(),
        forall|i: int|
            0 <= i < text.len() ==> #[trigger] keystrokes_of(InputMode::Kana, text)[i]
                == fullwidth_char(text[i]),
{
}

/// What a batch sees of a composition, and of its working copy, is each field as
/// it is kept.
pub proof fn a_composition_is_seen_as_it_is_kept<H>(
    composition: Composition<H>,
    edit: CompositionEdit,
    state: CompositionState,
)
    ensures
        ({
            let seen = composition.edit_view(state);
            &&& seen.preview == composition.preview@
            &&& seen.suffix == composition.suffix@
            &&& seen.raw_input == composition.raw_input@
            &&& seen.raw_hiragana == composition.raw_hiragana@
            &&& seen.corresponding_count == composition.corresponding_count
            &&& seen.surface_count == composition.surface_count
            &&& seen.selection_index == composition.selection_index
            &&& seen.candidates == composition.candidates@
            &&& seen.state == state
        }),
        edit@.preview == edit.preview@,
        edit@.suffix == edit.suffix@,
        edit@.raw_input == edit.raw_input@,
        edit@.raw_hiragana == edit.raw_hiragana@,
        edit@.corresponding_count == edit.corresponding_count,
        edit@.surface_count == edit.surface_count,
        edit@.selection_index == edit.selection_index,
        edit@.candidates == edit.candidates@,
        edit@.state == edit.state,
{
}

/// A count that no keystrokes answer to, being negative or too large, removes
/// none of them and commits all of them.
pub proof fn a_count_past_the_end_is_all_or_none(
    raw_input: Seq<char>,
    appended: Seq<char>,
    count: i32,
)
    requires
        count < 0 || count > raw_input.len() + appended.len(),
    ensures
        kept_for_count(raw_input, count) == raw_input,
        after_commit(raw_input, appended, count).len() == 0,
{
}

/// Exactly the actions that rewrite the reading depend on the text around it.
pub proof fn what_rewrites_the_reading_reads_its_surroundings(text: String, count: u32)
    ensures
        reads_surroundings(ClientAction::AppendText(text)),
        reads_surroundings(ClientAction::ShrinkText(text)),
        reads_surroundings(ClientAction::RemoveText(count)),
        !reads_surroundings(ClientAction::StartComposition),
        !reads_surroundings(ClientAction::EndComposition),
        !reads_surroundings(ClientAction::CancelComposition),
        !reads_surroundings(ClientAction::CompositionTerminated),
        !reads_surroundings(ClientAction::EndCompositionAtFocusLoss),
{
}

} // verus!

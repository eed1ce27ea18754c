//! Running a batch of actions against the composition.
//!
//! A [`Batch`] edits a working copy and says, one at a time, what is to be
//! done outside it: an edit of the document, a call to the engine, an update
//! of the candidate window. Whoever runs it performs each [`Effect`] and hands
//! back how it went. However the batch fares, it ends in one write-back.

use vstd::prelude::*;

#[allow(unused_imports)]
use super::client_action::SetSelectionType;
use super::client_action::{ClientAction, SetTextType};
#[allow(unused_imports)]
use super::composition::{
    after_commit, kept_for_count, keystrokes_of, reads_surroundings, reconciled, EditView,
};
use super::composition::{
    keystrokes, needs_context_update, raw_input_after_commit, raw_input_kept_for_count, Composition,
    CompositionEdit, CompositionState,
};
#[allow(unused_imports)]
use super::full_width::{fullwidth_ascii_char, halfwidth_char};
use super::full_width::{to_fullwidth_ascii, to_halfwidth};
use super::input_mode::InputMode;
#[allow(unused_imports)]
use super::ipc_service::CandidatesView;
use super::ipc_service::{removal_count, Candidates};
#[allow(unused_imports)]
use super::text_util::{half_katakana, katakana_char};
use super::text_util::{to_half_katakana, to_katakana};
use crate::failure::{is_server_unavailable, Failure};

verus! {

/// Something that a batch asks to be done outside it.
pub enum Effect {
    /// Tell the engine of the text before the caret, which lies after this
    /// text of the composition.
    UpdateContext(String),
    /// Have the host open a composition.
    StartComposition,
    /// Have the host end the composition, with what it holds committed.
    EndComposition,
    /// Let go of a composition that the host has already ended.
    ReleaseComposition,
    /// Show this in the composition.
    SetText { preview: String, suffix: String },
    /// Commit the text at the front of the composition and show the rest.
    ShiftStart { committed: String, preview: String },
    /// Tell the candidate window where the caret is.
    UpdatePos,
    OpenCandidates,
    CloseCandidates,
    /// Hand out the candidates: the whole list, or only which one is selected.
    Publish { candidates: Candidates, selection: i32, whole_list: bool },
    AppendText(String),
    RemoveText(i32),
    ShrinkText(i32, Option<i32>),
    ClearText(Option<i32>),
    /// Remember when the mode was switched.
    NoteModeToggle,
    ApplyInputMode(InputMode),
}

/// An effect as plain values.
pub enum EffectView {
    UpdateContext(Seq<char>),
    StartComposition,
    EndComposition,
    ReleaseComposition,
    SetText { preview: Seq<char>, suffix: Seq<char> },
    ShiftStart { committed: Seq<char>, preview: Seq<char> },
    UpdatePos,
    OpenCandidates,
    CloseCandidates,
    Publish { candidates: CandidatesView, selection: i32, whole_list: bool },
    AppendText(Seq<char>),
    RemoveText(i32),
    ShrinkText(i32, Option<i32>),
    ClearText(Option<i32>),
    NoteModeToggle,
    ApplyInputMode(InputMode),
}

impl View for Effect {
    type V = EffectView;

    open spec fn view(&self) -> EffectView {
        match *self {
            Effect::UpdateContext(text) => EffectView::UpdateContext(text@),
            Effect::StartComposition => EffectView::StartComposition,
            Effect::EndComposition => EffectView::EndComposition,
            Effect::ReleaseComposition => EffectView::ReleaseComposition,
            Effect::SetText { preview, suffix } => EffectView::SetText {
                preview: preview@,
                suffix: suffix@,
            },
            Effect::ShiftStart { committed, preview } => EffectView::ShiftStart {
                committed: committed@,
                preview: preview@,
            },
            Effect::UpdatePos => EffectView::UpdatePos,
            Effect::OpenCandidates => EffectView::OpenCandidates,
            Effect::CloseCandidates => EffectView::CloseCandidates,
            Effect::Publish { candidates, selection, whole_list } => EffectView::Publish {
                candidates: candidates@,
                selection,
                whole_list,
            },
            Effect::AppendText(text) => EffectView::AppendText(text@),
            Effect::RemoveText(count) => EffectView::RemoveText(count),
            Effect::ShrinkText(surface, confirmed) => EffectView::ShrinkText(surface, confirmed),
            Effect::ClearText(confirmed) => EffectView::ClearText(confirmed),
            Effect::NoteModeToggle => EffectView::NoteModeToggle,
            Effect::ApplyInputMode(mode) => EffectView::ApplyInputMode(mode),
        }
    }
}

impl EffectView {
    /// Whether the effect is a call to the conversion server.
    pub open spec fn is_engine_call(self) -> bool {
        self is AppendText || self is RemoveText || self is ShrinkText || self is ClearText
            || self is UpdateContext
    }

    /// Whether the effect edits the document.
    pub open spec fn edits_document(self) -> bool {
        self is StartComposition || self is EndComposition || self is SetText || self is ShiftStart
    }
}

/// One step of an action: an effect, and what its outcome means.
#[derive(Clone, Copy, PartialEq, Eq, Structural)]
pub enum Step {
    StartComposition,
    UpdatePos,
    OpenCandidates,
    /// Empties the composition.
    BlankText,
    /// Ends the composition for good; the working copy is blank afterwards.
    EndComposition,
    /// Lets go of a composition that is over; the working copy is blank
    /// afterwards.
    ReleaseComposition,
    CloseCandidates,
    /// Clears the server's reading and tells it what was confirmed.
    ClearConfirmed,
    /// Clears the server's reading.
    ClearDiscarded,
    Append,
    Remove,
    /// Shows the preview and the rest of the reading.
    Render,
    PublishList,
    PublishSelection,
    NoteModeToggle,
    /// Ends the composition that a mode switch opened.
    EndForMode,
    /// Applies the mode; the working copy is blank afterwards.
    ApplyMode,
    Shrink,
    AppendRest,
    ShiftStart,
    ShowForm,
}

/// What a failed step means for its action.
#[derive(Clone, Copy, PartialEq, Eq, Structural)]
pub enum OnFailure {
    /// Nothing: the step is advisory.
    Ignore,
    /// The action goes on and fails at its end.
    Defer,
    /// The action, and with it the batch, fails at once.
    Abort,
}

impl Step {
    /// What a failure of the step means.
    pub open spec fn on_failure(self) -> OnFailure {
        match self {
            Step::UpdatePos
            | Step::OpenCandidates
            | Step::CloseCandidates
            | Step::ReleaseComposition
            | Step::PublishList
            | Step::PublishSelection
            | Step::NoteModeToggle => OnFailure::Ignore,
            Step::BlankText
            | Step::EndComposition
            | Step::ClearConfirmed
            | Step::ClearDiscarded
            | Step::ApplyMode => OnFailure::Defer,
            Step::StartComposition
            | Step::Append
            | Step::Remove
            | Step::Render
            | Step::EndForMode
            | Step::Shrink
            | Step::AppendRest
            | Step::ShiftStart
            | Step::ShowForm => OnFailure::Abort,
        }
    }

    fn failure_policy(self) -> (policy: OnFailure)
        ensures
            policy == self.on_failure(),
    {
        match self {
            Step::UpdatePos
            | Step::OpenCandidates
            | Step::CloseCandidates
            | Step::ReleaseComposition
            | Step::PublishList
            | Step::PublishSelection
            | Step::NoteModeToggle => OnFailure::Ignore,
            Step::BlankText
            | Step::EndComposition
            | Step::ClearConfirmed
            | Step::ClearDiscarded
            | Step::ApplyMode => OnFailure::Defer,
            Step::StartComposition
            | Step::Append
            | Step::Remove
            | Step::Render
            | Step::EndForMode
            | Step::Shrink
            | Step::AppendRest
            | Step::ShiftStart
            | Step::ShowForm => OnFailure::Abort,
        }
    }

    /// Whether the working copy is blank after the step, however it went.
    pub open spec fn tears_down(self) -> bool {
        self == Step::EndComposition || self == Step::ReleaseComposition || self == Step::ApplyMode
    }
}

/// The steps of an action, in order.
pub open spec fn steps_of(action: ClientAction) -> Seq<Step> {
    match action {
        ClientAction::StartComposition => seq![
            Step::StartComposition,
            Step::UpdatePos,
            Step::OpenCandidates,
        ],
        ClientAction::EndComposition => seq![
            Step::EndComposition,
            Step::CloseCandidates,
            Step::ClearConfirmed,
        ],
        ClientAction::CancelComposition => seq![
            Step::BlankText,
            Step::EndComposition,
            Step::CloseCandidates,
            Step::ClearDiscarded,
        ],
        ClientAction::CompositionTerminated => seq![
            Step::ReleaseComposition,
            Step::CloseCandidates,
            Step::ClearDiscarded,
        ],
        ClientAction::EndCompositionAtFocusLoss => seq![
            Step::EndComposition,
            Step::CloseCandidates,
            Step::ClearDiscarded,
        ],
        ClientAction::AppendText(_) => seq![Step::Append, Step::Render, Step::PublishList],
        ClientAction::RemoveText(_) => seq![Step::Remove, Step::Render, Step::PublishList],
        ClientAction::ShrinkText(_) => seq![
            Step::Shrink,
            Step::AppendRest,
            Step::ShiftStart,
            Step::PublishList,
            Step::UpdatePos,
        ],
        ClientAction::SetTextWithType(_) => seq![Step::ShowForm],
        ClientAction::MoveCursor(_) => seq![],
        ClientAction::SetSelection(_) => seq![Step::PublishSelection, Step::Render],
        ClientAction::SetIMEMode(_) => seq![
            Step::NoteModeToggle,
            Step::StartComposition,
            Step::UpdatePos,
            Step::EndForMode,
            Step::CloseCandidates,
            Step::ApplyMode,
            Step::ClearDiscarded,
        ],
    }
}

fn pick(steps: &[Step], index: usize) -> (step: Option<Step>)
    ensures
        step == if index < steps@.len() {
            Some(steps@[index as int])
        } else {
            None
        },
{
    if index < steps.len() {
        Some(steps[index])
    } else {
        None
    }
}

fn step_of(action: &ClientAction, index: usize) -> (step: Option<Step>)
    ensures
        step == if index < steps_of(*action).len() {
            Some(steps_of(*action)[index as int])
        } else {
            None
        },
{
    match action {
        ClientAction::StartComposition => pick(
            &[Step::StartComposition, Step::UpdatePos, Step::OpenCandidates],
            index,
        ),
        ClientAction::EndComposition => pick(
            &[Step::EndComposition, Step::CloseCandidates, Step::ClearConfirmed],
            index,
        ),
        ClientAction::CancelComposition => pick(
            &[Step::BlankText, Step::EndComposition, Step::CloseCandidates, Step::ClearDiscarded],
            index,
        ),
        ClientAction::CompositionTerminated => pick(
            &[Step::ReleaseComposition, Step::CloseCandidates, Step::ClearDiscarded],
            index,
        ),
        ClientAction::EndCompositionAtFocusLoss => pick(
            &[Step::EndComposition, Step::CloseCandidates, Step::ClearDiscarded],
            index,
        ),
        ClientAction::AppendText(_) => pick(
            &[Step::Append, Step::Render, Step::PublishList],
            index,
        ),
        ClientAction::RemoveText(_) => pick(
            &[Step::Remove, Step::Render, Step::PublishList],
            index,
        ),
        ClientAction::ShrinkText(_) => pick(
            &[
                Step::Shrink,
                Step::AppendRest,
                Step::ShiftStart,
                Step::PublishList,
                Step::UpdatePos,
            ],
            index,
        ),
        ClientAction::SetTextWithType(_) => pick(&[Step::ShowForm], index),
        ClientAction::MoveCursor(_) => None,
        ClientAction::SetSelection(_) => pick(&[Step::PublishSelection, Step::Render], index),
        ClientAction::SetIMEMode(_) => pick(
            &[
                Step::NoteModeToggle,
                Step::StartComposition,
                Step::UpdatePos,
                Step::EndForMode,
                Step::CloseCandidates,
                Step::ApplyMode,
                Step::ClearDiscarded,
            ],
            index,
        ),
    }
}

/// The whole reading in one of its forms: three are forms of the kana, two of
/// the keystrokes.
pub open spec fn form_of(form: SetTextType, edit: EditView) -> Seq<char> {
    match form {
        SetTextType::Hiragana => edit.raw_hiragana,
        SetTextType::Katakana => edit.raw_hiragana.map_values(|c: char| katakana_char(c)),
        SetTextType::HalfKatakana => half_katakana(edit.raw_hiragana),
        SetTextType::FullLatin => edit.raw_input.map_values(|c: char| fullwidth_ascii_char(c)),
        SetTextType::HalfLatin => edit.raw_input.map_values(|c: char| halfwidth_char(c)),
    }
}

/// The selection after a move, which stays on the list.
pub open spec fn moved_selection(selection: i32, direction: SetSelectionType, len: nat) -> i32 {
    let moved = match direction {
        SetSelectionType::Up => selection - 1,
        SetSelectionType::Down => selection + 1,
    };
    let last = if len == 0 {
        0
    } else if len - 1 > i32::MAX {
        i32::MAX as int
    } else {
        len - 1
    };
    if moved < 0 {
        0
    } else if moved > last {
        last as i32
    } else {
        moved as i32
    }
}

fn move_selection(selection: i32, direction: SetSelectionType, len: usize) -> (moved: i32)
    ensures
        moved == moved_selection(selection, direction, len as nat),
{
    let last: i32 = if len == 0 {
        0
    } else if len - 1 > 0x7fff_ffff {
        i32::MAX
    } else {
        (len - 1) as i32
    };
    match direction {
        SetSelectionType::Up => if selection <= 0 {
            0
        } else if selection - 1 > last {
            last
        } else {
            selection - 1
        },
        SetSelectionType::Down => if selection >= last {
            last
        } else if selection < 0 {
            0
        } else {
            selection + 1
        },
    }
}

/// Where a batch stands.
#[derive(Clone, Copy, PartialEq, Eq, Structural)]
pub enum Phase {
    /// The engine is being told of the surrounding text.
    Context,
    /// The actions are being run.
    Running,
    /// The server was lost and answers again, perhaps: its reading is being
    /// cleared...
    Clearing,
    /// ...and typed anew.
    Replaying,
    /// The server is lost: the composition is being ended...
    Ending,
    /// ...and the candidates put away.
    Closing,
    Finished,
}

/// A batch as plain values.
pub struct BatchView {
    pub actions: Seq<ClientAction>,
    pub mode: InputMode,
    /// The state that the batch was to end in.
    pub intent: CompositionState,
    /// The composition that the batch started with.
    pub snapshot: EditView,
    pub edit: EditView,
    /// The working copy as the current action found it.
    pub entry: EditView,
    /// The current action and its current step.
    pub at: int,
    pub step: int,
    /// The first failure of the current action that does not stop it.
    pub deferred: Option<Failure>,
    pub phase: Phase,
    /// What the batch failed with.
    pub outcome: Option<Failure>,
}

impl BatchView {
    /// Whether the server's reading can be put back to what it was: the batch
    /// was not to end the composition, and there is something to put back.
    pub open spec fn can_rebuild(self) -> bool {
        self.intent != CompositionState::Idle && self.snapshot.state != CompositionState::Idle
            && self.snapshot.raw_input.len() > 0
    }

    /// The batch after a failure that stops it. The loss of the server is
    /// dealt with and is no failure of the batch; anything else is.
    pub open spec fn failing(self, failure: Failure) -> BatchView {
        if failure.is_unavailable() {
            BatchView {
                phase: if self.can_rebuild() {
                    Phase::Clearing
                } else {
                    Phase::Ending
                },
                deferred: None,
                ..self
            }
        } else {
            BatchView {
                phase: Phase::Finished,
                deferred: None,
                outcome: Some(failure),
                ..self
            }
        }
    }

    /// The batch at its next step: an action whose steps are done gives way to
    /// the next one, unless one of its steps failed.
    pub open spec fn settled(self) -> BatchView
        decreases self.actions.len() - self.at,
    {
        if self.at < 0 || self.at >= self.actions.len() {
            BatchView { phase: Phase::Finished, ..self }
        } else if 0 <= self.step < steps_of(self.actions[self.at]).len() {
            self
        } else if self.deferred is Some {
            self.failing(self.deferred->0)
        } else {
            (BatchView { at: self.at + 1, step: 0, entry: self.edit, ..self }).settled()
        }
    }

    /// The current action.
    pub open spec fn action(self) -> ClientAction {
        self.actions[self.at]
    }

    /// The current step.
    pub open spec fn current(self) -> Step {
        steps_of(self.action())[self.step]
    }

    /// What the batch asks for next.
    pub open spec fn effect(self) -> Option<EffectView> {
        match self.phase {
            Phase::Context => Some(
                EffectView::UpdateContext(self.edit.preview + self.edit.suffix),
            ),
            Phase::Running => Some(step_effect(self.current(), self.action(), self.mode, self.entry,
                self.edit)),
            Phase::Clearing => Some(EffectView::ClearText(None)),
            Phase::Replaying => Some(
                EffectView::AppendText(keystrokes_of(self.mode, self.snapshot.raw_input)),
            ),
            Phase::Ending => Some(EffectView::EndComposition),
            Phase::Closing => Some(EffectView::CloseCandidates),
            Phase::Finished => None,
        }
    }

    /// The batch once the effect it asked for has gone one way or another.
    pub open spec fn resumed(self, reply: Result<CandidatesView, Failure>) -> BatchView {
        match self.phase {
            Phase::Context => (BatchView { phase: Phase::Running, ..self }).settled(),
            Phase::Running => self.stepped(reply),
            Phase::Clearing => BatchView {
                phase: if reply is Ok {
                    Phase::Replaying
                } else {
                    Phase::Ending
                },
                ..self
            },
            Phase::Replaying => if reply is Ok {
                BatchView { phase: Phase::Finished, edit: self.snapshot, ..self }
            } else {
                BatchView { phase: Phase::Ending, ..self }
            },
            Phase::Ending => BatchView { phase: Phase::Closing, ..self },
            Phase::Closing => BatchView {
                phase: Phase::Finished,
                edit: EditView::blank(CompositionState::Idle),
                ..self
            },
            Phase::Finished => self,
        }
    }

    /// The batch once a step of an action has gone one way or another.
    #[verifier::opaque]
    pub open spec fn stepped(self, reply: Result<CandidatesView, Failure>) -> BatchView {
        let step = self.current();
        let edit = if step.tears_down() {
            EditView::blank(self.edit.state)
        } else {
            match reply {
                Ok(candidates) => step_edit(step, self.action(), self.entry, self.edit, candidates),
                Err(_) => if step == Step::PublishSelection {
                    step_edit(step, self.action(), self.entry, self.edit, CandidatesView::empty())
                } else {
                    self.edit
                },
            }
        };
        let next = BatchView { edit, step: self.step + 1, ..self };
        match reply {
            Ok(_) => next.settled(),
            Err(failure) => match step.on_failure() {
                OnFailure::Ignore => next.settled(),
                OnFailure::Defer => if self.deferred is Some {
                    next.settled()
                } else {
                    (BatchView { deferred: Some(failure), ..next }).settled()
                },
                OnFailure::Abort => self.failing(failure),
            },
        }
    }
}

/// What a step asks for.
pub open spec fn step_effect(
    step: Step,
    action: ClientAction,
    mode: InputMode,
    entry: EditView,
    edit: EditView,
) -> EffectView {
    match step {
        Step::StartComposition => EffectView::StartComposition,
        Step::UpdatePos => EffectView::UpdatePos,
        Step::OpenCandidates => EffectView::OpenCandidates,
        Step::BlankText => EffectView::SetText { preview: Seq::empty(), suffix: Seq::empty() },
        Step::EndComposition | Step::EndForMode => EffectView::EndComposition,
        Step::ReleaseComposition => EffectView::ReleaseComposition,
        Step::CloseCandidates => EffectView::CloseCandidates,
        Step::ClearConfirmed => EffectView::ClearText(entry.confirmed()),
        Step::ClearDiscarded => EffectView::ClearText(None),
        Step::Append | Step::AppendRest => EffectView::AppendText(
            keystrokes_of(mode, typed_text(action)),
        ),
        Step::Remove => EffectView::RemoveText(removed_kana(action)),
        Step::Render => EffectView::SetText { preview: edit.preview, suffix: edit.suffix },
        Step::PublishList => EffectView::Publish {
            candidates: edit.candidates,
            selection: edit.selection_index,
            whole_list: true,
        },
        Step::PublishSelection => EffectView::Publish {
            candidates: edit.candidates,
            selection: selection_after(action, edit),
            whole_list: false,
        },
        Step::NoteModeToggle => EffectView::NoteModeToggle,
        Step::ApplyMode => EffectView::ApplyInputMode(mode_of(action)),
        Step::Shrink => EffectView::ShrinkText(entry.surface_count, entry.confirmed()),
        Step::ShiftStart => EffectView::ShiftStart {
            committed: entry.preview,
            preview: edit.preview,
        },
        Step::ShowForm => EffectView::SetText {
            preview: form_of(form_asked(action), edit),
            suffix: Seq::empty(),
        },
    }
}

/// The working copy after a step that succeeded.
pub open spec fn step_edit(
    step: Step,
    action: ClientAction,
    entry: EditView,
    edit: EditView,
    candidates: CandidatesView,
) -> EditView {
    match step {
        Step::Append => EditView {
            raw_input: edit.raw_input + typed_text(action),
            ..edit.adopting_fresh(candidates)
        },
        Step::Remove => {
            let fresh = edit.adopting_fresh(candidates);
            EditView {
                raw_input: kept_for_count(edit.raw_input, fresh.corresponding_count),
                ..fresh
            }
        },
        Step::PublishSelection => {
            let selection = selection_after(action, edit);
            (EditView { selection_index: selection, ..edit }).adopting(
                edit.candidates,
                selection as int,
            )
        },
        Step::Shrink => EditView {
            raw_input: after_commit(entry.raw_input, Seq::empty(), entry.corresponding_count),
            ..edit
        },
        Step::AppendRest => EditView {
            raw_input: after_commit(
                entry.raw_input,
                typed_text(action),
                entry.corresponding_count,
            ),
            ..edit.adopting_fresh(candidates)
        },
        Step::ShiftStart => EditView { state: CompositionState::Composing, ..edit },
        Step::ShowForm => EditView {
            preview: form_of(form_asked(action), edit),
            suffix: Seq::empty(),
            corresponding_count: edit.raw_input.len() as i32,
            surface_count: edit.raw_hiragana.len() as i32,
            selection_index: -1i32,
            ..edit
        },
        _ => edit,
    }
}

/// The text that an action types.
pub open spec fn typed_text(action: ClientAction) -> Seq<char> {
    match action {
        ClientAction::AppendText(text) => text@,
        ClientAction::ShrinkText(text) => text@,
        _ => Seq::empty(),
    }
}

/// The count that a removal sends.
pub open spec fn removed_kana(action: ClientAction) -> i32 {
    match action {
        ClientAction::RemoveText(count) => if count <= i32::MAX {
            count as i32
        } else {
            i32::MAX
        },
        _ => 0,
    }
}

/// The selection that an action moves to.
pub open spec fn selection_after(action: ClientAction, edit: EditView) -> i32 {
    match action {
        ClientAction::SetSelection(direction) => moved_selection(
            edit.selection_index,
            direction,
            edit.candidates.texts.len(),
        ),
        _ => edit.selection_index,
    }
}

/// The mode that an action switches to.
pub open spec fn mode_of(action: ClientAction) -> InputMode {
    match action {
        ClientAction::SetIMEMode(mode) => mode,
        _ => InputMode::Latin,
    }
}

/// The form that an action asks for.
pub open spec fn form_asked(action: ClientAction) -> SetTextType {
    match action {
        ClientAction::SetTextWithType(form) => form,
        _ => SetTextType::Hiragana,
    }
}

/// A batch before anything was done for it.
pub open spec fn started(
    snapshot: EditView,
    mode: InputMode,
    actions: Seq<ClientAction>,
    intent: CompositionState,
) -> BatchView {
    let edit = EditView { state: intent, ..snapshot };
    let fresh = BatchView {
        actions,
        mode,
        intent,
        snapshot,
        edit,
        entry: edit,
        at: 0,
        step: 0,
        deferred: None,
        phase: Phase::Running,
        outcome: None,
    };
    if exists|i: int| 0 <= i < actions.len() && reads_surroundings(#[trigger] actions[i]) {
        BatchView { phase: Phase::Context, ..fresh }
    } else {
        fresh.settled()
    }
}

/// What an effect was answered with, as plain values. An effect that has no
/// answer of its own is answered with an empty list.
pub open spec fn reply_view(reply: Result<Candidates, Failure>) -> Result<CandidatesView, Failure> {
    match reply {
        Ok(candidates) => Ok(candidates@),
        Err(failure) => Err(failure),
    }
}

/// A batch of actions under way.
pub struct Batch {
    actions: Vec<ClientAction>,
    mode: InputMode,
    intent: CompositionState,
    snapshot: CompositionEdit,
    edit: CompositionEdit,
    entry: CompositionEdit,
    at: usize,
    step: usize,
    deferred: Option<Failure>,
    phase: Phase,
    outcome: Option<Failure>,
}

impl View for Batch {
    type V = BatchView;

    closed spec fn view(&self) -> BatchView {
        BatchView {
            actions: self.actions@,
            mode: self.mode,
            intent: self.intent,
            snapshot: self.snapshot@,
            edit: self.edit@,
            entry: self.entry@,
            at: self.at as int,
            step: self.step as int,
            deferred: self.deferred,
            phase: self.phase,
            outcome: self.outcome,
        }
    }
}

impl BatchView {
    /// A batch that runs has a step to run, and one that is not finished has
    /// not failed.
    pub open spec fn wf(self) -> bool {
        &&& self.phase == Phase::Running ==> 0 <= self.at < self.actions.len() && 0 <= self.step
            < steps_of(self.action()).len()
        &&& self.phase != Phase::Finished ==> self.outcome is None
    }

    /// A batch that is settled is well-formed.
    pub proof fn settled_is_wf(self)
        requires
            self.phase == Phase::Running,
            self.outcome is None,
        ensures
            self.settled().wf(),
        decreases self.actions.len() - self.at,
    {
        if self.at < 0 || self.at >= self.actions.len() {
        } else if 0 <= self.step < steps_of(self.actions[self.at]).len() {
        } else if self.deferred is Some {
        } else {
            (BatchView { at: self.at + 1, step: 0, entry: self.edit, ..self }).settled_is_wf();
        }
    }
}

fn text_typed(action: &ClientAction) -> (text: String)
    ensures
        text@ == typed_text(*action),
{
    match action {
        ClientAction::AppendText(text) => text.clone(),
        ClientAction::ShrinkText(text) => text.clone(),
        _ => {
            let text = String::new();
            assert(text@ =~= Seq::<char>::empty());
            text
        },
    }
}

fn next_selection(action: &ClientAction, edit: &CompositionEdit) -> (selection: i32)
    ensures
        selection == selection_after(*action, edit@),
{
    match action {
        ClientAction::SetSelection(direction) => move_selection(
            edit.selection_index,
            *direction,
            edit.candidates.texts.len(),
        ),
        _ => edit.selection_index,
    }
}

fn asked_form(action: &ClientAction) -> (form: SetTextType)
    ensures
        form == form_asked(*action),
{
    match action {
        ClientAction::SetTextWithType(form) => *form,
        _ => SetTextType::Hiragana,
    }
}

/// The whole reading in one of its forms.
fn text_in_form(form: SetTextType, edit: &CompositionEdit) -> (text: String)
    ensures
        text@ == form_of(form, edit@),
{
    match form {
        SetTextType::Hiragana => edit.raw_hiragana.clone(),
        SetTextType::Katakana => to_katakana(&edit.raw_hiragana),
        SetTextType::HalfKatakana => to_half_katakana(&edit.raw_hiragana),
        SetTextType::FullLatin => to_fullwidth_ascii(&edit.raw_input),
        SetTextType::HalfLatin => to_halfwidth(&edit.raw_input),
    }
}

fn empty_text() -> (text: String)
    ensures
        text@ == Seq::<char>::empty(),
{
    let text = String::new();
    assert(text@ =~= Seq::<char>::empty());
    text
}

impl Batch {
    /// Whether the batch is well-formed.
    pub open spec fn wf(self) -> bool {
        self@.wf()
    }

    /// Sets out to run `actions` on the composition and to leave it in
    /// `transition`. The mode is the one that the keystrokes were typed in.
    pub fn begin<H>(
        composition: &Composition<H>,
        mode: InputMode,
        actions: Vec<ClientAction>,
        transition: CompositionState,
    ) -> (batch: Batch)
        ensures
            batch@ == started(
                composition.edit_view(composition.spec_state()),
                mode,
                actions@,
                transition,
            ),
            batch.wf(),
    {
        let needed = needs_context_update(&actions);
        let mut batch = Batch {
            actions,
            mode,
            intent: transition,
            snapshot: CompositionEdit::from_composition(composition, composition.state()),
            edit: CompositionEdit::from_composition(composition, transition),
            entry: CompositionEdit::from_composition(composition, transition),
            at: 0,
            step: 0,
            deferred: None,
            phase: Phase::Running,
            outcome: None,
        };
        if needed {
            batch.phase = Phase::Context;
        } else {
            batch.settle();
        }
        batch
    }

    /// Moves on to the next step, or to the end.
    fn settle(&mut self)
        requires
            old(self).phase == Phase::Running,
            old(self).outcome is None,
        ensures
            final(self)@ == old(self)@.settled(),
            final(self).wf(),
    {
        proof {
            self@.settled_is_wf();
        }
        let ghost target = self@.settled();
        while self.at < self.actions.len()
            invariant
                self.phase == Phase::Running,
                self@.settled() == target,
                target == old(self)@.settled(),
                target.wf(),
            ensures
                self@.settled() == target,
                self.phase == Phase::Running,
                target.wf(),
                self.at >= self.actions.len(),
            decreases self.actions.len() - self.at,
        {
            match step_of(&self.actions[self.at], self.step) {
                Some(_) => {
                    return ;
                },
                None => {
                    match self.deferred.take() {
                        Some(failure) => {
                            self.fail(failure);
                            return ;
                        },
                        None => {
                            self.entry = self.edit.copy(self.edit.state);
                            self.at = self.at + 1;
                            self.step = 0;
                        },
                    }
                },
            }
        }
        self.phase = Phase::Finished;
    }

    /// Stops the batch for a failure, or turns to what the loss of the server
    /// asks for.
    fn fail(&mut self, failure: Failure)
        ensures
            final(self)@ == old(self)@.failing(failure),
    {
        self.deferred = None;
        if is_server_unavailable(&failure) {
            let rebuild = self.intent != CompositionState::Idle && self.snapshot.state
                != CompositionState::Idle && self.snapshot.raw_input.as_str().unicode_len() > 0;
            if rebuild {
                self.phase = Phase::Clearing;
            } else {
                self.phase = Phase::Ending;
            }
        } else {
            self.phase = Phase::Finished;
            self.outcome = Some(failure);
        }
    }

    /// What is to be done next; `None` once the batch can be written back.
    pub fn effect(&self) -> (effect: Option<Effect>)
        requires
            self.wf(),
        ensures
            match effect {
                Some(effect) => self@.effect() == Some(effect@),
                None => self@.effect() is None,
            },
    {
        match self.phase {
            Phase::Context => {
                let mut text = self.edit.preview.clone();
                text.push_str(&self.edit.suffix);
                Some(Effect::UpdateContext(text))
            },
            Phase::Running => match step_of(&self.actions[self.at], self.step) {
                Some(step) => Some(self.effect_of(step)),
                None => None,
            },
            Phase::Clearing => Some(Effect::ClearText(None)),
            Phase::Replaying => Some(
                Effect::AppendText(keystrokes(self.mode, &self.snapshot.raw_input)),
            ),
            Phase::Ending => Some(Effect::EndComposition),
            Phase::Closing => Some(Effect::CloseCandidates),
            Phase::Finished => None,
        }
    }

    fn effect_of(&self, step: Step) -> (effect: Effect)
        requires
            0 <= self.at < self.actions@.len(),
        ensures
            effect@ == step_effect(
                step,
                self.actions@[self.at as int],
                self.mode,
                self.entry@,
                self.edit@,
            ),
    {
        let action = &self.actions[self.at];
        match step {
            Step::StartComposition => Effect::StartComposition,
            Step::UpdatePos => Effect::UpdatePos,
            Step::OpenCandidates => Effect::OpenCandidates,
            Step::BlankText => Effect::SetText { preview: empty_text(), suffix: empty_text() },
            Step::EndComposition | Step::EndForMode => Effect::EndComposition,
            Step::ReleaseComposition => Effect::ReleaseComposition,
            Step::CloseCandidates => Effect::CloseCandidates,
            Step::ClearConfirmed => Effect::ClearText(self.entry.confirmed_candidate_index()),
            Step::ClearDiscarded => Effect::ClearText(None),
            Step::Append | Step::AppendRest => {
                let text = text_typed(action);
                Effect::AppendText(keystrokes(self.mode, &text))
            },
            Step::Remove => {
                let count: i32 = match action {
                    ClientAction::RemoveText(count) => removal_count(*count),
                    _ => 0,
                };
                Effect::RemoveText(count)
            },
            Step::Render => Effect::SetText {
                preview: self.edit.preview.clone(),
                suffix: self.edit.suffix.clone(),
            },
            Step::PublishList => Effect::Publish {
                candidates: self.edit.candidates.copy(),
                selection: self.edit.selection_index,
                whole_list: true,
            },
            Step::PublishSelection => Effect::Publish {
                candidates: self.edit.candidates.copy(),
                selection: next_selection(action, &self.edit),
                whole_list: false,
            },
            Step::NoteModeToggle => Effect::NoteModeToggle,
            Step::ApplyMode => {
                let mode = match action {
                    ClientAction::SetIMEMode(mode) => *mode,
                    _ => InputMode::Latin,
                };
                Effect::ApplyInputMode(mode)
            },
            Step::Shrink => Effect::ShrinkText(
                self.entry.surface_count,
                self.entry.confirmed_candidate_index(),
            ),
            Step::ShiftStart => Effect::ShiftStart {
                committed: self.entry.preview.clone(),
                preview: self.edit.preview.clone(),
            },
            Step::ShowForm => Effect::SetText {
                preview: text_in_form(asked_form(action), &self.edit),
                suffix: empty_text(),
            },
        }
    }

    /// Takes in how the effect that was asked for went.
    pub fn resume(&mut self, reply: Result<Candidates, Failure>)
        requires
            old(self).wf(),
        ensures
            final(self)@ == old(self)@.resumed(reply_view(reply)),
            final(self).wf(),
    {
        match self.phase {
            Phase::Context => {
                self.phase = Phase::Running;
                self.settle();
            },
            Phase::Running => {
                self.run_step(reply);
            },
            Phase::Clearing => match reply {
                Ok(_) => {
                    self.phase = Phase::Replaying;
                },
                Err(_) => {
                    self.phase = Phase::Ending;
                },
            },
            Phase::Replaying => match reply {
                Ok(_) => {
                    self.edit = self.snapshot.copy(self.snapshot.state);
                    self.phase = Phase::Finished;
                },
                Err(_) => {
                    self.phase = Phase::Ending;
                },
            },
            Phase::Ending => {
                self.phase = Phase::Closing;
            },
            Phase::Closing => {
                self.edit.reset_for_teardown();
                self.edit.state = CompositionState::Idle;
                self.phase = Phase::Finished;
            },
            Phase::Finished => {},
        }
    }

    fn run_step(&mut self, reply: Result<Candidates, Failure>)
        requires
            old(self).wf(),
            old(self).phase == Phase::Running,
        ensures
            final(self)@ == old(self)@.stepped(reply_view(reply)),
            final(self).wf(),
    {
        proof {
            reveal(BatchView::stepped);
        }
        let step = match step_of(&self.actions[self.at], self.step) {
            Some(step) => step,
            None => {
                return ;
            },
        };
        match reply {
            Ok(candidates) => {
                self.take_in(step, candidates);
                self.step = self.step + 1;
                self.settle();
            },
            Err(failure) => match step.failure_policy() {
                OnFailure::Ignore => {
                    self.take_in(step, Candidates::none());
                    self.step = self.step + 1;
                    self.settle();
                },
                OnFailure::Defer => {
                    self.take_in(step, Candidates::none());
                    self.step = self.step + 1;
                    if self.deferred.is_none() {
                        self.deferred = Some(failure);
                    }
                    self.settle();
                },
                OnFailure::Abort => {
                    self.fail(failure);
                },
            },
        }
    }

    /// Brings the working copy in line with a step that was done.
    fn take_in(&mut self, step: Step, candidates: Candidates)
        requires
            old(self).at < old(self).actions@.len(),
        ensures
            final(self)@ == (BatchView {
                edit: if step.tears_down() {
                    EditView::blank(old(self)@.edit.state)
                } else {
                    step_edit(
                        step,
                        old(self)@.action(),
                        old(self)@.entry,
                        old(self)@.edit,
                        candidates@,
                    )
                },
                ..old(self)@
            }),
    {
        let action = &self.actions[self.at];
        match step {
            Step::EndComposition | Step::ReleaseComposition | Step::ApplyMode => {
                self.edit.reset_for_teardown();
            },
            Step::Append => {
                let text = text_typed(action);
                self.edit.raw_input.push_str(&text);
                self.edit.adopt_fresh(candidates);
            },
            Step::Remove => {
                self.edit.adopt_fresh(candidates);
                let kept = raw_input_kept_for_count(
                    &self.edit.raw_input,
                    self.edit.corresponding_count,
                );
                self.edit.raw_input = kept;
            },
            Step::PublishSelection => {
                let selection: i32 = next_selection(action, &self.edit);
                let shown = self.edit.candidates.copy();
                self.edit.selection_index = selection;
                self.edit.adopt_candidate(&shown, selection);
            },
            Step::Shrink => {
                let left = raw_input_after_commit(
                    &self.entry.raw_input,
                    "",
                    self.entry.corresponding_count,
                );
                proof {
                    reveal_strlit("");
                    assert(""@ =~= Seq::<char>::empty());
                }
                self.edit.raw_input = left;
            },
            Step::AppendRest => {
                let text = text_typed(action);
                let left = raw_input_after_commit(
                    &self.entry.raw_input,
                    &text,
                    self.entry.corresponding_count,
                );
                self.edit.raw_input = left;
                self.edit.adopt_fresh(candidates);
            },
            Step::ShiftStart => {
                self.edit.state = CompositionState::Composing;
            },
            Step::ShowForm => {
                let text = text_in_form(asked_form(action), &self.edit);
                self.edit.preview = text;
                self.edit.suffix = empty_text();
                self.edit.corresponding_count = self.edit.raw_input.as_str().unicode_len() as i32;
                self.edit.surface_count = self.edit.raw_hiragana.as_str().unicode_len() as i32;
                self.edit.discard_candidate_selection();
            },
            _ => {},
        }
    }

    /// Writes the working copy back, whatever became of the batch, and says
    /// whether it failed.
    pub fn finish<H>(self, composition: &mut Composition<H>) -> (result: Result<(), Failure>)
        ensures
            match self@.outcome {
                Some(failure) => result == Err::<(), Failure>(failure),
                None => result is Ok,
            },
            final(composition).spec_tip() == old(composition).spec_tip(),
            final(composition).spec_state() == reconciled(
                self@.edit.state,
                old(composition).spec_tip() is Some,
            ),
            final(composition).edit_view(self@.edit.state) == self@.edit,
            final(composition).wf(),
    {
        self.edit.commit(composition);
        match self.outcome {
            Some(failure) => Err(failure),
            None => Ok(()),
        }
    }
}

} // verus!

//! What a keystroke asks of the composition.

use vstd::prelude::*;

use super::input_mode::InputMode;

verus! {

/// One action of a batch.
#[derive(Debug, PartialEq)]
pub enum ClientAction {
    StartComposition,
    /// Ends the composition and commits what it holds.
    EndComposition,
    /// Ends the composition without committing: what it holds is emptied
    /// first, so that it never reaches the document.
    CancelComposition,
    /// The host has already ended the composition and owns its text: only the
    /// state on this side is torn down, and the document is not touched.
    CompositionTerminated,
    /// The focus leaves the document: the composition ends and stays in the
    /// document, but nobody confirmed it.
    EndCompositionAtFocusLoss,
    AppendText(String),
    /// Deletes kana from the end of the reading.
    RemoveText(u32),
    /// Commits the selected candidate and goes on composing with what is left
    /// of the reading and this text.
    ShrinkText(String),
    SetTextWithType(SetTextType),
    /// A relative move of the engine's cursor, in kana. Nothing acts on it.
    MoveCursor(i32),
    SetSelection(SetSelectionType),
    SetIMEMode(InputMode),
}

#[derive(Debug, Clone, Copy, PartialEq, Eq, Structural)]
pub enum SetSelectionType {
    Up,
    Down,
}

/// The forms that the whole reading can be rewritten into.
#[derive(Debug, Clone, Copy, PartialEq, Eq, Structural)]
pub enum SetTextType {
    Hiragana,
    Katakana,
    HalfKatakana,
    FullLatin,
    HalfLatin,
}

/// An action as plain values.
pub enum ActionView {
    StartComposition,
    EndComposition,
    CancelComposition,
    CompositionTerminated,
    EndCompositionAtFocusLoss,
    AppendText(Seq<char>),
    RemoveText(u32),
    ShrinkText(Seq<char>),
    SetTextWithType(SetTextType),
    MoveCursor(i32),
    SetSelection(SetSelectionType),
    SetIMEMode(InputMode),
}

impl View for ClientAction {
    type V = ActionView;

    open spec fn view(&self) -> ActionView {
        match *self {
            ClientAction::StartComposition => ActionView::StartComposition,
            ClientAction::EndComposition => ActionView::EndComposition,
            ClientAction::CancelComposition => ActionView::CancelComposition,
            ClientAction::CompositionTerminated => ActionView::CompositionTerminated,
            ClientAction::EndCompositionAtFocusLoss => ActionView::EndCompositionAtFocusLoss,
            ClientAction::AppendText(text) => ActionView::AppendText(text@),
            ClientAction::RemoveText(count) => ActionView::RemoveText(count),
            ClientAction::ShrinkText(text) => ActionView::ShrinkText(text@),
            ClientAction::SetTextWithType(form) => ActionView::SetTextWithType(form),
            ClientAction::MoveCursor(offset) => ActionView::MoveCursor(offset),
            ClientAction::SetSelection(direction) => ActionView::SetSelection(direction),
            ClientAction::SetIMEMode(mode) => ActionView::SetIMEMode(mode),
        }
    }
}

/// The actions of a batch as plain values.
pub open spec fn actions_view(actions: Seq<ClientAction>) -> Seq<ActionView> {
    actions.map_values(|action: ClientAction| action@)
}

/// The actions of a batch are seen one for one and in their order, each as what
/// it is, with what it carries.
pub proof fn actions_are_seen_as_they_are(
    actions: Seq<ClientAction>,
    i: int,
    text: String,
    count: u32,
    offset: i32,
    form: SetTextType,
    direction: SetSelectionType,
    mode: InputMode,
)
    requires
        0 <= i < actions.len(),
    ensures
        actions_view(actions).len() == actions.len(),
        actions_view(actions)[i] == actions[i]@,
        ClientAction::StartComposition@ == ActionView::StartComposition,
        ClientAction::EndComposition@ == ActionView::EndComposition,
        ClientAction::CancelComposition@ == ActionView::CancelComposition,
        ClientAction::CompositionTerminated@ == ActionView::CompositionTerminated,
        ClientAction::EndCompositionAtFocusLoss@ == ActionView::EndCompositionAtFocusLoss,
        ClientAction::AppendText(text)@ == ActionView::AppendText(text@),
        ClientAction::RemoveText(count)@ == ActionView::RemoveText(count),
        ClientAction::ShrinkText(text)@ == ActionView::ShrinkText(text@),
        ClientAction::SetTextWithType(form)@ == ActionView::SetTextWithType(form),
        ClientAction::MoveCursor(offset)@ == ActionView::MoveCursor(offset),
        ClientAction::SetSelection(direction)@ == ActionView::SetSelection(direction),
        ClientAction::SetIMEMode(mode)@ == ActionView::SetIMEMode(mode),
{
}

} // verus!

//! Handing out the candidates, to a host that draws them itself and to the
//! window that is drawn otherwise.

use vstd::prelude::*;

use super::ipc_service::{CandidateView, Candidates};
#[allow(unused_imports)]
use super::ipc_service::{CandidatesView, WindowUpdate};
use crate::strings::clone_texts;

verus! {

/// What a host is told has changed: the count, the selection, the strings, the
/// pages and the current page.
pub const CLUIE_COUNT: u32 = 2;

pub const CLUIE_SELECTION: u32 = 4;

pub const CLUIE_STRING: u32 = 8;

pub const CLUIE_PAGEINDEX: u32 = 16;

pub const CLUIE_CURRENTPAGE: u32 = 32;

/// All of it, for a list that was replaced.
pub const CANDIDATES_CHANGED: u32 = 62;

/// Where the highlight went, for a list that was not.
pub const SELECTION_CHANGED: u32 = 36;

/// What is asked of the candidate window.
#[derive(Debug, PartialEq)]
pub enum WindowCommand {
    Show,
    Hide,
    Update(CandidateView),
}

/// A command as plain values.
pub enum CommandView {
    Show,
    Hide,
    Update(WindowUpdate),
}

impl View for WindowCommand {
    type V = CommandView;

    open spec fn view(&self) -> CommandView {
        match *self {
            WindowCommand::Show => CommandView::Show,
            WindowCommand::Hide => CommandView::Hide,
            WindowCommand::Update(view) => CommandView::Update(view@),
        }
    }
}

/// Commands as plain values.
pub open spec fn commands_view(commands: Seq<WindowCommand>) -> Seq<CommandView> {
    commands.map_values(|command: WindowCommand| command@)
}

/// What a host is told has changed.
pub fn updated_flags(whole_list: bool) -> (flags: u32)
    ensures
        flags == if whole_list {
            CANDIDATES_CHANGED
        } else {
            SELECTION_CHANGED
        },
{
    if whole_list {
        CANDIDATES_CHANGED
    } else {
        SELECTION_CHANGED
    }
}

/// What the window is told of candidates: the list and the selection where
/// the list is new, the selection alone where only that moved, and nothing
/// where the host draws them itself.
pub fn publish_candidates(
    candidates: &Candidates,
    selection_index: i32,
    whole_list: bool,
    window_shows: bool,
) -> (update: Option<CandidateView>)
    ensures
        match update {
            Some(view) => window_shows && view@ == (WindowUpdate {
                candidates: if whole_list {
                    Some(candidates@.texts)
                } else {
                    None
                },
                selection: Some(selection_index),
                position: None,
            }),
            None => !window_shows,
        },
{
    if !window_shows {
        None
    } else if whole_list {
        Some(CandidateView::list_and_selection(clone_texts(&candidates.texts), selection_index))
    } else {
        Some(CandidateView::selection(selection_index))
    }
}

/// Commands the window to be seen or not. A second command to hide is not
/// dropped: each one tells the window that the place it was shown at is past.
pub fn command_candidate_window(visible: bool) -> (command: WindowCommand)
    ensures
        command@ == if visible {
            CommandView::Show
        } else {
            CommandView::Hide
        },
{
    if visible {
        WindowCommand::Show
    } else {
        WindowCommand::Hide
    }
}

/// What opens the candidates of a composition: the window, unless the host
/// draws them itself.
pub fn open_candidate_ui(window_shows: bool) -> (commands: Vec<WindowCommand>)
    ensures
        commands_view(commands@) == if window_shows {
            seq![CommandView::Show]
        } else {
            seq![]
        },
{
    let mut commands: Vec<WindowCommand> = Vec::new();
    if window_shows {
        commands.push(command_candidate_window(true));
        assert(commands_view(commands@) =~= seq![CommandView::Show]);
    } else {
        assert(commands_view(commands@) =~= Seq::<CommandView>::empty());
    }
    commands
}

/// What closes the candidates of a composition that is over: the window is
/// hidden and its list blanked, whether or not it was ever shown.
pub fn close_candidate_ui() -> (commands: Vec<WindowCommand>)
    ensures
        commands_view(commands@) == seq![
            CommandView::Hide,
            CommandView::Update(
                WindowUpdate { candidates: Some(Seq::empty()), selection: None, position: None },
            ),
        ],
{
    let mut commands: Vec<WindowCommand> = Vec::new();
    commands.push(command_candidate_window(false));
    let blank: Vec<String> = Vec::new();
    let view = CandidateView::list(blank);
    assert(view@.candidates->0 =~= Seq::<Seq<char>>::empty());
    commands.push(WindowCommand::Update(view));
    assert(commands_view(commands@) =~= seq![
        CommandView::Hide,
        CommandView::Update(
            WindowUpdate { candidates: Some(Seq::empty()), selection: None, position: None },
        ),
    ]);
    commands
}

/// A list that was replaced is told of in full, and one that was not is told
/// of without its strings.
pub proof fn the_flags_say_what_changed()
    ensures
        CANDIDATES_CHANGED == CLUIE_COUNT | CLUIE_STRING | CLUIE_SELECTION | CLUIE_CURRENTPAGE
            | CLUIE_PAGEINDEX,
        SELECTION_CHANGED == CLUIE_SELECTION | CLUIE_CURRENTPAGE,
        CANDIDATES_CHANGED & CLUIE_STRING != 0,
        SELECTION_CHANGED & CLUIE_STRING == 0,
{
    assert(62u32 == 2u32 | 8u32 | 4u32 | 32u32 | 16u32) by (bit_vector);
    assert(36u32 == 4u32 | 32u32) by (bit_vector);
    assert(62u32 & 8u32 != 0u32) by (bit_vector);
    assert(36u32 & 8u32 == 0u32) by (bit_vector);
}

/// A list that was replaced is told by every one of the changes, and a
/// selection that moved by itself and the page that it may have turned.
pub proof fn the_changes_are_told_by_their_parts()
    ensures
        CANDIDATES_CHANGED == CLUIE_COUNT + CLUIE_SELECTION + CLUIE_STRING + CLUIE_PAGEINDEX
            + CLUIE_CURRENTPAGE,
        SELECTION_CHANGED == CLUIE_SELECTION + CLUIE_CURRENTPAGE,
        CLUIE_COUNT == 0x2,
        CLUIE_SELECTION == 0x4,
        CLUIE_STRING == 0x8,
        CLUIE_PAGEINDEX == 0x10,
        CLUIE_CURRENTPAGE == 0x20,
{
}

/// Commands are seen one for one and in their order, each as what it is.
pub proof fn commands_are_seen_as_they_are(
    commands: Seq<WindowCommand>,
    update: CandidateView,
    i: int,
)
    requires
        0 <= i < commands.len(),
    ensures
        commands_view(commands).len() == commands.len(),
        commands_view(commands)[i] == commands[i]@,
        WindowCommand::Show@ == CommandView::Show,
        WindowCommand::Hide@ == CommandView::Hide,
        WindowCommand::Update(update)@ == CommandView::Update(update@),
{
}

} // verus!

//! The table of what each key does in each state.

use vstd::prelude::*;

#[allow(unused_imports)]
use super::client_action::{actions_view, ActionView};
use super::client_action::{ClientAction, SetSelectionType};
use super::composition::CompositionState;
use super::input_mode::InputMode;
#[allow(unused_imports)]
use super::user_action::Meaning;
use super::user_action::{Navigation, UserAction};
#[allow(unused_imports)]
use crate::globals::{VK_CONTROL, VK_MENU, VK_SHIFT};
#[allow(unused_imports)]
use crate::strings::signed_decimal;
use crate::strings::signed_decimal_text;

verus! {

/// What the table reads of the composition.
#[derive(Debug, Clone, Copy, PartialEq, Eq)]
pub struct KeystrokeContext {
    pub state: CompositionState,
    pub mode: InputMode,
    /// The kana of the reading, which is what Backspace deletes. The preview
    /// says nothing of it: a candidate can be shorter than its reading.
    pub reading_chars: usize,
    /// Whether the selected candidate covers the whole reading.
    pub suffix_is_empty: bool,
}

/// What a key does: the state that it leads to and the actions that lead
/// there, or `None` where it is the host's.
pub open spec fn table(ctx: KeystrokeContext, key: Meaning) -> Option<
    (CompositionState, Seq<ActionView>),
> {
    match ctx.state {
        CompositionState::Idle => match key {
            Meaning::Input(text) => if ctx.mode == InputMode::Kana {
                Some(
                    (
                        CompositionState::Composing,
                        seq![ActionView::StartComposition, ActionView::AppendText(text)],
                    ),
                )
            } else {
                None
            },
            Meaning::Number(number) => if ctx.mode == InputMode::Kana {
                Some(
                    (
                        CompositionState::Composing,
                        seq![
                            ActionView::StartComposition,
                            ActionView::AppendText(signed_decimal(number as int)),
                        ],
                    ),
                )
            } else {
                None
            },
            Meaning::ToggleInputMode => Some(
                (CompositionState::Idle, seq![ActionView::SetIMEMode(ctx.mode.flipped())]),
            ),
            _ => None,
        },
        CompositionState::Composing | CompositionState::Previewing => match key {
            Meaning::Input(text) => Some((CompositionState::Composing, seq![typing(ctx.state, text)])),
            Meaning::Number(number) => Some(
                (
                    CompositionState::Composing,
                    seq![typing(ctx.state, signed_decimal(number as int))],
                ),
            ),
            Meaning::Backspace(count) => if ctx.reading_chars <= count {
                Some(
                    (
                        CompositionState::Idle,
                        seq![ActionView::RemoveText(count), ActionView::EndComposition],
                    ),
                )
            } else {
                Some((CompositionState::Composing, seq![ActionView::RemoveText(count)]))
            },
            Meaning::Enter => if ctx.suffix_is_empty {
                Some((CompositionState::Idle, seq![ActionView::EndComposition]))
            } else {
                Some((CompositionState::Composing, seq![ActionView::ShrinkText(Seq::empty())]))
            },
            Meaning::Escape => Some((CompositionState::Idle, seq![ActionView::CancelComposition])),
            Meaning::Navigation(Navigation::Right) => Some(
                (CompositionState::Composing, seq![ActionView::MoveCursor(1)]),
            ),
            Meaning::Navigation(Navigation::Left) => Some(
                (CompositionState::Composing, seq![ActionView::MoveCursor(-1i32)]),
            ),
            Meaning::Navigation(Navigation::Up) => Some(
                (
                    CompositionState::Previewing,
                    seq![ActionView::SetSelection(SetSelectionType::Up)],
                ),
            ),
            Meaning::Navigation(Navigation::Down) | Meaning::Space | Meaning::Tab => Some(
                (
                    CompositionState::Previewing,
                    seq![ActionView::SetSelection(SetSelectionType::Down)],
                ),
            ),
            Meaning::ToggleInputMode => Some(
                (
                    CompositionState::Idle,
                    seq![ActionView::EndComposition, ActionView::SetIMEMode(InputMode::Latin)],
                ),
            ),
            Meaning::Function(form) => Some(
                (CompositionState::Previewing, seq![ActionView::SetTextWithType(form)]),
            ),
            Meaning::EditingKey => Some((ctx.state, seq![])),
            Meaning::Unknown => None,
        },
    }
}

/// How text is typed into a composition: while a candidate is being chosen,
/// typing on commits it.
pub open spec fn typing(state: CompositionState, text: Seq<char>) -> ActionView {
    if state == CompositionState::Previewing {
        ActionView::ShrinkText(text)
    } else {
        ActionView::AppendText(text)
    }
}

fn type_in(state: CompositionState, text: String) -> (action: ClientAction)
    ensures
        action@ == typing(state, text@),
{
    if state == CompositionState::Previewing {
        ClientAction::ShrinkText(text)
    } else {
        ClientAction::AppendText(text)
    }
}

fn one(action: ClientAction) -> (actions: Vec<ClientAction>)
    ensures
        actions_view(actions@) == seq![action@],
{
    let mut actions: Vec<ClientAction> = Vec::new();
    actions.push(action);
    assert(actions_view(actions@) =~= seq![action@]);
    actions
}

fn two(first: ClientAction, second: ClientAction) -> (actions: Vec<ClientAction>)
    ensures
        actions_view(actions@) == seq![first@, second@],
{
    let mut actions: Vec<ClientAction> = Vec::new();
    actions.push(first);
    actions.push(second);
    assert(actions_view(actions@) =~= seq![first@, second@]);
    actions
}

fn none() -> (actions: Vec<ClientAction>)
    ensures
        actions_view(actions@) == Seq::<ActionView>::empty(),
{
    let actions: Vec<ClientAction> = Vec::new();
    assert(actions_view(actions@) =~= Seq::<ActionView>::empty());
    actions
}

/// Whether a decision is the one that the table gives.
pub open spec fn agrees(
    decision: Option<(CompositionState, Vec<ClientAction>)>,
    entry: Option<(CompositionState, Seq<ActionView>)>,
) -> bool {
    match decision {
        Some((state, actions)) => entry == Some((state, actions_view(actions@))),
        None => entry is None,
    }
}

/// What a key does; `None` where the host is to have it.
pub fn transition(ctx: &KeystrokeContext, action: UserAction) -> (decision: Option<
    (CompositionState, Vec<ClientAction>),
>)
    ensures
        agrees(decision, table(*ctx, action@)),
{
    match ctx.state {
        CompositionState::Idle => match action {
            UserAction::Input(text) => if ctx.mode == InputMode::Kana {
                Some(
                    (
                        CompositionState::Composing,
                        two(ClientAction::StartComposition, ClientAction::AppendText(text)),
                    ),
                )
            } else {
                None
            },
            UserAction::Number(number) => if ctx.mode == InputMode::Kana {
                let text = signed_decimal_text(number as i64);
                Some(
                    (
                        CompositionState::Composing,
                        two(ClientAction::StartComposition, ClientAction::AppendText(text)),
                    ),
                )
            } else {
                None
            },
            UserAction::ToggleInputMode => Some(
                (CompositionState::Idle, one(ClientAction::SetIMEMode(ctx.mode.flip()))),
            ),
            _ => None,
        },
        CompositionState::Composing | CompositionState::Previewing => match action {
            UserAction::Input(text) => Some(
                (CompositionState::Composing, one(type_in(ctx.state, text))),
            ),
            UserAction::Number(number) => {
                let text = signed_decimal_text(number as i64);
                Some((CompositionState::Composing, one(type_in(ctx.state, text))))
            },
            UserAction::Backspace { count } => if ctx.reading_chars <= count as usize {
                Some(
                    (
                        CompositionState::Idle,
                        two(ClientAction::RemoveText(count), ClientAction::EndComposition),
                    ),
                )
            } else {
                Some((CompositionState::Composing, one(ClientAction::RemoveText(count))))
            },
            UserAction::Enter => if ctx.suffix_is_empty {
                Some((CompositionState::Idle, one(ClientAction::EndComposition)))
            } else {
                let rest = String::new();
                assert(rest@ =~= Seq::<char>::empty());
                Some((CompositionState::Composing, one(ClientAction::ShrinkText(rest))))
            },
            UserAction::Escape => Some(
                (CompositionState::Idle, one(ClientAction::CancelComposition)),
            ),
            UserAction::Navigation(direction) => match direction {
                Navigation::Right => Some(
                    (CompositionState::Composing, one(ClientAction::MoveCursor(1))),
                ),
                Navigation::Left => Some(
                    (CompositionState::Composing, one(ClientAction::MoveCursor(-1))),
                ),
                Navigation::Up => Some(
                    (
                        CompositionState::Previewing,
                        one(ClientAction::SetSelection(SetSelectionType::Up)),
                    ),
                ),
                Navigation::Down => Some(
                    (
                        CompositionState::Previewing,
                        one(ClientAction::SetSelection(SetSelectionType::Down)),
                    ),
                ),
            },
            UserAction::ToggleInputMode => Some(
                (
                    CompositionState::Idle,
                    two(ClientAction::EndComposition, ClientAction::SetIMEMode(InputMode::Latin)),
                ),
            ),
            UserAction::Space | UserAction::Tab => Some(
                (
                    CompositionState::Previewing,
                    one(ClientAction::SetSelection(SetSelectionType::Down)),
                ),
            ),
            UserAction::Function(form) => Some(
                (CompositionState::Previewing, one(ClientAction::SetTextWithType(form))),
            ),
            UserAction::EditingKey => Some((ctx.state, none())),
            UserAction::Unknown => None,
        },
    }
}

/// What a key does while Ctrl or Alt is held: while something is composed it
/// is taken and cancels the composition; otherwise, and where it is the
/// modifier itself, the host has it.
pub open spec fn shortcut_table(state: CompositionState, is_modifier: bool) -> Option<
    (CompositionState, Seq<ActionView>),
> {
    if state == CompositionState::Idle || is_modifier {
        None
    } else {
        Some((CompositionState::Idle, seq![ActionView::CancelComposition]))
    }
}

/// What a key does while Ctrl or Alt is held.
pub fn shortcut_transition(state: CompositionState, is_modifier: bool) -> (decision: Option<
    (CompositionState, Vec<ClientAction>),
>)
    ensures
        agrees(decision, shortcut_table(state, is_modifier)),
{
    if state == CompositionState::Idle || is_modifier {
        None
    } else {
        Some((CompositionState::Idle, one(ClientAction::CancelComposition)))
    }
}

/// Whether a virtual key is a modifier: Shift, Ctrl or Alt, or the left or
/// right one of them.
pub fn is_modifier_key(key_code: usize) -> (modifies: bool)
    ensures
        modifies == (VK_SHIFT <= key_code <= VK_MENU || 0xA0 <= key_code <= 0xA5),
{
    (VK_SHIFT <= key_code && key_code <= VK_MENU) || (0xA0 <= key_code && key_code <= 0xA5)
}

/// In direct input nothing is taken but the key that switches the mode.
pub proof fn direct_input_takes_only_the_mode_key(ctx: KeystrokeContext, key: Meaning)
    requires
        ctx.state == CompositionState::Idle,
        ctx.mode == InputMode::Latin,
    ensures
        table(ctx, key) is Some <==> key == Meaning::ToggleInputMode,
{
}

/// While something is composed every key is taken but one that means nothing,
/// so that the host does not edit underneath.
pub proof fn composing_takes_every_known_key(ctx: KeystrokeContext, key: Meaning)
    requires
        ctx.state != CompositionState::Idle,
    ensures
        table(ctx, key) is None <==> key == Meaning::Unknown,
{
}

/// A composition is opened where, and only where, something is to be composed
/// and nothing was.
pub proof fn a_composition_opens_with_its_first_text(ctx: KeystrokeContext, key: Meaning)
    requires
        table(ctx, key) is Some,
    ensures
        ({
            let (next, actions) = table(ctx, key)->0;
            (ctx.state == CompositionState::Idle && next != CompositionState::Idle) <==> (
            actions.len() > 0 && actions[0] == ActionView::StartComposition)
        }),
{
}

/// A composition that is over was ended or cancelled by the last action on it,
/// and one that goes on was neither.
pub proof fn a_composition_ends_only_by_ending_it(ctx: KeystrokeContext, key: Meaning)
    requires
        ctx.state != CompositionState::Idle,
        table(ctx, key) is Some,
    ensures
        ({
            let (next, actions) = table(ctx, key)->0;
            next == CompositionState::Idle <==> exists|i: int|
                0 <= i < actions.len() && (#[trigger] actions[i] == ActionView::EndComposition
                    || actions[i] == ActionView::CancelComposition)
        }),
{
    let (next, actions) = table(ctx, key)->0;
    if next == CompositionState::Idle {
        if actions.len() == 2 {
            assert(actions[0] == ActionView::EndComposition || actions[1]
                == ActionView::EndComposition);
        } else {
            assert(actions[0] == ActionView::EndComposition || actions[0]
                == ActionView::CancelComposition);
        }
    } else {
        if actions.len() == 1 {
            assert(actions[0] != ActionView::EndComposition);
        }
    }
}

/// Whether Backspace ends the composition is decided by the reading alone: it
/// does once it deletes all the kana there are.
pub proof fn backspace_goes_by_the_reading(ctx: KeystrokeContext, count: u32)
    requires
        ctx.state != CompositionState::Idle,
    ensures
        table(ctx, Meaning::Backspace(count)) matches Some((next, _)) && (next
            == CompositionState::Idle <==> ctx.reading_chars <= count),
{
}

/// With nothing composed, the key that switches the mode does nothing else,
/// and pressed twice it leads back to the mode that it was pressed in.
pub proof fn switching_twice_changes_nothing(ctx: KeystrokeContext)
    requires
        ctx.state == CompositionState::Idle,
    ensures
        ({
            let other = ctx.mode.flipped();
            &&& table(ctx, Meaning::ToggleInputMode) == Some(
                (CompositionState::Idle, seq![ActionView::SetIMEMode(other)]),
            )
            &&& table((KeystrokeContext { mode: other, ..ctx }), Meaning::ToggleInputMode) == Some(
                (CompositionState::Idle, seq![ActionView::SetIMEMode(ctx.mode)]),
            )
        }),
{
}

} // verus!

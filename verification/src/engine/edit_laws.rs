//! What a keystroke does to the composition, from its effects and its outcome.

use vstd::prelude::*;

#[allow(unused_imports)]
use super::actions::{started, step_edit, steps_of, BatchView, EffectView, Phase, Step};
#[allow(unused_imports)]
use super::batch_laws::{
    a_commit_spends_what_it_covers_and_goes_on, an_accepted_keystroke_is_recorded_and_shown,
    an_accepted_removal_keeps_what_is_covered, an_answered_step, an_inner_step, asked,
    ending_carries_every_step_out, one_reply_more, run, settled_keeps_edit, starts_at_once,
    starts_with_the_context, three_replies,
};
#[allow(unused_imports)]
use super::client_action::{ClientAction, SetSelectionType, SetTextType};
#[allow(unused_imports)]
use super::composition::{keystrokes_of, CompositionState, EditView};
#[allow(unused_imports)]
use super::full_width::{
    the_full_width_twin_is_a_fixed_distance_away, what_is_ascii_stays_narrow, widening_leaves_words,
};
#[allow(unused_imports)]
use super::input_mode::InputMode;
#[allow(unused_imports)]
use super::ipc_service::CandidatesView;
#[allow(unused_imports)]
use super::text_util::{half_katakana, katakana_stands_a_fixed_distance_above};
#[allow(unused_imports)]
use crate::failure::Failure;

verus! {

/// Whether a working copy shows the candidate at a row of a list: its text, what
/// it leaves of the reading, the keystrokes and the kana that it covers, each
/// from its own column, and the list's reading. What a column does not have is
/// blank.
pub open spec fn shows_row(edit: EditView, list: CandidatesView, row: int) -> bool {
    &&& edit.preview == if row < list.texts.len() {
        list.texts[row]
    } else {
        Seq::empty()
    }
    &&& edit.suffix == if row < list.sub_texts.len() {
        list.sub_texts[row]
    } else {
        Seq::empty()
    }
    &&& edit.corresponding_count == if row < list.corresponding_count.len() {
        list.corresponding_count[row]
    } else {
        0
    }
    &&& edit.surface_count == if row < list.surface_count.len() {
        list.surface_count[row]
    } else {
        0
    }
    &&& edit.raw_hiragana == list.hiragana
}

/// What is typed is sent to the engine and added to the keystrokes, and the
/// first candidate that comes back is shown, in the document as in the working
/// copy: its text and its rest, and the keystrokes and the kana that the list
/// says it covers.
pub proof fn typing_shows_the_first_candidate(
    snapshot: EditView,
    mode: InputMode,
    text: String,
    intent: CompositionState,
    told: Result<CandidatesView, Failure>,
    list: CandidatesView,
    shown: CandidatesView,
    published: Result<CandidatesView, Failure>,
)
    ensures
        ({
            let batch = started(snapshot, mode, seq![ClientAction::AppendText(text)], intent);
            let replies = seq![told, Ok(list), Ok(shown), published];
            let edit = run(batch, replies).edit;
            let effects = asked(batch, replies);
            &&& effects.len() == 4
            &&& effects[0] == EffectView::UpdateContext(snapshot.preview + snapshot.suffix)
            &&& effects[1] matches EffectView::AppendText(sent) && sent.len() == text@.len()
            &&& mode == InputMode::Latin ==> effects[1] == EffectView::AppendText(text@)
            &&& effects[2] == EffectView::SetText { preview: edit.preview, suffix: edit.suffix }
            &&& effects[3] == EffectView::Publish {
                candidates: list,
                selection: 0,
                whole_list: true,
            }
            &&& list.surface_count.len() > 0 ==> edit.surface_count == list.surface_count[0]
            &&& list.corresponding_count.len() > 0 ==> edit.corresponding_count
                == list.corresponding_count[0]
            &&& shows_row(edit, list, 0)
            &&& edit.raw_input == snapshot.raw_input + text@
            &&& edit.candidates == list
            &&& edit.selection_index == 0
            &&& edit.state == intent
            &&& run(batch, replies).outcome is None
        }),
{
    an_accepted_keystroke_is_recorded_and_shown(
        snapshot,
        mode,
        text,
        intent,
        told,
        list,
        shown,
        published,
    );
}

/// Letters, digits and spaces reach the engine as they are typed, in either
/// mode.
pub proof fn words_are_sent_as_they_are_typed(
    snapshot: EditView,
    mode: InputMode,
    text: String,
    intent: CompositionState,
    told: Result<CandidatesView, Failure>,
    list: CandidatesView,
    shown: CandidatesView,
    published: Result<CandidatesView, Failure>,
)
    requires
        forall|i: int|
            0 <= i < text@.len() ==> 'a' <= #[trigger] text@[i] <= 'z' || 'A' <= text@[i] <= 'Z'
                || '0' <= text@[i] <= '9' || text@[i] == ' ',
    ensures
        asked(
            started(snapshot, mode, seq![ClientAction::AppendText(text)], intent),
            seq![told, Ok(list), Ok(shown), published],
        )[1] == EffectView::AppendText(text@),
{
    an_accepted_keystroke_is_recorded_and_shown(
        snapshot,
        mode,
        text,
        intent,
        told,
        list,
        shown,
        published,
    );
    widening_leaves_words(text@);
    assert(keystrokes_of(mode, text@) =~= text@);
}

/// A removal asks the engine for as many kana as were to go, shows the first
/// candidate that comes back, and leaves the keystrokes from the front that the
/// list says it covers.
pub proof fn removing_leaves_the_keystrokes_that_are_covered(
    snapshot: EditView,
    mode: InputMode,
    count: u32,
    intent: CompositionState,
    told: Result<CandidatesView, Failure>,
    list: CandidatesView,
    shown: CandidatesView,
    published: Result<CandidatesView, Failure>,
)
    requires
        count <= i32::MAX,
        list.corresponding_count.len() > 0,
        0 <= list.corresponding_count[0] <= snapshot.raw_input.len(),
    ensures
        ({
            let batch = started(snapshot, mode, seq![ClientAction::RemoveText(count)], intent);
            let replies = seq![told, Ok(list), Ok(shown), published];
            let edit = run(batch, replies).edit;
            let effects = asked(batch, replies);
            &&& effects.len() == 4
            &&& effects[1] matches EffectView::RemoveText(removed) && removed == count
            &&& effects[2] == EffectView::SetText { preview: edit.preview, suffix: edit.suffix }
            &&& effects[3] == EffectView::Publish {
                candidates: list,
                selection: 0,
                whole_list: true,
            }
            &&& shows_row(edit, list, 0)
            &&& edit.raw_input.len() == list.corresponding_count[0]
            &&& edit.raw_input.is_prefix_of(snapshot.raw_input)
            &&& edit.candidates == list
            &&& edit.selection_index == 0
            &&& edit.state == intent
        }),
{
    an_accepted_removal_keeps_what_is_covered(
        snapshot,
        mode,
        count,
        intent,
        told,
        list,
        shown,
        published,
    );
    let covered = list.corresponding_count[0] as int;
    assert(snapshot.raw_input.take(covered) =~= snapshot.raw_input.subrange(0, covered));
    assert(snapshot.raw_input =~= snapshot.raw_input.subrange(
        0,
        snapshot.raw_input.len() as int,
    ));
}

/// Going on typing while a candidate is shown commits it: the engine is told the
/// kana that the candidate covers, and then what is typed; the document commits
/// the text that was shown and shows the first candidate of the rest; and of
/// all the keystrokes those that the candidate covers go, from the front.
pub proof fn typing_on_commits_what_is_shown(
    snapshot: EditView,
    mode: InputMode,
    text: String,
    intent: CompositionState,
    told: Result<CandidatesView, Failure>,
    shrunk: CandidatesView,
    list: CandidatesView,
    shifted: CandidatesView,
    published: CandidatesView,
    placed: Result<CandidatesView, Failure>,
)
    requires
        0 <= snapshot.corresponding_count <= snapshot.raw_input.len(),
    ensures
        ({
            let batch = started(snapshot, mode, seq![ClientAction::ShrinkText(text)], intent);
            let replies = seq![told, Ok(shrunk), Ok(list), Ok(shifted), Ok(published), placed];
            let edit = run(batch, replies).edit;
            let effects = asked(batch, replies);
            let spent = snapshot.raw_input.take(snapshot.corresponding_count as int);
            &&& effects.len() == 6
            &&& effects[0] == EffectView::UpdateContext(snapshot.preview + snapshot.suffix)
            &&& effects[1] matches EffectView::ShrinkText(kana, _) && kana
                == snapshot.surface_count
            &&& effects[2] matches EffectView::AppendText(sent) && sent.len() == text@.len()
            &&& mode == InputMode::Latin ==> effects[2] == EffectView::AppendText(text@)
            &&& effects[3] == EffectView::ShiftStart {
                committed: snapshot.preview,
                preview: edit.preview,
            }
            &&& effects[4] == EffectView::Publish {
                candidates: list,
                selection: 0,
                whole_list: true,
            }
            &&& effects[5] == EffectView::UpdatePos
            &&& spent + edit.raw_input == snapshot.raw_input + text@
            &&& shows_row(edit, list, 0)
            &&& edit.candidates == list
            &&& edit.selection_index == 0
            &&& edit.state == CompositionState::Composing
        }),
{
    a_commit_spends_what_it_covers_and_goes_on(
        snapshot,
        mode,
        text,
        intent,
        told,
        shrunk,
        list,
        shifted,
        published,
        placed,
    );
    let count = snapshot.corresponding_count as int;
    let all = snapshot.raw_input + text@;
    assert(snapshot.raw_input.take(count) + all.skip(count) =~= all);
}

/// Typing, and then typing on: the commit is of the first candidate that the
/// engine offered for what was typed first, by the kana and the keystrokes that
/// its list says the candidate covers.
pub proof fn the_commit_is_of_the_candidate_that_was_shown(
    snapshot: EditView,
    mode: InputMode,
    text: String,
    intent: CompositionState,
    told: Result<CandidatesView, Failure>,
    list: CandidatesView,
    shown: CandidatesView,
    published: Result<CandidatesView, Failure>,
    state: CompositionState,
    more: String,
    next: CompositionState,
    told_again: Result<CandidatesView, Failure>,
    shrunk: CandidatesView,
    rest: CandidatesView,
    shifted: CandidatesView,
    republished: CandidatesView,
    placed: Result<CandidatesView, Failure>,
)
    requires
        list.texts.len() > 0,
        list.surface_count.len() > 0,
        list.corresponding_count.len() > 0,
        0 <= list.corresponding_count[0] <= snapshot.raw_input.len() + text@.len(),
    ensures
        ({
            let typed = run(
                started(snapshot, mode, seq![ClientAction::AppendText(text)], intent),
                seq![told, Ok(list), Ok(shown), published],
            ).edit;
            let batch = started(
                EditView { state, ..typed },
                mode,
                seq![ClientAction::ShrinkText(more)],
                next,
            );
            let replies = seq![
                told_again,
                Ok(shrunk),
                Ok(rest),
                Ok(shifted),
                Ok(republished),
                placed,
            ];
            let effects = asked(batch, replies);
            let keystrokes = snapshot.raw_input + text@ + more@;
            let left = run(batch, replies).edit.raw_input;
            &&& effects[1] == EffectView::ShrinkText(list.surface_count[0], Some(0i32))
            &&& effects[3] matches EffectView::ShiftStart { committed, .. } && committed
                == list.texts[0]
            &&& left.len() == keystrokes.len() - list.corresponding_count[0]
            &&& left == keystrokes.skip(list.corresponding_count[0] as int)
        }),
{
    typing_shows_the_first_candidate(snapshot, mode, text, intent, told, list, shown, published);
    let typed = run(
        started(snapshot, mode, seq![ClientAction::AppendText(text)], intent),
        seq![told, Ok(list), Ok(shown), published],
    ).edit;
    a_commit_spends_what_it_covers_and_goes_on(
        EditView { state, ..typed },
        mode,
        more,
        next,
        told_again,
        shrunk,
        rest,
        shifted,
        republished,
        placed,
    );
}

/// The batch that moves the selection, at its second step.
proof fn a_move_under_way(
    snapshot: EditView,
    mode: InputMode,
    direction: SetSelectionType,
    intent: CompositionState,
    published: Result<CandidatesView, Failure>,
    shown: Result<CandidatesView, Failure>,
)
    ensures
        ({
            let action = ClientAction::SetSelection(direction);
            let batch = started(snapshot, mode, seq![action], intent);
            let edit = EditView { state: intent, ..snapshot };
            let moved = step_edit(
                Step::PublishSelection,
                action,
                edit,
                edit,
                CandidatesView::empty(),
            );
            &&& run(batch, seq![published, shown]).edit == moved
            &&& asked(batch, seq![published, shown]) == seq![
                EffectView::Publish {
                    candidates: snapshot.candidates,
                    selection: moved.selection_index,
                    whole_list: false,
                },
                EffectView::SetText { preview: moved.preview, suffix: moved.suffix },
            ]
        }),
{
    let action = ClientAction::SetSelection(direction);
    let batch = started(snapshot, mode, seq![action], intent);
    starts_at_once(snapshot, mode, action, intent);
    let second = batch.resumed(published);
    assert(second.step == 1 && second.phase == Phase::Running && second.at == 0 && second.actions
        == seq![action] && second.edit == step_edit(
        Step::PublishSelection,
        action,
        batch.entry,
        batch.edit,
        CandidatesView::empty(),
    )) by {
        reveal(BatchView::stepped);
    }
    assert(second.resumed(shown).edit == second.edit) by {
        reveal(BatchView::stepped);
        assert forall|edit: EditView, deferred: Option<Failure>|
            #![trigger (BatchView { edit, step: second.step + 1, deferred, ..second }).settled()]
            (BatchView { edit, step: second.step + 1, deferred, ..second }).settled().edit
                == edit by {
            settled_keeps_edit(BatchView { edit, step: second.step + 1, deferred, ..second });
        }
    }
    let replies = seq![published, shown];
    assert(replies.drop_first() =~= seq![shown]);
    assert(seq![shown].drop_first() =~= Seq::<Result<CandidatesView, Failure>>::empty());
    reveal_with_fuel(run, 3);
    reveal_with_fuel(asked, 3);
    assert(asked(batch, replies) =~= seq![batch.effect()->0, second.effect()->0]);
}

/// The selection moves by one candidate, and stays where there is none further;
/// from a selection that was discarded it goes to the first, and from one past
/// the end to the last. The candidate that it comes to is the one that is shown,
/// with the keystrokes and the kana that the list says it covers; the list and
/// the keystrokes stay. All of that holds however the showing goes.
pub proof fn the_selection_moves_by_one(
    snapshot: EditView,
    mode: InputMode,
    direction: SetSelectionType,
    intent: CompositionState,
    published: Result<CandidatesView, Failure>,
    shown: Result<CandidatesView, Failure>,
)
    requires
        0 < snapshot.candidates.texts.len() <= i32::MAX,
    ensures
        ({
            let batch = started(snapshot, mode, seq![ClientAction::SetSelection(direction)], intent);
            let replies = seq![published, shown];
            let edit = run(batch, replies).edit;
            let list = snapshot.candidates;
            let from = snapshot.selection_index as int;
            let to = edit.selection_index as int;
            &&& from < 0 ==> to == 0
            &&& from >= 0 && direction == SetSelectionType::Down && from + 1 < list.texts.len()
                ==> to == from + 1
            &&& from >= 0 && direction == SetSelectionType::Down && from + 1 >= list.texts.len()
                ==> to == list.texts.len() - 1
            &&& direction == SetSelectionType::Up && 0 < from < list.texts.len() ==> to == from - 1
            &&& direction == SetSelectionType::Up && from >= list.texts.len() ==> to
                == list.texts.len() - 1
            &&& direction == SetSelectionType::Up && from == 0 ==> to == 0
            &&& edit.preview == list.texts[to]
            &&& to < list.surface_count.len() ==> edit.surface_count == list.surface_count[to]
            &&& to < list.corresponding_count.len() ==> edit.corresponding_count
                == list.corresponding_count[to]
            &&& shows_row(edit, list, to)
            &&& edit.candidates == list
            &&& edit.raw_input == snapshot.raw_input
            &&& edit.state == intent
            &&& asked(batch, replies) == seq![
                EffectView::Publish { candidates: list, selection: to as i32, whole_list: false },
                EffectView::SetText { preview: edit.preview, suffix: edit.suffix },
            ]
        }),
{
    a_move_under_way(snapshot, mode, direction, intent, published, shown);
}

/// Moving down and then up again, or up and then down, comes back to the
/// candidate that it started from, wherever there is one to move to.
pub proof fn moving_there_and_back_changes_nothing(
    snapshot: EditView,
    mode: InputMode,
    down_first: bool,
    intent: CompositionState,
    replies: Seq<Result<CandidatesView, Failure>>,
    replies_back: Seq<Result<CandidatesView, Failure>>,
)
    requires
        replies.len() == 2,
        replies_back.len() == 2,
        0 < snapshot.candidates.texts.len() <= i32::MAX,
        0 <= snapshot.selection_index < snapshot.candidates.texts.len(),
        down_first ==> snapshot.selection_index + 1 < snapshot.candidates.texts.len(),
        !down_first ==> snapshot.selection_index > 0,
    ensures
        ({
            let there = if down_first {
                SetSelectionType::Down
            } else {
                SetSelectionType::Up
            };
            let back = if down_first {
                SetSelectionType::Up
            } else {
                SetSelectionType::Down
            };
            let moved = run(
                started(snapshot, mode, seq![ClientAction::SetSelection(there)], intent),
                replies,
            ).edit;
            let returned = run(
                started(moved, mode, seq![ClientAction::SetSelection(back)], intent),
                replies_back,
            ).edit;
            &&& moved.selection_index != snapshot.selection_index
            &&& returned.selection_index == snapshot.selection_index
            &&& shows_row(returned, snapshot.candidates, snapshot.selection_index as int)
        }),
{
    let there = if down_first {
        SetSelectionType::Down
    } else {
        SetSelectionType::Up
    };
    let back = if down_first {
        SetSelectionType::Up
    } else {
        SetSelectionType::Down
    };
    assert(replies =~= seq![replies[0], replies[1]]);
    assert(replies_back =~= seq![replies_back[0], replies_back[1]]);
    the_selection_moves_by_one(snapshot, mode, there, intent, replies[0], replies[1]);
    let moved = run(
        started(snapshot, mode, seq![ClientAction::SetSelection(there)], intent),
        replies,
    ).edit;
    the_selection_moves_by_one(moved, mode, back, intent, replies_back[0], replies_back[1]);
}

/// Moving the selection over no candidates at all shows nothing.
pub proof fn a_selection_over_nothing_is_the_first(
    snapshot: EditView,
    mode: InputMode,
    direction: SetSelectionType,
    intent: CompositionState,
    published: Result<CandidatesView, Failure>,
    shown: Result<CandidatesView, Failure>,
)
    requires
        snapshot.candidates.texts.len() == 0,
    ensures
        ({
            let edit = run(
                started(snapshot, mode, seq![ClientAction::SetSelection(direction)], intent),
                seq![published, shown],
            ).edit;
            edit.selection_index == 0 && edit.preview.len() == 0
        }),
{
    a_move_under_way(snapshot, mode, direction, intent, published, shown);
}

/// A candidate that was moved to is the one that a commit is of.
pub proof fn the_commit_is_of_the_candidate_that_was_moved_to(
    snapshot: EditView,
    mode: InputMode,
    direction: SetSelectionType,
    intent: CompositionState,
    published: Result<CandidatesView, Failure>,
    shown: Result<CandidatesView, Failure>,
    more: String,
    next: CompositionState,
    replies: Seq<Result<CandidatesView, Failure>>,
    shrunk: CandidatesView,
    rest: CandidatesView,
    shifted: CandidatesView,
    republished: CandidatesView,
)
    requires
        0 < snapshot.candidates.texts.len() <= i32::MAX,
        -1 <= snapshot.selection_index < snapshot.candidates.texts.len(),
        snapshot.candidates.surface_count.len() == snapshot.candidates.texts.len(),
        snapshot.candidates.corresponding_count.len() == snapshot.candidates.texts.len(),
        replies.len() == 6,
        replies[1] == Ok::<CandidatesView, Failure>(shrunk),
        replies[2] == Ok::<CandidatesView, Failure>(rest),
        replies[3] == Ok::<CandidatesView, Failure>(shifted),
        replies[4] == Ok::<CandidatesView, Failure>(republished),
    ensures
        ({
            let moved = run(
                started(snapshot, mode, seq![ClientAction::SetSelection(direction)], intent),
                seq![published, shown],
            ).edit;
            let row = moved.selection_index as int;
            let effects = asked(
                started(moved, mode, seq![ClientAction::ShrinkText(more)], next),
                replies,
            );
            &&& effects[1] == EffectView::ShrinkText(
                snapshot.candidates.surface_count[row],
                Some(row as i32),
            )
            &&& effects[3] matches EffectView::ShiftStart { committed, .. } && committed
                == snapshot.candidates.texts[row]
        }),
{
    the_selection_moves_by_one(snapshot, mode, direction, intent, published, shown);
    let moved = run(
        started(snapshot, mode, seq![ClientAction::SetSelection(direction)], intent),
        seq![published, shown],
    ).edit;
    a_commit_spends_what_it_covers_and_goes_on(
        moved,
        mode,
        more,
        next,
        replies[0],
        shrunk,
        rest,
        shifted,
        republished,
        replies[5],
    );
    assert(replies =~= seq![
        replies[0],
        Ok(shrunk),
        Ok(rest),
        Ok(shifted),
        Ok(republished),
        replies[5],
    ]);
}

/// The batch that rewrites the reading in a form.
proof fn a_form_under_way(
    snapshot: EditView,
    mode: InputMode,
    form: SetTextType,
    intent: CompositionState,
    told: Result<CandidatesView, Failure>,
    shown: CandidatesView,
)
    ensures
        ({
            let action = ClientAction::SetTextWithType(form);
            let batch = started(snapshot, mode, seq![action], intent);
            let edit = EditView { state: intent, ..snapshot };
            let rewritten = step_edit(Step::ShowForm, action, edit, edit, shown);
            &&& run(batch, seq![told, Ok(shown)]).edit == rewritten
            &&& run(batch, seq![told, Ok(shown)]).phase == Phase::Finished
            &&& run(batch, seq![told, Ok(shown)]).outcome is None
            &&& asked(batch, seq![told, Ok(shown)]) == seq![
                EffectView::UpdateContext(snapshot.preview + snapshot.suffix),
                EffectView::SetText { preview: rewritten.preview, suffix: Seq::empty() },
            ]
        }),
{
    let action = ClientAction::SetTextWithType(form);
    let batch = started(snapshot, mode, seq![action], intent);
    starts_with_the_context(snapshot, mode, action, intent, told);
    let second = batch.resumed(told);
    let reply = Ok::<CandidatesView, Failure>(shown);
    assert(second.resumed(reply).edit == step_edit(
        Step::ShowForm,
        action,
        second.entry,
        second.edit,
        shown,
    ) && second.resumed(reply).phase == Phase::Finished && second.resumed(reply).outcome is None)
        by {
        reveal(BatchView::stepped);
        reveal_with_fuel(BatchView::settled, 2);
    }
    let replies = seq![told, reply];
    assert(replies.drop_first() =~= seq![reply]);
    assert(seq![reply].drop_first() =~= Seq::<Result<CandidatesView, Failure>>::empty());
    reveal_with_fuel(run, 3);
    reveal_with_fuel(asked, 3);
    assert(asked(batch, replies) =~= seq![batch.effect()->0, second.effect()->0]);
}

/// Rewriting the reading in a form shows all of it and nothing after it, in the
/// document as in the working copy. As hiragana it is the reading itself. As
/// half-width Latin it is the keystrokes, as full-width Latin their full-width
/// twins, each a fixed distance above. As katakana each hiragana character is
/// the one a fixed distance above it.
pub proof fn a_form_spells_the_reading_or_the_keystrokes(
    snapshot: EditView,
    mode: InputMode,
    form: SetTextType,
    intent: CompositionState,
    told: Result<CandidatesView, Failure>,
    shown: CandidatesView,
)
    requires
        forall|i: int|
            0 <= i < snapshot.raw_input.len() ==> '!' <= #[trigger] snapshot.raw_input[i] <= '~',
    ensures
        ({
            let batch = started(snapshot, mode, seq![ClientAction::SetTextWithType(form)], intent);
            let replies = seq![told, Ok(shown)];
            let edit = run(batch, replies).edit;
            let typed = snapshot.raw_input;
            let reading = snapshot.raw_hiragana;
            &&& asked(batch, replies) == seq![
                EffectView::UpdateContext(snapshot.preview + snapshot.suffix),
                EffectView::SetText { preview: edit.preview, suffix: Seq::empty() },
            ]
            &&& form == SetTextType::Hiragana ==> edit.preview == reading
            &&& form == SetTextType::HalfLatin ==> edit.preview == typed
            &&& form == SetTextType::HalfKatakana ==> edit.preview == half_katakana(reading)
            &&& form == SetTextType::FullLatin ==> edit.preview.len() == typed.len() && forall|
                i: int,
            |
                0 <= i < typed.len() ==> #[trigger] edit.preview[i] as int == typed[i] as int
                    + 0xFEE0
            &&& form == SetTextType::Katakana ==> edit.preview.len() == reading.len() && forall|
                i: int,
            |
                0 <= i < reading.len() ==> #[trigger] edit.preview[i] as int == if 0x3041
                    <= reading[i] as int <= 0x3096 {
                    reading[i] as int + 0x60
                } else {
                    reading[i] as int
                }
        }),
{
    a_form_under_way(snapshot, mode, form, intent, told, shown);
    let batch = started(snapshot, mode, seq![ClientAction::SetTextWithType(form)], intent);
    let edit = run(batch, seq![told, Ok(shown)]).edit;
    let typed = snapshot.raw_input;
    let reading = snapshot.raw_hiragana;
    if form == SetTextType::HalfLatin {
        assert forall|i: int| 0 <= i < typed.len() implies edit.preview[i] == typed[i] by {
            what_is_ascii_stays_narrow(typed[i]);
        }
        assert(edit.preview =~= typed);
    }
    if form == SetTextType::FullLatin {
        assert forall|i: int| 0 <= i < typed.len() implies #[trigger] edit.preview[i] as int
            == typed[i] as int + 0xFEE0 by {
            the_full_width_twin_is_a_fixed_distance_away(typed[i]);
        }
    }
    if form == SetTextType::Katakana {
        assert forall|i: int| 0 <= i < reading.len() implies #[trigger] edit.preview[i] as int
            == if 0x3041 <= reading[i] as int <= 0x3096 {
            reading[i] as int + 0x60
        } else {
            reading[i] as int
        } by {
            katakana_stands_a_fixed_distance_above(reading[i]);
        }
    }
}

/// A form covers the whole reading and all its keystrokes, is no candidate, and
/// leaves the reading, the keystrokes and the list as they are, so that another
/// form can follow.
pub proof fn a_form_covers_everything(
    snapshot: EditView,
    mode: InputMode,
    form: SetTextType,
    intent: CompositionState,
    told: Result<CandidatesView, Failure>,
    shown: CandidatesView,
)
    requires
        snapshot.raw_input.len() <= i32::MAX,
        snapshot.raw_hiragana.len() <= i32::MAX,
    ensures
        ({
            let edit = run(
                started(snapshot, mode, seq![ClientAction::SetTextWithType(form)], intent),
                seq![told, Ok(shown)],
            ).edit;
            &&& edit.suffix.len() == 0
            &&& edit.corresponding_count == snapshot.raw_input.len()
            &&& edit.surface_count == snapshot.raw_hiragana.len()
            &&& edit.selection_index == -1
            &&& edit.confirmed() is None
            &&& edit.raw_input == snapshot.raw_input
            &&& edit.raw_hiragana == snapshot.raw_hiragana
            &&& edit.candidates == snapshot.candidates
            &&& edit.state == intent
        }),
{
    a_form_under_way(snapshot, mode, form, intent, told, shown);
}

/// A second form shows what it would have shown without the first.
pub proof fn the_last_form_counts(
    snapshot: EditView,
    mode: InputMode,
    first: SetTextType,
    second: SetTextType,
    intent: CompositionState,
    told: Result<CandidatesView, Failure>,
    shown: CandidatesView,
)
    ensures
        ({
            let once = run(
                started(snapshot, mode, seq![ClientAction::SetTextWithType(first)], intent),
                seq![told, Ok(shown)],
            ).edit;
            let twice = run(
                started(once, mode, seq![ClientAction::SetTextWithType(second)], intent),
                seq![told, Ok(shown)],
            ).edit;
            twice == run(
                started(snapshot, mode, seq![ClientAction::SetTextWithType(second)], intent),
                seq![told, Ok(shown)],
            ).edit
        }),
{
    a_form_under_way(snapshot, mode, first, intent, told, shown);
    let once = run(
        started(snapshot, mode, seq![ClientAction::SetTextWithType(first)], intent),
        seq![told, Ok(shown)],
    ).edit;
    a_form_under_way(once, mode, second, intent, told, shown);
    a_form_under_way(snapshot, mode, second, intent, told, shown);
}

/// Going on typing behind a form commits all of the reading, as no candidate,
/// and what is typed is all that is left.
pub proof fn typing_on_behind_a_form_commits_it_whole(
    snapshot: EditView,
    mode: InputMode,
    form: SetTextType,
    intent: CompositionState,
    told: Result<CandidatesView, Failure>,
    shown: CandidatesView,
    more: String,
    next: CompositionState,
    told_again: Result<CandidatesView, Failure>,
    shrunk: CandidatesView,
    rest: CandidatesView,
    shifted: CandidatesView,
    republished: CandidatesView,
    placed: Result<CandidatesView, Failure>,
)
    requires
        snapshot.raw_input.len() <= i32::MAX,
        snapshot.raw_hiragana.len() <= i32::MAX,
    ensures
        ({
            let formed = run(
                started(snapshot, mode, seq![ClientAction::SetTextWithType(form)], intent),
                seq![told, Ok(shown)],
            ).edit;
            let batch = started(formed, mode, seq![ClientAction::ShrinkText(more)], next);
            let replies = seq![
                told_again,
                Ok(shrunk),
                Ok(rest),
                Ok(shifted),
                Ok(republished),
                placed,
            ];
            &&& asked(batch, replies)[1] == EffectView::ShrinkText(
                snapshot.raw_hiragana.len() as i32,
                None,
            )
            &&& run(batch, replies).edit.raw_input == more@
        }),
{
    a_form_covers_everything(snapshot, mode, form, intent, told, shown);
    let formed = run(
        started(snapshot, mode, seq![ClientAction::SetTextWithType(form)], intent),
        seq![told, Ok(shown)],
    ).edit;
    a_commit_spends_what_it_covers_and_goes_on(
        formed,
        mode,
        more,
        next,
        told_again,
        shrunk,
        rest,
        shifted,
        republished,
        placed,
    );
    assert((snapshot.raw_input + more@).skip(snapshot.raw_input.len() as int) =~= more@);
}

/// Ending a composition tells the engine of the candidate that was picked,
/// exactly where the selection is on the list and what it selects is what is
/// shown.
pub proof fn ending_confirms_the_candidate_that_is_shown(
    snapshot: EditView,
    mode: InputMode,
    intent: CompositionState,
    ended: Result<CandidatesView, Failure>,
    closed: Result<CandidatesView, Failure>,
    cleared: Result<CandidatesView, Failure>,
)
    ensures
        ({
            let batch = started(snapshot, mode, seq![ClientAction::EndComposition], intent);
            let replies = seq![ended, closed, cleared];
            let at = snapshot.selection_index as int;
            let picked = 0 <= at < snapshot.candidates.texts.len()
                && snapshot.candidates.texts[at] == snapshot.preview;
            asked(batch, replies)[2] == EffectView::ClearText(
                if picked {
                    Some(at as i32)
                } else {
                    None
                },
            )
        }),
{
    ending_carries_every_step_out(snapshot, mode, intent, ended, closed, cleared);
}

/// Nothing is left of a composition that is over: no text, no keystrokes, no
/// reading, no candidates.
pub proof fn a_composition_that_is_over_leaves_nothing(
    snapshot: EditView,
    mode: InputMode,
    intent: CompositionState,
    ended: Result<CandidatesView, Failure>,
    closed: Result<CandidatesView, Failure>,
    cleared: Result<CandidatesView, Failure>,
)
    ensures
        ({
            let edit = run(
                started(snapshot, mode, seq![ClientAction::EndComposition], intent),
                seq![ended, closed, cleared],
            ).edit;
            &&& edit.preview.len() == 0
            &&& edit.suffix.len() == 0
            &&& edit.raw_input.len() == 0
            &&& edit.raw_hiragana.len() == 0
            &&& edit.corresponding_count == 0
            &&& edit.surface_count == 0
            &&& edit.candidates.texts.len() == 0
            &&& edit.candidates.sub_texts.len() == 0
            &&& edit.candidates.hiragana.len() == 0
            &&& edit.candidates.corresponding_count.len() == 0
            &&& edit.candidates.surface_count.len() == 0
            &&& edit.selection_index == 0
            &&& edit.state == intent
        }),
{
    ending_carries_every_step_out(snapshot, mode, intent, ended, closed, cleared);
}

/// Starting a composition has the host open one, and then places and opens the
/// candidates; that these two fail does not matter, and the working copy stays
/// as it is.
pub proof fn starting_opens_a_composition_first(
    snapshot: EditView,
    mode: InputMode,
    intent: CompositionState,
    opened: CandidatesView,
    placed: Result<CandidatesView, Failure>,
    listed: Result<CandidatesView, Failure>,
)
    ensures
        ({
            let batch = started(snapshot, mode, seq![ClientAction::StartComposition], intent);
            let replies = seq![Ok(opened), placed, listed];
            &&& asked(batch, replies) == seq![
                EffectView::StartComposition,
                EffectView::UpdatePos,
                EffectView::OpenCandidates,
            ]
            &&& run(batch, replies).edit == (EditView { state: intent, ..snapshot })
            &&& run(batch, replies).phase == Phase::Finished
            &&& run(batch, replies).outcome is None
        }),
{
    let action = ClientAction::StartComposition;
    let batch = started(snapshot, mode, seq![action], intent);
    starts_at_once(snapshot, mode, action, intent);
    an_answered_step(batch, opened);
    let second = batch.resumed(Ok(opened));
    an_inner_step(second, placed);
    let third = second.resumed(placed);
    assert(third.resumed(listed).edit == third.edit && third.resumed(listed).phase
        == Phase::Finished && third.resumed(listed).outcome is None) by {
        reveal(BatchView::stepped);
        reveal_with_fuel(BatchView::settled, 2);
    }
    three_replies(batch, Ok(opened), placed, listed);
}

/// A composition that the host does not open is the end of the batch, before
/// anything is typed into it; the refusal is what the batch reports.
pub proof fn what_the_host_does_not_open_takes_no_text(
    snapshot: EditView,
    mode: InputMode,
    text: String,
    intent: CompositionState,
    told: Result<CandidatesView, Failure>,
    refused: Failure,
)
    requires
        !refused.is_unavailable(),
    ensures
        ({
            let batch = started(
                snapshot,
                mode,
                seq![ClientAction::StartComposition, ClientAction::AppendText(text)],
                intent,
            );
            let after = batch.resumed(told).resumed(Err(refused));
            &&& batch.effect() == Some(
                EffectView::UpdateContext(snapshot.preview + snapshot.suffix),
            )
            &&& batch.resumed(told).effect() == Some(EffectView::StartComposition)
            &&& after.effect() is None
            &&& after.outcome == Some(refused)
            &&& after.edit == (EditView { state: intent, ..snapshot })
        }),
{
    let actions = seq![ClientAction::StartComposition, ClientAction::AppendText(text)];
    assert(super::composition::reads_surroundings(actions[1]));
    reveal(BatchView::stepped);
}

/// A move of the cursor asks for nothing and changes nothing.
pub proof fn a_move_of_the_cursor_does_nothing(
    snapshot: EditView,
    mode: InputMode,
    offset: i32,
    intent: CompositionState,
)
    ensures
        ({
            let batch = started(snapshot, mode, seq![ClientAction::MoveCursor(offset)], intent);
            &&& batch.effect() is None
            &&& batch.edit == (EditView { state: intent, ..snapshot })
            &&& batch.outcome is None
        }),
{
    let actions = seq![ClientAction::MoveCursor(offset)];
    assert(!(exists|i: int|
        0 <= i < actions.len() && super::composition::reads_surroundings(#[trigger] actions[i])));
    reveal_with_fuel(BatchView::settled, 2);
}

/// What the engine answered is kept even where it cannot be shown: the host's
/// refusal is what the batch reports, and the keystrokes stay those that the
/// engine has.
pub proof fn an_answer_that_cannot_be_shown_is_kept(
    snapshot: EditView,
    mode: InputMode,
    text: String,
    intent: CompositionState,
    told: Result<CandidatesView, Failure>,
    list: CandidatesView,
    refused: Failure,
)
    requires
        !refused.is_unavailable(),
    ensures
        ({
            let batch = started(snapshot, mode, seq![ClientAction::AppendText(text)], intent);
            let after = batch.resumed(told).resumed(Ok(list)).resumed(Err(refused));
            &&& after.effect() is None
            &&& after.outcome == Some(refused)
            &&& after.edit.raw_input == snapshot.raw_input + text@
            &&& shows_row(after.edit, list, 0)
            &&& after.edit.candidates == list
        }),
{
    let action = ClientAction::AppendText(text);
    let batch = started(snapshot, mode, seq![action], intent);
    starts_with_the_context(snapshot, mode, action, intent, told);
    an_answered_step(batch.resumed(told), list);
    reveal(BatchView::stepped);
}

/// A commit that the engine carried out is not undone where what was typed next
/// is rejected: the keystrokes that the candidate covers are gone, and what was
/// typed is not among those that are left.
pub proof fn a_commit_stands_where_the_next_text_is_rejected(
    snapshot: EditView,
    mode: InputMode,
    text: String,
    intent: CompositionState,
    told: Result<CandidatesView, Failure>,
    shrunk: CandidatesView,
    rejected: Failure,
)
    requires
        !rejected.is_unavailable(),
        0 <= snapshot.corresponding_count <= snapshot.raw_input.len(),
    ensures
        ({
            let batch = started(snapshot, mode, seq![ClientAction::ShrinkText(text)], intent);
            let after = batch.resumed(told).resumed(Ok(shrunk)).resumed(Err(rejected));
            &&& after.effect() is None
            &&& after.outcome == Some(rejected)
            &&& after.edit.raw_input == snapshot.raw_input.skip(
                snapshot.corresponding_count as int,
            )
        }),
{
    let action = ClientAction::ShrinkText(text);
    let batch = started(snapshot, mode, seq![action], intent);
    starts_with_the_context(snapshot, mode, action, intent, told);
    an_answered_step(batch.resumed(told), shrunk);
    reveal(BatchView::stepped);
    assert(snapshot.raw_input + Seq::<char>::empty() =~= snapshot.raw_input);
}

} // verus!

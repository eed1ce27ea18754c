//! What holds of every run of a batch, however its effects go.

use vstd::prelude::*;

#[allow(unused_imports)]
use super::actions::{
    removed_kana, started, step_edit, step_effect, steps_of, BatchView, EffectView, OnFailure,
    Phase, Step,
};
#[allow(unused_imports)]
use super::client_action::ClientAction;
#[allow(unused_imports)]
use super::composition::{
    after_commit, kept_for_count, keystrokes_of, reads_surroundings, CompositionState, EditView,
};
#[allow(unused_imports)]
use super::input_mode::InputMode;
#[allow(unused_imports)]
use super::ipc_service::CandidatesView;
#[allow(unused_imports)]
use crate::failure::Failure;

verus! {

/// The batch once its effects have been answered, in order.
pub open spec fn run(batch: BatchView, replies: Seq<Result<CandidatesView, Failure>>) -> BatchView
    decreases replies.len(),
{
    if replies.len() == 0 {
        batch
    } else {
        run(batch.resumed(replies[0]), replies.drop_first())
    }
}

/// The effects that a batch asks for while it is answered.
pub open spec fn asked(batch: BatchView, replies: Seq<Result<CandidatesView, Failure>>) -> Seq<
    EffectView,
>
    decreases replies.len(),
{
    if replies.len() == 0 || batch.effect() is None {
        Seq::empty()
    } else {
        seq![batch.effect()->0] + asked(batch.resumed(replies[0]), replies.drop_first())
    }
}

/// Whether none of the effects is a call to the conversion server.
pub open spec fn calls_no_engine(effects: Seq<EffectView>) -> bool {
    forall|i: int| 0 <= i < effects.len() ==> !(#[trigger] effects[i]).is_engine_call()
}

/// Whether none of the effects edits the document.
pub open spec fn edits_nothing(effects: Seq<EffectView>) -> bool {
    forall|i: int| 0 <= i < effects.len() ==> !(#[trigger] effects[i]).edits_document()
}

/// The steps of the actions from one on.
pub open spec fn steps_from(actions: Seq<ClientAction>, at: int) -> nat
    decreases actions.len() - at,
{
    if at < 0 || at >= actions.len() {
        0
    } else {
        steps_of(actions[at]).len() + steps_from(actions, at + 1)
    }
}

/// A bound on the effects that a batch can still ask for.
pub open spec fn effects_left(batch: BatchView) -> int {
    match batch.phase {
        Phase::Context => steps_from(batch.actions, batch.at) - batch.step + 5,
        Phase::Running => steps_from(batch.actions, batch.at) - batch.step + 4,
        Phase::Clearing => 4,
        Phase::Replaying => 3,
        Phase::Ending => 2,
        Phase::Closing => 1,
        Phase::Finished => 0,
    }
}

proof fn settling_asks_for_no_more(batch: BatchView)
    requires
        batch.phase == Phase::Running,
        batch.outcome is None,
        0 <= batch.at,
        0 <= batch.step,
        batch.at < batch.actions.len() ==> batch.step <= steps_of(batch.actions[batch.at]).len(),
        batch.at >= batch.actions.len() ==> batch.step == 0,
    ensures
        effects_left(batch.settled()) <= effects_left(batch),
        batch.settled().wf(),
    decreases batch.actions.len() - batch.at,
{
    batch.settled_is_wf();
    if batch.at >= batch.actions.len() {
    } else if batch.step < steps_of(batch.actions[batch.at]).len() {
    } else if batch.deferred is Some {
        steps_bound(batch.actions, batch.at);
    } else {
        settling_asks_for_no_more(
            BatchView { at: batch.at + 1, step: 0, entry: batch.edit, ..batch },
        );
    }
}

proof fn steps_bound(actions: Seq<ClientAction>, at: int)
    requires
        0 <= at < actions.len(),
    ensures
        steps_of(actions[at]).len() <= steps_from(actions, at),
{
}

/// A batch at its start, or under way.
pub open spec fn under_way(batch: BatchView) -> bool {
    &&& batch.wf()
    &&& batch.phase == Phase::Context ==> batch.at == 0 && batch.step == 0
    &&& 0 <= batch.at
    &&& 0 <= batch.step
}

/// Every answer brings a batch that is not finished nearer to its end.
pub proof fn each_reply_makes_progress(batch: BatchView, reply: Result<CandidatesView, Failure>)
    requires
        under_way(batch),
        batch.phase != Phase::Finished,
    ensures
        under_way(batch.resumed(reply)),
        effects_left(batch.resumed(reply)) < effects_left(batch),
{
    match batch.phase {
        Phase::Context => {
            let running = BatchView { phase: Phase::Running, ..batch };
            settling_asks_for_no_more(running);
            settled_keeps_position(running);
        },
        Phase::Running => {
            reveal(BatchView::stepped);
            steps_bound(batch.actions, batch.at);
            assert forall|edit: EditView, deferred: Option<Failure>|
                #![trigger (BatchView { edit, step: batch.step + 1, deferred, ..batch }).settled()]
                {
                    let next = BatchView { edit, step: batch.step + 1, deferred, ..batch };
                    effects_left(next.settled()) < effects_left(batch) && under_way(next.settled())
                } by {
                let next = BatchView { edit, step: batch.step + 1, deferred, ..batch };
                settling_asks_for_no_more(next);
                settled_keeps_position(next);
            }
        },
        _ => {},
    }
}

proof fn settled_keeps_position(batch: BatchView)
    requires
        batch.phase == Phase::Running,
        0 <= batch.at,
        0 <= batch.step,
    ensures
        0 <= batch.settled().at,
        0 <= batch.settled().step,
        batch.settled().phase != Phase::Context,
    decreases batch.actions.len() - batch.at,
{
    if batch.at >= batch.actions.len() {
    } else if batch.step < steps_of(batch.actions[batch.at]).len() {
    } else if batch.deferred is Some {
    } else {
        settled_keeps_position(
            BatchView { at: batch.at + 1, step: 0, entry: batch.edit, ..batch },
        );
    }
}

/// Every batch comes to its end, and so to its write-back, after a bounded
/// number of effects, however they go.
pub proof fn every_batch_finishes(
    batch: BatchView,
    replies: Seq<Result<CandidatesView, Failure>>,
)
    requires
        under_way(batch),
        replies.len() >= effects_left(batch),
    ensures
        run(batch, replies).phase == Phase::Finished,
    decreases replies.len(),
{
    if batch.phase == Phase::Finished {
        if replies.len() > 0 {
            every_batch_finishes(batch.resumed(replies[0]), replies.drop_first());
        }
    } else {
        if batch.phase == Phase::Running || batch.phase == Phase::Context {
            if batch.at < batch.actions.len() {
                steps_bound(batch.actions, batch.at);
            }
        }
        each_reply_makes_progress(batch, replies[0]);
        every_batch_finishes(batch.resumed(replies[0]), replies.drop_first());
    }
}

/// A batch that was just started is under way.
pub proof fn started_is_under_way(
    snapshot: EditView,
    mode: InputMode,
    actions: Seq<ClientAction>,
    intent: CompositionState,
)
    ensures
        under_way(started(snapshot, mode, actions, intent)),
{
    let edit = EditView { state: intent, ..snapshot };
    let fresh = BatchView {
        actions,
        mode,
        intent,
        snapshot,
        edit,
        entry: edit,
        at: 0,
        step: 0,
        deferred: None,
        phase: Phase::Running,
        outcome: None,
    };
    fresh.settled_is_wf();
    settled_keeps_position(fresh);
}

/// A failure that a batch reports is never the loss of the server: that one is
/// dealt with, and the keystroke counts as handled.
pub open spec fn reports_no_loss(batch: BatchView) -> bool {
    batch.outcome is Some ==> !batch.outcome->0.is_unavailable()
}

proof fn settled_reports_no_loss(batch: BatchView)
    requires
        reports_no_loss(batch),
    ensures
        reports_no_loss(batch.settled()),
    decreases batch.actions.len() - batch.at,
{
    if batch.at < 0 || batch.at >= batch.actions.len() {
    } else if 0 <= batch.step < steps_of(batch.actions[batch.at]).len() {
    } else if batch.deferred is Some {
    } else {
        settled_reports_no_loss(
            BatchView { at: batch.at + 1, step: 0, entry: batch.edit, ..batch },
        );
    }
}

/// The loss of the server never surfaces from a batch, however it runs.
pub proof fn the_loss_of_the_server_never_surfaces(
    batch: BatchView,
    replies: Seq<Result<CandidatesView, Failure>>,
)
    requires
        reports_no_loss(batch),
    ensures
        reports_no_loss(run(batch, replies)),
    decreases replies.len(),
{
    if replies.len() > 0 {
        match batch.phase {
            Phase::Context => {
                settled_reports_no_loss(BatchView { phase: Phase::Running, ..batch });
            },
            Phase::Running => {
                reveal(BatchView::stepped);
                assert forall|edit: EditView, deferred: Option<Failure>|
                    #![trigger (BatchView { edit, step: batch.step + 1, deferred, ..batch }).settled()]
                    reports_no_loss(
                        (BatchView { edit, step: batch.step + 1, deferred, ..batch }).settled(),
                    ) by {
                    settled_reports_no_loss(
                        BatchView { edit, step: batch.step + 1, deferred, ..batch },
                    );
                }
            },
            _ => {},
        }
        the_loss_of_the_server_never_surfaces(batch.resumed(replies[0]), replies.drop_first());
    }
}

/// Whether a batch is putting the server's reading back.
pub open spec fn is_rebuilding(batch: BatchView) -> bool {
    batch.phase == Phase::Clearing || batch.phase == Phase::Replaying
}

proof fn settled_keeps_intent(batch: BatchView)
    requires
        batch.phase == Phase::Running,
    ensures
        batch.settled().intent == batch.intent,
        batch.intent == CompositionState::Idle ==> !is_rebuilding(batch.settled()),
    decreases batch.actions.len() - batch.at,
{
    if batch.at < 0 || batch.at >= batch.actions.len() {
    } else if 0 <= batch.step < steps_of(batch.actions[batch.at]).len() {
    } else if batch.deferred is Some {
    } else {
        settled_keeps_intent(BatchView { at: batch.at + 1, step: 0, entry: batch.edit, ..batch });
    }
}

/// A batch that was to end the composition never brings it back: what was
/// committed or discarded is not typed into the server anew.
pub proof fn an_ending_batch_never_rebuilds(
    batch: BatchView,
    replies: Seq<Result<CandidatesView, Failure>>,
)
    requires
        batch.intent == CompositionState::Idle,
        !is_rebuilding(batch),
    ensures
        !is_rebuilding(run(batch, replies)),
    decreases replies.len(),
{
    if replies.len() > 0 {
        match batch.phase {
            Phase::Context => {
                settled_keeps_intent(BatchView { phase: Phase::Running, ..batch });
            },
            Phase::Running => {
                reveal(BatchView::stepped);
                assert forall|edit: EditView, deferred: Option<Failure>|
                    #![trigger (BatchView { edit, step: batch.step + 1, deferred, ..batch }).settled()]
                    {
                        let next = (BatchView {
                            edit,
                            step: batch.step + 1,
                            deferred,
                            ..batch
                        }).settled();
                        next.intent == CompositionState::Idle && !is_rebuilding(next)
                    } by {
                    settled_keeps_intent(
                        BatchView { edit, step: batch.step + 1, deferred, ..batch },
                    );
                }
            },
            _ => {},
        }
        an_ending_batch_never_rebuilds(batch.resumed(replies[0]), replies.drop_first());
    }
}

/// A server that answers again costs one keystroke and nothing else: its
/// reading is cleared and typed anew from the keystrokes that the batch
/// started with, and the composition is what it was.
pub proof fn a_rebuilt_server_keeps_the_composition(
    batch: BatchView,
    cleared: CandidatesView,
    replayed: CandidatesView,
)
    requires
        batch.wf(),
        batch.phase == Phase::Clearing,
    ensures
        asked(batch, seq![Ok(cleared), Ok(replayed)]) == seq![
            EffectView::ClearText(None),
            EffectView::AppendText(keystrokes_of(batch.mode, batch.snapshot.raw_input)),
        ],
        run(batch, seq![Ok(cleared), Ok(replayed)]).phase == Phase::Finished,
        run(batch, seq![Ok(cleared), Ok(replayed)]).edit == batch.snapshot,
        run(batch, seq![Ok(cleared), Ok(replayed)]).outcome is None,
{
    reveal_with_fuel(run, 3);
    reveal_with_fuel(asked, 3);
    let replies: Seq<Result<CandidatesView, Failure>> = seq![Ok(cleared), Ok(replayed)];
    assert(replies.drop_first() =~= seq![Ok::<CandidatesView, Failure>(replayed)]);
    assert(replies.drop_first().drop_first() =~= Seq::empty());
    assert(asked(batch, replies) =~= seq![
        EffectView::ClearText(None),
        EffectView::AppendText(keystrokes_of(batch.mode, batch.snapshot.raw_input)),
    ]);
}

/// A server that stays lost costs the composition: it is ended and its
/// candidates put away without another call to the server, and nothing of it
/// is left.
pub proof fn a_lost_server_ends_the_composition(
    batch: BatchView,
    ended: Result<CandidatesView, Failure>,
    closed: Result<CandidatesView, Failure>,
)
    requires
        batch.wf(),
        batch.phase == Phase::Ending,
    ensures
        asked(batch, seq![ended, closed]) == seq![
            EffectView::EndComposition,
            EffectView::CloseCandidates,
        ],
        calls_no_engine(asked(batch, seq![ended, closed])),
        run(batch, seq![ended, closed]).phase == Phase::Finished,
        run(batch, seq![ended, closed]).edit == EditView::blank(CompositionState::Idle),
        run(batch, seq![ended, closed]).outcome is None,
{
    reveal_with_fuel(run, 3);
    reveal_with_fuel(asked, 3);
    let replies = seq![ended, closed];
    assert(replies.drop_first() =~= seq![closed]);
    assert(replies.drop_first().drop_first() =~= Seq::empty());
    assert(asked(batch, replies) =~= seq![EffectView::EndComposition, EffectView::CloseCandidates]);
}

/// A call that failed spends no keystrokes: what the server is recorded to
/// have consumed changes only with its answer, or when all of it is given up.
pub proof fn a_failed_step_spends_no_keystrokes(batch: BatchView, failure: Failure)
    requires
        batch.wf(),
        batch.phase == Phase::Running,
        !batch.current().tears_down(),
    ensures
        batch.resumed(Err(failure)).edit.raw_input == batch.edit.raw_input,
{
    reveal(BatchView::stepped);
    assert forall|edit: EditView, deferred: Option<Failure>|
        #![trigger (BatchView { edit, step: batch.step + 1, deferred, ..batch }).settled()]
        (BatchView { edit, step: batch.step + 1, deferred, ..batch }).settled().edit == edit by {
        settled_keeps_edit(BatchView { edit, step: batch.step + 1, deferred, ..batch });
    }
}

pub(crate) proof fn settled_keeps_edit(batch: BatchView)
    ensures
        batch.settled().edit == batch.edit,
    decreases batch.actions.len() - batch.at,
{
    if batch.at < 0 || batch.at >= batch.actions.len() {
    } else if 0 <= batch.step < steps_of(batch.actions[batch.at]).len() {
    } else if batch.deferred is Some {
    } else {
        settled_keeps_edit(BatchView { at: batch.at + 1, step: 0, entry: batch.edit, ..batch });
    }
}

/// A keystroke that the engine rejects leaves the working copy as it was, and
/// the rejection is what the batch reports.
pub proof fn a_rejected_keystroke_changes_nothing(batch: BatchView, failure: Failure)
    requires
        batch.wf(),
        batch.phase == Phase::Running,
        batch.current() == Step::Append || batch.current() == Step::Remove,
        !failure.is_unavailable(),
    ensures
        batch.resumed(Err(failure)).phase == Phase::Finished,
        batch.resumed(Err(failure)).edit == batch.edit,
        batch.resumed(Err(failure)).outcome == Some(failure),
{
    reveal(BatchView::stepped);
}

/// The failure that comes first, if any does.
pub open spec fn first_failure(
    earlier: Result<CandidatesView, Failure>,
    later: Result<CandidatesView, Failure>,
) -> Option<Failure> {
    match earlier {
        Err(failure) => Some(failure),
        Ok(_) => match later {
            Err(failure) => Some(failure),
            Ok(_) => None,
        },
    }
}

/// What becomes of a batch whose last step is done and whose first failure was
/// put off: it reports that failure, unless it is the loss of the server,
/// which is dealt with first.
pub open spec fn surfaces(batch: BatchView, failure: Option<Failure>) -> bool {
    match failure {
        None => batch.phase == Phase::Finished && batch.outcome is None,
        Some(failure) => if failure.is_unavailable() {
            batch.phase == if batch.can_rebuild() {
                Phase::Clearing
            } else {
                Phase::Ending
            }
        } else {
            batch.phase == Phase::Finished && batch.outcome == Some(failure)
        },
    }
}

/// The batch after a step that does not stop it and that others of the same
/// action follow.
pub(crate) proof fn an_inner_step(batch: BatchView, reply: Result<CandidatesView, Failure>)
    requires
        batch.wf(),
        batch.phase == Phase::Running,
        batch.step + 1 < steps_of(batch.action()).len(),
        batch.current().on_failure() != OnFailure::Abort,
        forall|candidates: CandidatesView|
            batch.current().tears_down() || batch.edit == #[trigger] step_edit(
                batch.current(),
                batch.action(),
                batch.entry,
                batch.edit,
                candidates,
            ),
    ensures
        batch.resumed(reply) == (BatchView {
            edit: if batch.current().tears_down() {
                EditView::blank(batch.edit.state)
            } else {
                batch.edit
            },
            step: batch.step + 1,
            deferred: if batch.current().on_failure() == OnFailure::Defer && batch.deferred is None {
                match reply {
                    Err(failure) => Some(failure),
                    Ok(_) => None,
                }
            } else {
                batch.deferred
            },
            ..batch
        }),
{
    reveal(BatchView::stepped);
}

/// The batch after the clearing that ends its last action.
proof fn a_last_clearing(batch: BatchView, reply: Result<CandidatesView, Failure>)
    requires
        batch.wf(),
        batch.phase == Phase::Running,
        batch.at + 1 == batch.actions.len(),
        batch.step + 1 == steps_of(batch.action()).len(),
        batch.current() == Step::ClearConfirmed || batch.current() == Step::ClearDiscarded,
    ensures
        batch.resumed(reply).edit == batch.edit,
        surfaces(
            batch.resumed(reply),
            match batch.deferred {
                Some(failure) => Some(failure),
                None => match reply {
                    Err(failure) => Some(failure),
                    Ok(_) => None,
                },
            },
        ),
{
    reveal(BatchView::stepped);
    reveal_with_fuel(BatchView::settled, 2);
}

pub(crate) proof fn three_replies(
    batch: BatchView,
    a: Result<CandidatesView, Failure>,
    b: Result<CandidatesView, Failure>,
    c: Result<CandidatesView, Failure>,
)
    requires
        batch.effect() is Some,
        batch.resumed(a).effect() is Some,
        batch.resumed(a).resumed(b).effect() is Some,
    ensures
        run(batch, seq![a, b, c]) == batch.resumed(a).resumed(b).resumed(c),
        asked(batch, seq![a, b, c]) == seq![
            batch.effect()->0,
            batch.resumed(a).effect()->0,
            batch.resumed(a).resumed(b).effect()->0,
        ],
{
    let replies = seq![a, b, c];
    let second = batch.resumed(a);
    let third = second.resumed(b);
    assert(replies.drop_first() =~= seq![b, c]);
    assert(seq![b, c].drop_first() =~= seq![c]);
    assert(seq![c].drop_first() =~= Seq::<Result<CandidatesView, Failure>>::empty());
    assert(run(third, seq![c]) == third.resumed(c)) by {
        reveal_with_fuel(run, 2);
    }
    assert(run(second, seq![b, c]) == third.resumed(c));
    assert(asked(third, seq![c]) == seq![third.effect()->0]) by {
        reveal_with_fuel(asked, 2);
        assert(asked(third, seq![c]) =~= seq![third.effect()->0]);
    }
    assert(asked(second, seq![b, c]) =~= seq![second.effect()->0, third.effect()->0]);
    assert(asked(batch, replies) =~= seq![
        batch.effect()->0,
        second.effect()->0,
        third.effect()->0,
    ]);
}

pub(crate) proof fn one_reply_more(
    batch: BatchView,
    first: Result<CandidatesView, Failure>,
    rest: Seq<Result<CandidatesView, Failure>>,
)
    requires
        batch.effect() is Some,
    ensures
        run(batch, seq![first] + rest) == run(batch.resumed(first), rest),
        asked(batch, seq![first] + rest) == seq![batch.effect()->0] + asked(
            batch.resumed(first),
            rest,
        ),
{
    assert((seq![first] + rest).drop_first() =~= rest);
}

pub(crate) proof fn starts_at_once(
    snapshot: EditView,
    mode: InputMode,
    action: ClientAction,
    intent: CompositionState,
)
    requires
        !reads_surroundings(action),
        steps_of(action).len() > 0,
    ensures
        ({
            let edit = EditView { state: intent, ..snapshot };
            started(snapshot, mode, seq![action], intent) == (BatchView {
                actions: seq![action],
                mode,
                intent,
                snapshot,
                edit,
                entry: edit,
                at: 0,
                step: 0,
                deferred: None,
                phase: Phase::Running,
                outcome: None,
            })
        }),
{
    let actions = seq![action];
    assert(!(exists|i: int| 0 <= i < actions.len() && reads_surroundings(#[trigger] actions[i])));
}

/// Ending a composition carries every step out, however each goes: the host
/// ends it, the candidates are put away, the server's reading is cleared with
/// what was confirmed, and the working copy is blank.
pub proof fn ending_carries_every_step_out(
    snapshot: EditView,
    mode: InputMode,
    intent: CompositionState,
    ended: Result<CandidatesView, Failure>,
    closed: Result<CandidatesView, Failure>,
    cleared: Result<CandidatesView, Failure>,
)
    ensures
        ({
            let batch = started(snapshot, mode, seq![ClientAction::EndComposition], intent);
            let replies = seq![ended, closed, cleared];
            &&& asked(batch, replies) == seq![
                EffectView::EndComposition,
                EffectView::CloseCandidates,
                EffectView::ClearText(snapshot.confirmed()),
            ]
            &&& run(batch, replies).edit == EditView::blank(intent)
            &&& surfaces(run(batch, replies), first_failure(ended, cleared))
        }),
{
    let action = ClientAction::EndComposition;
    let batch = started(snapshot, mode, seq![action], intent);
    starts_at_once(snapshot, mode, action, intent);
    an_inner_step(batch, ended);
    let after_1 = batch.resumed(ended);
    an_inner_step(after_1, closed);
    let after_2 = after_1.resumed(closed);
    a_last_clearing(after_2, cleared);
    three_replies(batch, ended, closed, cleared);
}

/// Cancelling a composition empties it before it ends, so that nothing of it
/// reaches the document; it confirms nothing, and every step is carried out
/// however each goes.
pub proof fn cancelling_empties_before_it_ends(
    snapshot: EditView,
    mode: InputMode,
    intent: CompositionState,
    emptied: Result<CandidatesView, Failure>,
    ended: Result<CandidatesView, Failure>,
    closed: Result<CandidatesView, Failure>,
    cleared: Result<CandidatesView, Failure>,
)
    ensures
        ({
            let batch = started(snapshot, mode, seq![ClientAction::CancelComposition], intent);
            let replies = seq![emptied, ended, closed, cleared];
            &&& asked(batch, replies) == seq![
                EffectView::SetText { preview: Seq::empty(), suffix: Seq::empty() },
                EffectView::EndComposition,
                EffectView::CloseCandidates,
                EffectView::ClearText(None),
            ]
            &&& run(batch, replies).edit == EditView::blank(intent)
            &&& surfaces(run(batch, replies), match emptied {
                Err(failure) => Some(failure),
                Ok(_) => first_failure(ended, cleared),
            })
        }),
{
    let action = ClientAction::CancelComposition;
    let batch = started(snapshot, mode, seq![action], intent);
    starts_at_once(snapshot, mode, action, intent);
    an_inner_step(batch, emptied);
    let after_1 = batch.resumed(emptied);
    an_inner_step(after_1, ended);
    let after_2 = after_1.resumed(ended);
    an_inner_step(after_2, closed);
    let after_3 = after_2.resumed(closed);
    a_last_clearing(after_3, cleared);
    three_replies(after_1, ended, closed, cleared);
    let rest = seq![ended, closed, cleared];
    one_reply_more(batch, emptied, rest);
    assert(seq![emptied] + rest =~= seq![emptied, ended, closed, cleared]);
    assert(asked(batch, seq![emptied, ended, closed, cleared]) =~= seq![
        EffectView::SetText { preview: Seq::empty(), suffix: Seq::empty() },
        EffectView::EndComposition,
        EffectView::CloseCandidates,
        EffectView::ClearText(None),
    ]);
}

/// A composition that the host has ended is torn down on this side alone: no
/// step of it edits the document, and it confirms nothing.
pub proof fn a_terminated_composition_is_left_to_the_host(
    snapshot: EditView,
    mode: InputMode,
    intent: CompositionState,
    released: Result<CandidatesView, Failure>,
    closed: Result<CandidatesView, Failure>,
    cleared: Result<CandidatesView, Failure>,
)
    ensures
        ({
            let batch = started(snapshot, mode, seq![ClientAction::CompositionTerminated], intent);
            let replies = seq![released, closed, cleared];
            &&& asked(batch, replies) == seq![
                EffectView::ReleaseComposition,
                EffectView::CloseCandidates,
                EffectView::ClearText(None),
            ]
            &&& edits_nothing(asked(batch, replies))
            &&& run(batch, replies).edit == EditView::blank(intent)
            &&& surfaces(run(batch, replies), match cleared {
                Err(failure) => Some(failure),
                Ok(_) => None,
            })
        }),
{
    let action = ClientAction::CompositionTerminated;
    let batch = started(snapshot, mode, seq![action], intent);
    starts_at_once(snapshot, mode, action, intent);
    an_inner_step(batch, released);
    let after_1 = batch.resumed(released);
    an_inner_step(after_1, closed);
    let after_2 = after_1.resumed(closed);
    a_last_clearing(after_2, cleared);
    three_replies(batch, released, closed, cleared);
}

/// A composition that ends because the focus leaves stays in the document, but
/// the engine is told of no choice.
pub proof fn losing_the_focus_confirms_nothing(
    snapshot: EditView,
    mode: InputMode,
    intent: CompositionState,
    ended: Result<CandidatesView, Failure>,
    closed: Result<CandidatesView, Failure>,
    cleared: Result<CandidatesView, Failure>,
)
    ensures
        ({
            let batch = started(snapshot, mode, seq![ClientAction::EndCompositionAtFocusLoss], intent);
            let replies = seq![ended, closed, cleared];
            &&& asked(batch, replies) == seq![
                EffectView::EndComposition,
                EffectView::CloseCandidates,
                EffectView::ClearText(None),
            ]
            &&& run(batch, replies).edit == EditView::blank(intent)
            &&& surfaces(run(batch, replies), first_failure(ended, cleared))
        }),
{
    let action = ClientAction::EndCompositionAtFocusLoss;
    let batch = started(snapshot, mode, seq![action], intent);
    starts_at_once(snapshot, mode, action, intent);
    an_inner_step(batch, ended);
    let after_1 = batch.resumed(ended);
    an_inner_step(after_1, closed);
    let after_2 = after_1.resumed(closed);
    a_last_clearing(after_2, cleared);
    three_replies(batch, ended, closed, cleared);
}

/// Rewriting the reading as one of its forms confirms no candidate, even where
/// the form spells one.
pub proof fn a_form_confirms_no_candidate(
    action: ClientAction,
    entry: EditView,
    edit: EditView,
    candidates: CandidatesView,
)
    ensures
        step_edit(Step::ShowForm, action, entry, edit, candidates).confirmed() is None,
        step_edit(Step::ShowForm, action, entry, edit, candidates).suffix.len() == 0,
{
}

/// Wherever the selection stood, moving it lands on the list, and the
/// candidate that it lands on is the one that is shown.
pub proof fn moving_the_selection_stays_on_the_list(
    action: ClientAction,
    entry: EditView,
    edit: EditView,
    candidates: CandidatesView,
)
    requires
        action is SetSelection,
        0 < edit.candidates.texts.len() <= i32::MAX,
    ensures
        ({
            let moved = step_edit(Step::PublishSelection, action, entry, edit, candidates);
            &&& 0 <= moved.selection_index < edit.candidates.texts.len()
            &&& moved.preview == edit.candidates.texts[moved.selection_index as int]
            &&& moved.confirmed() == Some(moved.selection_index)
        }),
{
}

/// The engine is told of the surrounding text before anything else, exactly
/// where an action of the batch can depend on it.
pub proof fn the_context_comes_first(
    snapshot: EditView,
    mode: InputMode,
    actions: Seq<ClientAction>,
    intent: CompositionState,
)
    ensures
        started(snapshot, mode, actions, intent).effect() matches Some(effect) ==> (effect
            is UpdateContext <==> exists|i: int|
            0 <= i < actions.len() && reads_surroundings(#[trigger] actions[i])),
        (exists|i: int| 0 <= i < actions.len() && reads_surroundings(#[trigger] actions[i]))
            ==> started(snapshot, mode, actions, intent).effect() == Some(
            EffectView::UpdateContext(snapshot.preview + snapshot.suffix),
        ),
{
    let edit = EditView { state: intent, ..snapshot };
    let fresh = BatchView {
        actions,
        mode,
        intent,
        snapshot,
        edit,
        entry: edit,
        at: 0,
        step: 0,
        deferred: None,
        phase: Phase::Running,
        outcome: None,
    };
    settled_keeps_position(fresh);
}

/// The batch after a step that succeeded and that others of the same action
/// follow.
pub(crate) proof fn an_answered_step(batch: BatchView, candidates: CandidatesView)
    requires
        batch.wf(),
        batch.phase == Phase::Running,
        batch.step + 1 < steps_of(batch.action()).len(),
        !batch.current().tears_down(),
    ensures
        batch.resumed(Ok(candidates)) == (BatchView {
            edit: step_edit(
                batch.current(),
                batch.action(),
                batch.entry,
                batch.edit,
                candidates,
            ),
            step: batch.step + 1,
            ..batch
        }),
{
    reveal(BatchView::stepped);
}

/// The batch after a last step whose outcome does not matter.
pub(crate) proof fn a_last_notice(batch: BatchView, reply: Result<CandidatesView, Failure>)
    requires
        batch.wf(),
        batch.phase == Phase::Running,
        batch.at + 1 == batch.actions.len(),
        batch.step + 1 == steps_of(batch.action()).len(),
        batch.deferred is None,
        batch.current() == Step::PublishList || batch.current() == Step::UpdatePos,
    ensures
        batch.resumed(reply).edit == batch.edit,
        batch.resumed(reply).phase == Phase::Finished,
        batch.resumed(reply).outcome == batch.outcome,
{
    reveal(BatchView::stepped);
    reveal_with_fuel(BatchView::settled, 2);
}

/// The batch that a single action starts which reads what surrounds the
/// composition, once the engine was told of that.
pub(crate) proof fn starts_with_the_context(
    snapshot: EditView,
    mode: InputMode,
    action: ClientAction,
    intent: CompositionState,
    told: Result<CandidatesView, Failure>,
)
    requires
        reads_surroundings(action),
        steps_of(action).len() > 0,
    ensures
        ({
            let edit = EditView { state: intent, ..snapshot };
            let batch = started(snapshot, mode, seq![action], intent);
            &&& batch.effect() == Some(
                EffectView::UpdateContext(snapshot.preview + snapshot.suffix),
            )
            &&& batch.resumed(told) == (BatchView {
                actions: seq![action],
                mode,
                intent,
                snapshot,
                edit,
                entry: edit,
                at: 0,
                step: 0,
                deferred: None,
                phase: Phase::Running,
                outcome: None,
            })
        }),
{
    let actions = seq![action];
    assert(reads_surroundings(actions[0]));
}

/// A keystroke that the engine accepts is sent as it is to be converted,
/// recorded as typed, and shown as the first of the candidates that came back,
/// which are handed out whole. Whether the engine could be told of the
/// surrounding text does not matter.
pub proof fn an_accepted_keystroke_is_recorded_and_shown(
    snapshot: EditView,
    mode: InputMode,
    text: String,
    intent: CompositionState,
    told: Result<CandidatesView, Failure>,
    candidates: CandidatesView,
    shown: CandidatesView,
    published: Result<CandidatesView, Failure>,
)
    ensures
        ({
            let batch = started(snapshot, mode, seq![ClientAction::AppendText(text)], intent);
            let replies = seq![told, Ok(candidates), Ok(shown), published];
            let edit = EditView {
                raw_input: snapshot.raw_input + text@,
                ..(EditView { state: intent, ..snapshot }).adopting_fresh(candidates)
            };
            &&& asked(batch, replies) == seq![
                EffectView::UpdateContext(snapshot.preview + snapshot.suffix),
                EffectView::AppendText(keystrokes_of(mode, text@)),
                EffectView::SetText { preview: edit.preview, suffix: edit.suffix },
                EffectView::Publish { candidates, selection: 0, whole_list: true },
            ]
            &&& run(batch, replies).phase == Phase::Finished
            &&& run(batch, replies).outcome is None
            &&& run(batch, replies).edit == edit
        }),
{
    let action = ClientAction::AppendText(text);
    let batch = started(snapshot, mode, seq![action], intent);
    starts_with_the_context(snapshot, mode, action, intent, told);
    let after_1 = batch.resumed(told);
    an_answered_step(after_1, candidates);
    let after_2 = after_1.resumed(Ok(candidates));
    an_answered_step(after_2, shown);
    let after_3 = after_2.resumed(Ok(shown));
    a_last_notice(after_3, published);
    let rest = seq![Ok(candidates), Ok(shown), published];
    three_replies(after_1, Ok(candidates), Ok(shown), published);
    one_reply_more(batch, told, rest);
    assert(seq![told] + rest =~= seq![told, Ok(candidates), Ok(shown), published]);
    assert(asked(batch, seq![told, Ok(candidates), Ok(shown), published]) =~= seq![
        batch.effect()->0,
        after_1.effect()->0,
        after_2.effect()->0,
        after_3.effect()->0,
    ]);
}

/// A removal that the engine accepts costs one call, however many kana it
/// removes, and leaves the keystrokes that the new first candidate covers.
pub proof fn an_accepted_removal_keeps_what_is_covered(
    snapshot: EditView,
    mode: InputMode,
    count: u32,
    intent: CompositionState,
    told: Result<CandidatesView, Failure>,
    candidates: CandidatesView,
    shown: CandidatesView,
    published: Result<CandidatesView, Failure>,
)
    ensures
        ({
            let action = ClientAction::RemoveText(count);
            let batch = started(snapshot, mode, seq![action], intent);
            let replies = seq![told, Ok(candidates), Ok(shown), published];
            let fresh = (EditView { state: intent, ..snapshot }).adopting_fresh(candidates);
            let edit = EditView {
                raw_input: kept_for_count(snapshot.raw_input, fresh.corresponding_count),
                ..fresh
            };
            &&& asked(batch, replies) == seq![
                EffectView::UpdateContext(snapshot.preview + snapshot.suffix),
                EffectView::RemoveText(removed_kana(action)),
                EffectView::SetText { preview: edit.preview, suffix: edit.suffix },
                EffectView::Publish { candidates, selection: 0, whole_list: true },
            ]
            &&& run(batch, replies).phase == Phase::Finished
            &&& run(batch, replies).outcome is None
            &&& run(batch, replies).edit == edit
        }),
{
    let action = ClientAction::RemoveText(count);
    let batch = started(snapshot, mode, seq![action], intent);
    starts_with_the_context(snapshot, mode, action, intent, told);
    let after_1 = batch.resumed(told);
    an_answered_step(after_1, candidates);
    let after_2 = after_1.resumed(Ok(candidates));
    an_answered_step(after_2, shown);
    let after_3 = after_2.resumed(Ok(shown));
    a_last_notice(after_3, published);
    let rest = seq![Ok(candidates), Ok(shown), published];
    three_replies(after_1, Ok(candidates), Ok(shown), published);
    one_reply_more(batch, told, rest);
    assert(seq![told] + rest =~= seq![told, Ok(candidates), Ok(shown), published]);
    assert(asked(batch, seq![told, Ok(candidates), Ok(shown), published]) =~= seq![
        batch.effect()->0,
        after_1.effect()->0,
        after_2.effect()->0,
        after_3.effect()->0,
    ]);
}

/// Committing the selected candidate and going on: the server commits the kana
/// that the candidate covers before the new keystroke is typed, the document
/// commits the text that was shown, and the keystrokes that the candidate
/// covers are spent. What is left is composed, whatever the batch was to end
/// in.
pub proof fn a_commit_spends_what_it_covers_and_goes_on(
    snapshot: EditView,
    mode: InputMode,
    text: String,
    intent: CompositionState,
    told: Result<CandidatesView, Failure>,
    shrunk: CandidatesView,
    candidates: CandidatesView,
    shifted: CandidatesView,
    published: CandidatesView,
    placed: Result<CandidatesView, Failure>,
)
    ensures
        ({
            let batch = started(snapshot, mode, seq![ClientAction::ShrinkText(text)], intent);
            let replies = seq![told, Ok(shrunk), Ok(candidates), Ok(shifted), Ok(published), placed];
            let edit = EditView {
                raw_input: after_commit(snapshot.raw_input, text@, snapshot.corresponding_count),
                state: CompositionState::Composing,
                ..snapshot.adopting_fresh(candidates)
            };
            &&& asked(batch, replies) == seq![
                EffectView::UpdateContext(snapshot.preview + snapshot.suffix),
                EffectView::ShrinkText(snapshot.surface_count, snapshot.confirmed()),
                EffectView::AppendText(keystrokes_of(mode, text@)),
                EffectView::ShiftStart { committed: snapshot.preview, preview: edit.preview },
                EffectView::Publish { candidates, selection: 0, whole_list: true },
                EffectView::UpdatePos,
            ]
            &&& run(batch, replies).phase == Phase::Finished
            &&& run(batch, replies).outcome is None
            &&& run(batch, replies).edit == edit
        }),
{
    let action = ClientAction::ShrinkText(text);
    let batch = started(snapshot, mode, seq![action], intent);
    starts_with_the_context(snapshot, mode, action, intent, told);
    let after_1 = batch.resumed(told);
    an_answered_step(after_1, shrunk);
    let after_2 = after_1.resumed(Ok(shrunk));
    an_answered_step(after_2, candidates);
    let after_3 = after_2.resumed(Ok(candidates));
    an_answered_step(after_3, shifted);
    let after_4 = after_3.resumed(Ok(shifted));
    an_answered_step(after_4, published);
    let after_5 = after_4.resumed(Ok(published));
    a_last_notice(after_5, placed);
    let last = seq![Ok(shifted), Ok(published), placed];
    three_replies(after_3, Ok(shifted), Ok(published), placed);
    one_reply_more(after_2, Ok(candidates), last);
    one_reply_more(after_1, Ok(shrunk), seq![Ok(candidates)] + last);
    let rest = seq![Ok(shrunk)] + (seq![Ok(candidates)] + last);
    one_reply_more(batch, told, rest);
    assert(seq![told] + rest =~= seq![
        told,
        Ok(shrunk),
        Ok(candidates),
        Ok(shifted),
        Ok(published),
        placed,
    ]);
    assert(asked(batch, seq![told] + rest) =~= seq![
        batch.effect()->0,
        after_1.effect()->0,
        after_2.effect()->0,
        after_3.effect()->0,
        after_4.effect()->0,
        after_5.effect()->0,
    ]);
}

/// Switching the mode leaves nothing composed. Once the host has ended the
/// composition, what is left is carried out however each step goes: the
/// candidates are put away, the mode is applied, and the server's reading is
/// cleared without a choice.
pub proof fn a_mode_switch_leaves_nothing_composed(
    snapshot: EditView,
    mode: InputMode,
    switched: InputMode,
    intent: CompositionState,
    noted: Result<CandidatesView, Failure>,
    opened: CandidatesView,
    placed: Result<CandidatesView, Failure>,
    ended: CandidatesView,
    closed: Result<CandidatesView, Failure>,
    applied: Result<CandidatesView, Failure>,
    cleared: Result<CandidatesView, Failure>,
)
    ensures
        ({
            let batch = started(snapshot, mode, seq![ClientAction::SetIMEMode(switched)], intent);
            let replies = seq![noted, Ok(opened), placed, Ok(ended), closed, applied, cleared];
            &&& asked(batch, replies) == seq![
                EffectView::NoteModeToggle,
                EffectView::StartComposition,
                EffectView::UpdatePos,
                EffectView::EndComposition,
                EffectView::CloseCandidates,
                EffectView::ApplyInputMode(switched),
                EffectView::ClearText(None),
            ]
            &&& run(batch, replies).edit == EditView::blank(intent)
            &&& surfaces(run(batch, replies), first_failure(applied, cleared))
        }),
{
    let action = ClientAction::SetIMEMode(switched);
    let batch = started(snapshot, mode, seq![action], intent);
    starts_at_once(snapshot, mode, action, intent);
    an_inner_step(batch, noted);
    let after_1 = batch.resumed(noted);
    an_answered_step(after_1, opened);
    let after_2 = after_1.resumed(Ok(opened));
    an_inner_step(after_2, placed);
    let after_3 = after_2.resumed(placed);
    an_answered_step(after_3, ended);
    let after_4 = after_3.resumed(Ok(ended));
    an_inner_step(after_4, closed);
    let after_5 = after_4.resumed(closed);
    an_inner_step(after_5, applied);
    let after_6 = after_5.resumed(applied);
    a_last_clearing(after_6, cleared);
    let last = seq![closed, applied, cleared];
    three_replies(after_4, closed, applied, cleared);
    one_reply_more(after_3, Ok(ended), last);
    one_reply_more(after_2, placed, seq![Ok(ended)] + last);
    one_reply_more(after_1, Ok(opened), seq![placed] + (seq![Ok(ended)] + last));
    let rest = seq![Ok(opened)] + (seq![placed] + (seq![Ok(ended)] + last));
    one_reply_more(batch, noted, rest);
    assert(seq![noted] + rest =~= seq![
        noted,
        Ok(opened),
        placed,
        Ok(ended),
        closed,
        applied,
        cleared,
    ]);
    assert(asked(batch, seq![noted] + rest) =~= seq![
        batch.effect()->0,
        after_1.effect()->0,
        after_2.effect()->0,
        after_3.effect()->0,
        after_4.effect()->0,
        after_5.effect()->0,
        after_6.effect()->0,
    ]);
}

/// Wherever in a batch a call finds the server lost, the batch turns to its
/// recovery: the server's reading is put back where there is one and the batch
/// was not to end the composition, and the composition is given up otherwise.
/// Nothing that the batch reached is lost before that.
pub proof fn a_lost_call_turns_to_recovery(batch: BatchView, failure: Failure)
    requires
        batch.wf(),
        batch.phase == Phase::Running,
        batch.current().on_failure() == OnFailure::Abort,
        failure.is_unavailable(),
    ensures
        batch.resumed(Err(failure)) == (BatchView {
            phase: if batch.intent != CompositionState::Idle && batch.snapshot.state
                != CompositionState::Idle && batch.snapshot.raw_input.len() > 0 {
                Phase::Clearing
            } else {
                Phase::Ending
            },
            deferred: None,
            ..batch
        }),
{
    reveal(BatchView::stepped);
}

/// Whether an action is a keystroke that asks the engine for new candidates.
pub open spec fn is_typing(action: ClientAction) -> bool {
    action is AppendText || action is RemoveText || action is ShrinkText
}

/// The call that such a keystroke makes first.
pub open spec fn first_call(action: ClientAction, mode: InputMode, snapshot: EditView) -> EffectView {
    match action {
        ClientAction::AppendText(text) => EffectView::AppendText(keystrokes_of(mode, text@)),
        ClientAction::RemoveText(_) => EffectView::RemoveText(removed_kana(action)),
        _ => EffectView::ShrinkText(snapshot.surface_count, snapshot.confirmed()),
    }
}

/// A server that stalls costs one keystroke. Whatever is typed while something
/// is composed, a call that the server is lost to is followed by putting its
/// reading back, and once that succeeds the composition is what it was before
/// the keystroke, with nothing edited and no failure to report.
pub proof fn a_stall_costs_one_keystroke(
    snapshot: EditView,
    mode: InputMode,
    action: ClientAction,
    intent: CompositionState,
    told: Result<CandidatesView, Failure>,
    failure: Failure,
    cleared: CandidatesView,
    replayed: CandidatesView,
)
    requires
        is_typing(action),
        snapshot.state != CompositionState::Idle,
        snapshot.raw_input.len() > 0,
        intent != CompositionState::Idle,
        failure.is_unavailable(),
    ensures
        ({
            let batch = started(snapshot, mode, seq![action], intent);
            let replies = seq![told, Err(failure), Ok(cleared), Ok(replayed)];
            &&& asked(batch, replies) == seq![
                EffectView::UpdateContext(snapshot.preview + snapshot.suffix),
                first_call(action, mode, snapshot),
                EffectView::ClearText(None),
                EffectView::AppendText(keystrokes_of(mode, snapshot.raw_input)),
            ]
            &&& edits_nothing(asked(batch, replies))
            &&& run(batch, replies).phase == Phase::Finished
            &&& run(batch, replies).outcome is None
            &&& run(batch, replies).edit == snapshot
        }),
{
    let batch = started(snapshot, mode, seq![action], intent);
    starts_with_the_context(snapshot, mode, action, intent, told);
    let after_1 = batch.resumed(told);
    a_lost_call_turns_to_recovery(after_1, failure);
    let after_2 = after_1.resumed(Err(failure));
    let after_3 = after_2.resumed(Ok(cleared));
    let rest = seq![Err(failure), Ok(cleared), Ok(replayed)];
    three_replies(after_1, Err(failure), Ok(cleared), Ok(replayed));
    one_reply_more(batch, told, rest);
    assert(seq![told] + rest =~= seq![told, Err(failure), Ok(cleared), Ok(replayed)]);
    assert(asked(batch, seq![told] + rest) =~= seq![
        batch.effect()->0,
        after_1.effect()->0,
        after_2.effect()->0,
        after_3.effect()->0,
    ]);
}

/// A server that stays lost costs the composition: the call that finds it lost
/// again is the last one, the composition is ended and its candidates are put
/// away, and there is no failure to report.
pub proof fn a_server_that_stays_lost_costs_the_composition(
    snapshot: EditView,
    mode: InputMode,
    action: ClientAction,
    intent: CompositionState,
    told: Result<CandidatesView, Failure>,
    failure: Failure,
    uncleared: Failure,
    ended: Result<CandidatesView, Failure>,
    closed: Result<CandidatesView, Failure>,
)
    requires
        is_typing(action),
        snapshot.state != CompositionState::Idle,
        snapshot.raw_input.len() > 0,
        intent != CompositionState::Idle,
        failure.is_unavailable(),
    ensures
        ({
            let batch = started(snapshot, mode, seq![action], intent);
            let replies = seq![told, Err(failure), Err(uncleared), ended, closed];
            &&& asked(batch, replies) == seq![
                EffectView::UpdateContext(snapshot.preview + snapshot.suffix),
                first_call(action, mode, snapshot),
                EffectView::ClearText(None),
                EffectView::EndComposition,
                EffectView::CloseCandidates,
            ]
            &&& run(batch, replies).phase == Phase::Finished
            &&& run(batch, replies).outcome is None
            &&& run(batch, replies).edit == EditView::blank(CompositionState::Idle)
        }),
{
    let batch = started(snapshot, mode, seq![action], intent);
    starts_with_the_context(snapshot, mode, action, intent, told);
    let after_1 = batch.resumed(told);
    a_lost_call_turns_to_recovery(after_1, failure);
    let after_2 = after_1.resumed(Err(failure));
    let after_3 = after_2.resumed(Err(uncleared));
    let after_4 = after_3.resumed(ended);
    let last = seq![Err(uncleared), ended, closed];
    three_replies(after_2, Err(uncleared), ended, closed);
    one_reply_more(after_1, Err(failure), last);
    let rest = seq![Err(failure)] + last;
    one_reply_more(batch, told, rest);
    assert(seq![told] + rest =~= seq![told, Err(failure), Err(uncleared), ended, closed]);
    assert(asked(batch, seq![told] + rest) =~= seq![
        batch.effect()->0,
        after_1.effect()->0,
        after_2.effect()->0,
        after_3.effect()->0,
        after_4.effect()->0,
    ]);
}

proof fn settled_keeps_what_was_given(batch: BatchView)
    ensures
        batch.settled().actions == batch.actions,
        batch.settled().mode == batch.mode,
        batch.settled().intent == batch.intent,
        batch.settled().snapshot == batch.snapshot,
    decreases batch.actions.len() - batch.at,
{
    if batch.at < 0 || batch.at >= batch.actions.len() {
    } else if 0 <= batch.step < steps_of(batch.actions[batch.at]).len() {
    } else if batch.deferred is Some {
    } else {
        settled_keeps_what_was_given(
            BatchView { at: batch.at + 1, step: 0, entry: batch.edit, ..batch },
        );
    }
}

/// A batch that was just started holds what it was started with, and a working
/// copy that differs from the composition in nothing but the state to end in.
pub proof fn started_keeps_what_it_is_given(
    snapshot: EditView,
    mode: InputMode,
    actions: Seq<ClientAction>,
    intent: CompositionState,
)
    ensures
        ({
            let batch = started(snapshot, mode, actions, intent);
            &&& batch.actions == actions
            &&& batch.mode == mode
            &&& batch.intent == intent
            &&& batch.snapshot == snapshot
            &&& batch.edit == (EditView { state: intent, ..snapshot })
            &&& batch.outcome is None
        }),
{
    let edit = EditView { state: intent, ..snapshot };
    let fresh = BatchView {
        actions,
        mode,
        intent,
        snapshot,
        edit,
        entry: edit,
        at: 0,
        step: 0,
        deferred: None,
        phase: Phase::Running,
        outcome: None,
    };
    settled_keeps_what_was_given(fresh);
    settled_keeps_edit(fresh);
    settled_has_not_failed(fresh);
}

proof fn settled_has_not_failed(batch: BatchView)
    requires
        batch.deferred is None,
        batch.outcome is None,
    ensures
        batch.settled().outcome is None,
    decreases batch.actions.len() - batch.at,
{
    if batch.at < 0 || batch.at >= batch.actions.len() {
    } else if 0 <= batch.step < steps_of(batch.actions[batch.at]).len() {
    } else {
        settled_has_not_failed(BatchView { at: batch.at + 1, step: 0, entry: batch.edit, ..batch });
    }
}

/// A step without which the action makes no sense stops the batch where it is
/// refused: nothing more is asked for, the refusal is reported, and the working
/// copy stays as the step found it.
pub proof fn a_refusal_stops_the_batch(batch: BatchView, refused: Failure)
    requires
        batch.wf(),
        batch.phase == Phase::Running,
        batch.current() == Step::StartComposition || batch.current() == Step::Append
            || batch.current() == Step::Remove || batch.current() == Step::Render
            || batch.current() == Step::EndForMode || batch.current() == Step::Shrink
            || batch.current() == Step::AppendRest || batch.current() == Step::ShiftStart
            || batch.current() == Step::ShowForm,
        !refused.is_unavailable(),
    ensures
        batch.resumed(Err(refused)).effect() is None,
        batch.resumed(Err(refused)).outcome == Some(refused),
        batch.resumed(Err(refused)).edit == batch.edit,
{
    reveal(BatchView::stepped);
}

/// A mode is not applied where the host does not end the composition, and the
/// rest of the switch is left out.
pub proof fn a_mode_waits_for_the_composition_to_end(
    snapshot: EditView,
    mode: InputMode,
    switched: InputMode,
    intent: CompositionState,
    noted: Result<CandidatesView, Failure>,
    opened: CandidatesView,
    placed: Result<CandidatesView, Failure>,
    refused: Failure,
)
    requires
        !refused.is_unavailable(),
    ensures
        ({
            let batch = started(snapshot, mode, seq![ClientAction::SetIMEMode(switched)], intent);
            let ending = batch.resumed(noted).resumed(Ok(opened)).resumed(placed);
            &&& ending.effect() == Some(EffectView::EndComposition)
            &&& ending.resumed(Err(refused)).effect() is None
            &&& ending.resumed(Err(refused)).outcome == Some(refused)
            &&& ending.resumed(Err(refused)).edit == (EditView { state: intent, ..snapshot })
        }),
{
    let action = ClientAction::SetIMEMode(switched);
    let batch = started(snapshot, mode, seq![action], intent);
    starts_at_once(snapshot, mode, action, intent);
    an_inner_step(batch, noted);
    let after_1 = batch.resumed(noted);
    an_answered_step(after_1, opened);
    let after_2 = after_1.resumed(Ok(opened));
    an_inner_step(after_2, placed);
    a_refusal_stops_the_batch(after_2.resumed(placed), refused);
}

/// A removal of more kana than the call can say asks for as many as it can.
pub proof fn a_removal_asks_for_no_negative_count(count: u32)
    ensures
        count <= i32::MAX ==> removed_kana(ClientAction::RemoveText(count)) == count,
        count > i32::MAX ==> removed_kana(ClientAction::RemoveText(count)) == i32::MAX,
{
}

} // verus!

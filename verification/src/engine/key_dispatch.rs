//! From key events to batches of actions.

use vstd::prelude::*;

use super::actions::Batch;
#[allow(unused_imports)]
use super::actions::{started, BatchView};
#[allow(unused_imports)]
use super::batch_laws::started_keeps_what_it_is_given;
#[allow(unused_imports)]
use super::client_action::{actions_view, ActionView};
use super::client_action::ClientAction;
use super::composition::CompositionState;
#[allow(unused_imports)]
use super::input_mode::InputMode;
#[allow(unused_imports)]
use super::transition::{agrees, shortcut_table, table};
use super::transition::{is_modifier_key, shortcut_transition, transition, KeystrokeContext};
#[allow(unused_imports)]
use super::user_action::{fixed_meaning, repeat_of, Meaning};
use super::user_action::{is_ime_toggle_key, key_repeat, KeyRepeat, UserAction};
use crate::failure::Failure;
#[allow(unused_imports)]
use crate::globals::{switches_mode, VK_MENU, VK_SHIFT};
use crate::globals::VK_BACK;
#[allow(unused_imports)]
use crate::tsf::preserved_key::is_duplicate_at;
use crate::tsf::text_service::TextService;

verus! {

/// A key event, with what the system says at its time.
#[derive(Debug, Clone, Copy)]
pub struct KeyEvent {
    pub key_code: usize,
    pub lparam: isize,
    /// Whether there is a document to compose in.
    pub has_context: bool,
    /// Whether the host has switched input off there, as for a password.
    pub input_disabled: bool,
    pub shift: bool,
    pub control: bool,
    pub alt: bool,
    /// The time, in milliseconds.
    pub now: u64,
}

/// What a key event comes to.
pub enum Decision {
    /// The host is to have the key.
    PassOn,
    /// The key is taken; the actions lead to the state.
    Take(CompositionState, Seq<ActionView>),
    /// What the key types could not be found out.
    Unreadable(Failure),
}

/// The decision that an entry of a table amounts to.
pub open spec fn decided(entry: Option<(CompositionState, Seq<ActionView>)>) -> Decision {
    match entry {
        Some((state, actions)) => Decision::Take(state, actions),
        None => Decision::PassOn,
    }
}

/// The meaning of a key event, where it is not the layout that fails.
pub open spec fn meaning_of(event: KeyEvent, typed: Option<Seq<char>>) -> Meaning {
    match fixed_meaning(event.key_code as int, repeat_of(event.lparam as u32), event.shift) {
        Some(meaning) => meaning,
        None => match typed {
            Some(text) => Meaning::Input(text),
            None => Meaning::Unknown,
        },
    }
}

impl<H> TextService<H> {
    /// What the table reads of this service.
    pub open spec fn context_view(&self) -> KeystrokeContext {
        KeystrokeContext {
            state: self.composition.spec_state(),
            mode: self.input_mode,
            reading_chars: self.composition.raw_hiragana@.len() as usize,
            suffix_is_empty: self.composition.suffix@.len() == 0,
        }
    }

    /// Whether a key is what is left of a Backspace that has already ended the
    /// composition.
    pub open spec fn discards(&self, event: KeyEvent) -> bool {
        event.key_code == VK_BACK && repeat_of(event.lparam as u32).is_repeat
            && self.discard_backspace_repeat && self.composition.spec_state()
            == CompositionState::Idle
    }

    /// Whether what becomes of a key event goes by the text that the key
    /// types: not where the key is the host's, switches the mode, is part of a
    /// chord, is what is left of a Backspace, or has a meaning of its own.
    pub open spec fn goes_by_text(&self, event: KeyEvent) -> bool {
        &&& event.has_context
        &&& !event.input_disabled
        &&& !switches_mode(event.key_code as int)
        &&& !event.control
        &&& !event.alt
        &&& !self.discards(event)
        &&& fixed_meaning(
            event.key_code as int,
            repeat_of(event.lparam as u32),
            event.shift,
        ) is None
    }

    /// What becomes of a key event. In this order: without a document, or where
    /// input is switched off, it is the host's; a key that switches the mode
    /// does so, unless it is a second delivery of one press; a chord goes by
    /// its own table; what is left of a Backspace is taken and does nothing;
    /// and any other key goes by its meaning.
    pub open spec fn decision(
        &self,
        event: KeyEvent,
        typed: Result<Option<String>, Failure>,
    ) -> Decision {
        if !event.has_context || event.input_disabled {
            Decision::PassOn
        } else if switches_mode(event.key_code as int) {
            if is_duplicate_at(self.last_mode_toggle, event.now) {
                Decision::PassOn
            } else {
                decided(table(self.context_view(), Meaning::ToggleInputMode))
            }
        } else if event.control || event.alt {
            decided(
                shortcut_table(
                    self.composition.spec_state(),
                    VK_SHIFT <= event.key_code <= VK_MENU || 0xA0 <= event.key_code <= 0xA5,
                ),
            )
        } else if self.discards(event) {
            Decision::Take(CompositionState::Idle, Seq::empty())
        } else {
            match typed {
                Ok(text) => decided(
                    table(
                        self.context_view(),
                        meaning_of(
                            event,
                            match text {
                                Some(text) => Some(text@),
                                None => None,
                            },
                        ),
                    ),
                ),
                Err(failure) => match fixed_meaning(
                    event.key_code as int,
                    repeat_of(event.lparam as u32),
                    event.shift,
                ) {
                    Some(meaning) => decided(table(self.context_view(), meaning)),
                    None => Decision::Unreadable(failure),
                },
            }
        }
    }
}

/// Whether an answer is the one that was decided.
pub open spec fn answers(
    answer: Result<Option<(Vec<ClientAction>, CompositionState)>, Failure>,
    decision: Decision,
) -> bool {
    match answer {
        Ok(Some((actions, state))) => decision == Decision::Take(state, actions_view(actions@)),
        Ok(None) => decision == Decision::PassOn,
        Err(failure) => decision == Decision::Unreadable(failure),
    }
}

fn as_answer(entry: Option<(CompositionState, Vec<ClientAction>)>) -> (answer: Option<
    (Vec<ClientAction>, CompositionState),
>)
    ensures
        match entry {
            Some((state, actions)) => answer == Some((actions, state)),
            None => answer is None,
        },
{
    match entry {
        Some((state, actions)) => Some((actions, state)),
        None => None,
    }
}

/// Whether the guard against the rest of a Backspace is set after a key: a
/// Backspace that ended the composition sets it, one that is merely held
/// leaves it, and any other key, or a fresh press, clears it.
pub open spec fn guard_after(
    guard: bool,
    key_code: usize,
    repeat: KeyRepeat,
    actions: Seq<ActionView>,
) -> bool {
    if key_code == VK_BACK && (exists|i: int|
        0 <= i < actions.len() && #[trigger] actions[i] == ActionView::EndComposition) {
        true
    } else if key_code == VK_BACK && repeat.is_repeat {
        guard
    } else {
        false
    }
}

fn ends_composition(actions: &[ClientAction]) -> (ends: bool)
    ensures
        ends == exists|i: int|
            0 <= i < actions@.len() && #[trigger] actions_view(actions@)[i]
                == ActionView::EndComposition,
{
    let mut i: usize = 0;
    while i < actions.len()
        invariant
            i <= actions.len(),
            forall|j: int|
                0 <= j < i ==> #[trigger] actions_view(actions@)[j] != ActionView::EndComposition,
        decreases actions.len() - i,
    {
        if let ClientAction::EndComposition = &actions[i] {
            assert(actions_view(actions@)[i as int] == ActionView::EndComposition);
            return true;
        }
        assert(actions_view(actions@)[i as int] == actions@[i as int]@);
        i += 1;
    }
    false
}

impl<H> TextService<H> {
    /// What the table reads of this service.
    pub fn keystroke_context(&self) -> (ctx: KeystrokeContext)
        ensures
            ctx == self.context_view(),
    {
        let reading: usize = self.composition.raw_hiragana.as_str().unicode_len();
        let suffix: usize = self.composition.suffix.as_str().unicode_len();
        KeystrokeContext {
            state: self.composition.state(),
            mode: self.input_mode,
            reading_chars: reading,
            suffix_is_empty: suffix == 0,
        }
    }

    fn backspace_repeat_is_discarded(&self, event: &KeyEvent) -> (discarded: bool)
        ensures
            discarded == self.discards(*event),
    {
        event.key_code == VK_BACK && key_repeat(event.lparam).is_repeat
            && self.discard_backspace_repeat && self.composition.state() == CompositionState::Idle
    }

    /// Whether the keyboard layout has to be asked what the key types. Where it
    /// has not, nothing depends on its answer.
    pub fn asks_layout(&self, event: &KeyEvent) -> (asks: bool)
        ensures
            asks == self.goes_by_text(*event),
    {
        event.has_context && !event.input_disabled && !is_ime_toggle_key(event.key_code)
            && !event.control && !event.alt && !self.backspace_repeat_is_discarded(event)
            && UserAction::of_key(
            event.key_code,
            key_repeat(event.lparam),
            event.shift,
        ).is_none()
    }

    /// What becomes of a key event: the actions to run and the state that they
    /// lead to, or `None` where the host is to have the key. Nothing is
    /// changed by asking. `typed` is what the keyboard layout says that the
    /// key types.
    pub fn process_key(
        &self,
        event: &KeyEvent,
        typed: Result<Option<String>, Failure>,
    ) -> (answer: Result<Option<(Vec<ClientAction>, CompositionState)>, Failure>)
        ensures
            answers(answer, self.decision(*event, typed)),
    {
        if !event.has_context {
            return Ok(None);
        }
        if event.input_disabled {
            return Ok(None);
        }
        if is_ime_toggle_key(event.key_code) {
            if self.raw_toggle_is_duplicate(event.now) {
                return Ok(None);
            }
            let ctx = self.keystroke_context();
            return Ok(as_answer(transition(&ctx, UserAction::ToggleInputMode)));
        }
        if event.control || event.alt {
            return Ok(
                as_answer(
                    shortcut_transition(self.composition.state(), is_modifier_key(event.key_code)),
                ),
            );
        }
        if self.backspace_repeat_is_discarded(event) {
            let actions: Vec<ClientAction> = Vec::new();
            assert(actions_view(actions@) =~= Seq::<ActionView>::empty());
            return Ok(Some((actions, CompositionState::Idle)));
        }
        let ctx = self.keystroke_context();
        match UserAction::decode(event.key_code, key_repeat(event.lparam), event.shift, typed) {
            Ok(action) => Ok(as_answer(transition(&ctx, action))),
            Err(failure) => Err(failure),
        }
    }

    /// Sets or clears the guard against the rest of a Backspace, for a key
    /// that was dealt with.
    pub fn note_key_handled(&mut self, key_code: usize, repeat: KeyRepeat, actions: &[ClientAction])
        ensures
            *final(self) == (TextService {
                discard_backspace_repeat: guard_after(
                    old(self).discard_backspace_repeat,
                    key_code,
                    repeat,
                    actions_view(actions@),
                ),
                ..*old(self)
            }),
    {
        let is_backspace = key_code == VK_BACK;
        let ended = ends_composition(actions);
        if is_backspace && ended {
            self.discard_backspace_repeat = true;
        } else if is_backspace && repeat.is_repeat {
        } else {
            self.discard_backspace_repeat = false;
        }
    }

    /// Clears the guard when Backspace is let go.
    pub fn note_key_up(&mut self, key_code: usize)
        ensures
            *final(self) == (TextService {
                discard_backspace_repeat: old(self).discard_backspace_repeat && key_code != VK_BACK,
                ..*old(self)
            }),
    {
        if key_code == VK_BACK {
            self.discard_backspace_repeat = false;
        }
    }

    /// Sets out to run a batch of actions that leads to `transition`.
    pub fn handle_action(&self, actions: Vec<ClientAction>, transition: CompositionState) -> (batch:
        Batch)
        ensures
            batch.wf(),
            batch@ == started(
                self.composition.edit_view(self.composition.spec_state()),
                self.input_mode,
                actions@,
                transition,
            ),
    {
        Batch::begin(&self.composition, self.input_mode, actions, transition)
    }

    /// Switches the mode from elsewhere than a key event, as the same key
    /// would: what is composed is ended the same way.
    pub fn toggle_input_mode(&self) -> (batch: Option<Batch>)
        ensures
            match batch {
                Some(batch) => batch.wf() && starts(*self, batch@, decided(
                    table(self.context_view(), Meaning::ToggleInputMode),
                )),
                None => table(self.context_view(), Meaning::ToggleInputMode) is None,
            },
    {
        let ctx = self.keystroke_context();
        match transition(&ctx, UserAction::ToggleInputMode) {
            Some((next, actions)) => Some(self.handle_action(actions, next)),
            None => None,
        }
    }

    /// Whether a key will be taken. Nothing is changed by asking, so a host
    /// may ask without ever delivering the key.
    pub fn test_key(&self, event: &KeyEvent, typed: Result<Option<String>, Failure>) -> (taken:
        Result<bool, Failure>)
        ensures
            match self.decision(*event, typed) {
                Decision::Take(_, _) => taken == Ok::<bool, Failure>(true),
                Decision::PassOn => taken == Ok::<bool, Failure>(false),
                Decision::Unreadable(failure) => taken == Err::<bool, Failure>(failure),
            },
    {
        match self.process_key(event, typed) {
            Ok(Some(_)) => Ok(true),
            Ok(None) => Ok(false),
            Err(failure) => Err(failure),
        }
    }

    /// Deals with a key that is delivered: the batch to run, or `None` where
    /// the host is to have the key. The guard against the rest of a Backspace
    /// follows what the key meant, whatever comes of the batch.
    pub fn handle_key(&mut self, event: &KeyEvent, typed: Result<Option<String>, Failure>) -> (batch:
        Result<Option<Batch>, Failure>)
        ensures
            match old(self).decision(*event, typed) {
                Decision::Take(state, actions) => {
                    &&& batch matches Ok(Some(batch)) && batch.wf() && starts(
                        *old(self),
                        batch@,
                        old(self).decision(*event, typed),
                    )
                    &&& *final(self) == (TextService {
                        discard_backspace_repeat: guard_after(
                            old(self).discard_backspace_repeat,
                            event.key_code,
                            repeat_of(event.lparam as u32),
                            actions,
                        ),
                        ..*old(self)
                    })
                },
                Decision::PassOn => {
                    &&& batch matches Ok(None)
                    &&& *final(self) == if event.has_context {
                        TextService {
                            discard_backspace_repeat: guard_after(
                                old(self).discard_backspace_repeat,
                                event.key_code,
                                repeat_of(event.lparam as u32),
                                Seq::empty(),
                            ),
                            ..*old(self)
                        }
                    } else {
                        *old(self)
                    }
                },
                Decision::Unreadable(failure) => {
                    &&& batch == Err::<Option<Batch>, Failure>(failure)
                    &&& *final(self) == *old(self)
                },
            },
    {
        if !event.has_context {
            return Ok(None);
        }
        match self.process_key(event, typed) {
            Ok(Some((actions, next))) => {
                self.note_key_handled(event.key_code, key_repeat(event.lparam), &actions);
                Ok(Some(self.handle_action(actions, next)))
            },
            Ok(None) => {
                let nothing: Vec<ClientAction> = Vec::new();
                assert(actions_view(nothing@) =~= Seq::<ActionView>::empty());
                self.note_key_handled(event.key_code, key_repeat(event.lparam), &nothing);
                Ok(None)
            },
            Err(failure) => Err(failure),
        }
    }
}

/// Whether a batch is the one that a decision asks for.
pub open spec fn starts<H>(service: TextService<H>, batch: BatchView, decision: Decision) -> bool {
    exists|actions: Seq<ClientAction>, state: CompositionState|
        decision == Decision::Take(state, actions_view(actions)) && batch == #[trigger] started(
            service.composition.edit_view(service.composition.spec_state()),
            service.input_mode,
            actions,
            state,
        )
}

/// Once a Backspace has ended the composition, what is left of the same press
/// is taken without a trace: it does nothing, and neither it nor the question
/// whether it will be taken changes the guard.
pub proof fn the_rest_of_a_backspace_is_taken<H>(
    service: TextService<H>,
    event: KeyEvent,
    typed: Result<Option<String>, Failure>,
)
    requires
        service.discard_backspace_repeat,
        service.composition.spec_state() == CompositionState::Idle,
        event.has_context,
        !event.input_disabled,
        !event.control,
        !event.alt,
        event.key_code == VK_BACK,
        repeat_of(event.lparam as u32).is_repeat,
    ensures
        service.decision(event, typed) == Decision::Take(CompositionState::Idle, Seq::empty()),
        guard_after(true, event.key_code, repeat_of(event.lparam as u32), Seq::empty()),
{
}

/// With nothing composed, a fresh press of Backspace is the host's, and with
/// it the guard is gone.
pub proof fn a_fresh_backspace_is_the_hosts<H>(
    service: TextService<H>,
    event: KeyEvent,
    typed: Result<Option<String>, Failure>,
)
    requires
        service.composition.spec_state() == CompositionState::Idle,
        event.key_code == VK_BACK,
        !repeat_of(event.lparam as u32).is_repeat,
    ensures
        service.decision(event, typed) == Decision::PassOn,
        !guard_after(
            service.discard_backspace_repeat,
            event.key_code,
            repeat_of(event.lparam as u32),
            Seq::empty(),
        ),
{
}

/// Any key but Backspace clears the guard.
pub proof fn another_key_clears_the_guard(
    guard: bool,
    key_code: usize,
    repeat: KeyRepeat,
    actions: Seq<ActionView>,
)
    requires
        key_code != VK_BACK,
    ensures
        !guard_after(guard, key_code, repeat, actions),
{
}

/// What a key types, or that it cannot be found out, changes nothing where the
/// layout does not have to be asked.
pub proof fn only_a_key_that_goes_by_text_depends_on_it<H>(
    service: TextService<H>,
    event: KeyEvent,
    typed: Result<Option<String>, Failure>,
    other: Result<Option<String>, Failure>,
)
    requires
        !service.goes_by_text(event),
    ensures
        service.decision(event, typed) == service.decision(event, other),
{
}

/// Where the host has switched input off, every key is the host's.
pub proof fn nothing_is_taken_where_input_is_off<H>(
    service: TextService<H>,
    event: KeyEvent,
    typed: Result<Option<String>, Failure>,
)
    requires
        !event.has_context || event.input_disabled,
    ensures
        service.decision(event, typed) == Decision::PassOn,
{
}

/// One press that is delivered twice switches the mode once: the second
/// delivery, so soon after the switch, is passed on.
pub proof fn a_second_delivery_does_not_switch<H>(
    service: TextService<H>,
    event: KeyEvent,
    typed: Result<Option<String>, Failure>,
    switched: u64,
)
    requires
        service.last_mode_toggle == Some(switched),
        switches_mode(event.key_code as int),
        switched <= event.now < switched + 50,
    ensures
        service.decision(event, typed) == Decision::PassOn,
{
}

/// A key that switches the mode does so even with Alt held: the chord is not
/// the host's.
pub proof fn the_mode_key_outranks_a_chord<H>(
    service: TextService<H>,
    event: KeyEvent,
    typed: Result<Option<String>, Failure>,
)
    requires
        event.has_context,
        !event.input_disabled,
        switches_mode(event.key_code as int),
        service.last_mode_toggle is None,
    ensures
        service.decision(event, typed) == decided(
            table(service.context_view(), Meaning::ToggleInputMode),
        ),
        service.decision(event, typed) is Take,
{
}

/// The batch that a decision asks for runs the decided actions on the composition
/// as it stands, in the mode that is current, and is to end in the decided
/// state.
pub proof fn a_batch_runs_what_was_decided<H>(
    service: TextService<H>,
    batch: BatchView,
    state: CompositionState,
    actions: Seq<ActionView>,
)
    requires
        starts(service, batch, Decision::Take(state, actions)),
    ensures
        actions_view(batch.actions) == actions,
        batch.intent == state,
        batch.mode == service.input_mode,
        batch.snapshot.state == service.composition.spec_state(),
        batch.snapshot.raw_input == service.composition.raw_input@,
        batch.snapshot.raw_hiragana == service.composition.raw_hiragana@,
        batch.snapshot.preview == service.composition.preview@,
        batch.snapshot.suffix == service.composition.suffix@,
        batch.snapshot.corresponding_count == service.composition.corresponding_count,
        batch.snapshot.surface_count == service.composition.surface_count,
        batch.snapshot.candidates == service.composition.candidates@,
        batch.snapshot.selection_index == service.composition.selection_index,
{
    let (run, next): (Seq<ClientAction>, CompositionState) = choose|
        run: Seq<ClientAction>,
        next: CompositionState,
    |
        Decision::Take(state, actions) == Decision::Take(next, actions_view(run)) && batch
            == #[trigger] started(
            service.composition.edit_view(service.composition.spec_state()),
            service.input_mode,
            run,
            next,
        );
    started_keeps_what_it_is_given(
        service.composition.edit_view(service.composition.spec_state()),
        service.input_mode,
        run,
        next,
    );
}

/// An answer holds the decided actions and the decided state, and a batch that a
/// decision has no part in is not answered.
pub proof fn an_answer_holds_what_was_decided(
    actions: Vec<ClientAction>,
    state: CompositionState,
    decision: Decision,
    failure: Failure,
)
    ensures
        answers(Ok(Some((actions, state))), decision) <==> decision == Decision::Take(
            state,
            actions_view(actions@),
        ),
        answers(Ok(None), decision) <==> decision == Decision::PassOn,
        answers(Err(failure), decision) <==> decision == Decision::Unreadable(failure),
        agrees(Some((state, actions)), Some((state, actions_view(actions@)))),
        !agrees(Some((state, actions)), None),
        agrees(None, None),
        !agrees(None, Some((state, actions_view(actions@)))),
{
}

} // verus!

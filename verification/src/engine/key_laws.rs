//! What each key comes to, from the key itself to the actions.

use vstd::prelude::*;

#[allow(unused_imports)]
use super::client_action::{ActionView, SetSelectionType, SetTextType};
#[allow(unused_imports)]
use super::composition::CompositionState;
#[allow(unused_imports)]
use super::input_mode::InputMode;
#[allow(unused_imports)]
use super::key_dispatch::{guard_after, Decision, KeyEvent};
#[allow(unused_imports)]
use super::transition::{shortcut_table, table, KeystrokeContext};
#[allow(unused_imports)]
use super::user_action::{fixed_meaning, repeat_of, KeyRepeat, Meaning, Navigation};
#[allow(unused_imports)]
use crate::failure::Failure;
#[allow(unused_imports)]
use crate::globals::{
    VK_0, VK_BACK, VK_DBE_DBCSCHAR, VK_DBE_SBCSCHAR, VK_DELETE, VK_DOWN, VK_END, VK_ESCAPE, VK_F10,
    VK_F6, VK_F7, VK_F8, VK_F9, VK_HOME, VK_INSERT, VK_KANJI, VK_LEFT, VK_NEXT, VK_NUMPAD0,
    VK_PRIOR, VK_RETURN, VK_RIGHT, VK_SPACE, VK_TAB, VK_UP,
};
#[allow(unused_imports)]
use crate::strings::{a_digit_is_written_as_itself, signed_decimal};
#[allow(unused_imports)]
use crate::tsf::text_service::TextService;

verus! {

/// Every key that has a name has the meaning of that name, with Shift or
/// without; only Backspace says how often it was pressed.
pub proof fn a_named_key_has_the_meaning_of_its_name(repeat: KeyRepeat, shift: bool)
    ensures
        fixed_meaning(VK_BACK as int, repeat, shift) == Some(Meaning::Backspace(repeat.count)),
        fixed_meaning(VK_TAB as int, repeat, shift) == Some(Meaning::Tab),
        fixed_meaning(VK_RETURN as int, repeat, shift) == Some(Meaning::Enter),
        fixed_meaning(VK_ESCAPE as int, repeat, shift) == Some(Meaning::Escape),
        fixed_meaning(VK_SPACE as int, repeat, shift) == Some(Meaning::Space),
        fixed_meaning(VK_LEFT as int, repeat, shift) == Some(
            Meaning::Navigation(Navigation::Left),
        ),
        fixed_meaning(VK_UP as int, repeat, shift) == Some(Meaning::Navigation(Navigation::Up)),
        fixed_meaning(VK_RIGHT as int, repeat, shift) == Some(
            Meaning::Navigation(Navigation::Right),
        ),
        fixed_meaning(VK_DOWN as int, repeat, shift) == Some(
            Meaning::Navigation(Navigation::Down),
        ),
        fixed_meaning(VK_F6 as int, repeat, shift) == Some(
            Meaning::Function(SetTextType::Hiragana),
        ),
        fixed_meaning(VK_F7 as int, repeat, shift) == Some(
            Meaning::Function(SetTextType::Katakana),
        ),
        fixed_meaning(VK_F8 as int, repeat, shift) == Some(
            Meaning::Function(SetTextType::HalfKatakana),
        ),
        fixed_meaning(VK_F9 as int, repeat, shift) == Some(
            Meaning::Function(SetTextType::FullLatin),
        ),
        fixed_meaning(VK_F10 as int, repeat, shift) == Some(
            Meaning::Function(SetTextType::HalfLatin),
        ),
        fixed_meaning(VK_PRIOR as int, repeat, shift) == Some(Meaning::EditingKey),
        fixed_meaning(VK_NEXT as int, repeat, shift) == Some(Meaning::EditingKey),
        fixed_meaning(VK_END as int, repeat, shift) == Some(Meaning::EditingKey),
        fixed_meaning(VK_HOME as int, repeat, shift) == Some(Meaning::EditingKey),
        fixed_meaning(VK_INSERT as int, repeat, shift) == Some(Meaning::EditingKey),
        fixed_meaning(VK_DELETE as int, repeat, shift) == Some(Meaning::EditingKey),
        fixed_meaning(VK_KANJI as int, repeat, shift) == Some(Meaning::ToggleInputMode),
        fixed_meaning(VK_DBE_SBCSCHAR as int, repeat, shift) == Some(Meaning::ToggleInputMode),
        fixed_meaning(VK_DBE_DBCSCHAR as int, repeat, shift) == Some(Meaning::ToggleInputMode),
{
}

/// The digit keys, of the main block and of the keypad, mean their digits; with
/// Shift they mean what they type.
pub proof fn a_digit_key_means_its_digit(digit: int, repeat: KeyRepeat)
    requires
        0 <= digit <= 9,
    ensures
        fixed_meaning(VK_0 + digit, repeat, false) == Some(Meaning::Number(digit as i8)),
        fixed_meaning(VK_NUMPAD0 + digit, repeat, false) == Some(Meaning::Number(digit as i8)),
        fixed_meaning(VK_0 + digit, repeat, true) is None,
        fixed_meaning(VK_NUMPAD0 + digit, repeat, true) is None,
{
}

/// The keys of the letters and of the signs mean what they type.
pub proof fn other_keys_mean_what_they_type(key_code: int, repeat: KeyRepeat, shift: bool)
    requires
        0x41 <= key_code <= 0x5A || 0x6A <= key_code <= 0x6F || 0xBA <= key_code <= 0xDF || key_code
            == 0xE2,
    ensures
        fixed_meaning(key_code, repeat, shift) is None,
{
}

/// The low half of a key message's parameter is how often the key was pressed,
/// once where it says zero; one bit says whether the key was down already, and
/// no other bit matters.
pub proof fn a_message_says_how_a_key_is_held(presses: u32, scan: u32, held: bool, released: bool)
    requires
        presses < 0x10000,
        scan < 0x4000,
    ensures
        ({
            let word = presses + scan * 0x10000 + (if held {
                0x4000_0000int
            } else {
                0
            }) + (if released {
                0x8000_0000int
            } else {
                0
            });
            &&& repeat_of(word as u32).is_repeat == held
            &&& presses > 0 ==> repeat_of(word as u32).count == presses
            &&& presses == 0 ==> repeat_of(word as u32).count == 1
        }),
{
    let word = presses + scan * 0x10000 + (if held {
        0x4000_0000int
    } else {
        0
    }) + (if released {
        0x8000_0000int
    } else {
        0
    });
    assert(word % 0x10000 == presses);
    assert(word / 0x4000_0000 == (if held {
        1int
    } else {
        0
    }) + (if released {
        2int
    } else {
        0
    }));
}

/// A key that types text types it into what is composed. While the reading is
/// typed the text is appended and nothing else is done; while a candidate is
/// being chosen the candidate is committed with it and nothing else is done;
/// with nothing composed a composition is opened first in kana input, and the
/// host has the key in direct input.
pub proof fn text_is_typed_or_commits_and_types(ctx: KeystrokeContext, text: Seq<char>)
    ensures
        ctx.state == CompositionState::Composing ==> table(ctx, Meaning::Input(text)) == Some(
            (CompositionState::Composing, seq![ActionView::AppendText(text)]),
        ),
        ctx.state == CompositionState::Previewing ==> table(ctx, Meaning::Input(text)) == Some(
            (CompositionState::Composing, seq![ActionView::ShrinkText(text)]),
        ),
        ctx.state == CompositionState::Idle && ctx.mode == InputMode::Kana ==> table(
            ctx,
            Meaning::Input(text),
        ) == Some(
            (
                CompositionState::Composing,
                seq![ActionView::StartComposition, ActionView::AppendText(text)],
            ),
        ),
        ctx.state == CompositionState::Idle && ctx.mode == InputMode::Latin ==> table(
            ctx,
            Meaning::Input(text),
        ) is None,
{
}

/// A digit does exactly what a key does that types the digit, in every state and
/// mode.
pub proof fn a_digit_is_typed_like_a_character(ctx: KeystrokeContext, digit: i8)
    requires
        0 <= digit <= 9,
    ensures
        table(ctx, Meaning::Number(digit)) == table(
            ctx,
            Meaning::Input(seq![(0x30 + digit) as char]),
        ),
{
    a_digit_is_written_as_itself(digit as nat);
}

/// Space, Tab and the arrow down do the same in every state and mode, and the
/// arrow up does what they do in the other direction.
pub proof fn choosing_keys_move_the_selection(ctx: KeystrokeContext)
    ensures
        table(ctx, Meaning::Space) == table(ctx, Meaning::Navigation(Navigation::Down)),
        table(ctx, Meaning::Tab) == table(ctx, Meaning::Navigation(Navigation::Down)),
        ctx.state != CompositionState::Idle ==> table(ctx, Meaning::Space) == Some(
            (
                CompositionState::Previewing,
                seq![ActionView::SetSelection(SetSelectionType::Down)],
            ),
        ),
        ctx.state != CompositionState::Idle ==> table(ctx, Meaning::Navigation(Navigation::Up))
            == Some(
            (CompositionState::Previewing, seq![ActionView::SetSelection(SetSelectionType::Up)]),
        ),
{
}

/// Enter commits. Where the candidate covers the whole reading the composition
/// ends with it; otherwise the rest goes on being composed, as if nothing had
/// been typed on.
pub proof fn enter_commits_and_never_cancels(ctx: KeystrokeContext)
    requires
        ctx.state != CompositionState::Idle,
    ensures
        ctx.suffix_is_empty ==> table(ctx, Meaning::Enter) == Some(
            (CompositionState::Idle, seq![ActionView::EndComposition]),
        ),
        !ctx.suffix_is_empty ==> table(ctx, Meaning::Enter) == table(
            KeystrokeContext { state: CompositionState::Previewing, ..ctx },
            Meaning::Input(Seq::empty()),
        ),
{
}

/// Escape discards what is composed, whatever it is, and does nothing else.
pub proof fn escape_cancels(ctx: KeystrokeContext)
    requires
        ctx.state != CompositionState::Idle,
    ensures
        table(ctx, Meaning::Escape) == Some(
            (CompositionState::Idle, seq![ActionView::CancelComposition]),
        ),
{
}

/// Backspace removes as many kana as it was pressed for, and ends the
/// composition after that where none are left.
pub proof fn backspace_removes_what_it_was_pressed_for(ctx: KeystrokeContext, count: u32)
    requires
        ctx.state != CompositionState::Idle,
    ensures
        ctx.reading_chars > count ==> table(ctx, Meaning::Backspace(count)) == Some(
            (CompositionState::Composing, seq![ActionView::RemoveText(count)]),
        ),
        ctx.reading_chars <= count ==> table(ctx, Meaning::Backspace(count)) == Some(
            (
                CompositionState::Idle,
                seq![ActionView::RemoveText(count), ActionView::EndComposition],
            ),
        ),
{
}

/// A function key rewrites the reading in the form that is asked for, to be
/// chosen like a candidate.
pub proof fn a_function_key_asks_for_its_form(ctx: KeystrokeContext, form: SetTextType)
    requires
        ctx.state != CompositionState::Idle,
    ensures
        table(ctx, Meaning::Function(form)) == Some(
            (CompositionState::Previewing, seq![ActionView::SetTextWithType(form)]),
        ),
{
}

/// The arrows to the sides move the cursor one kana to their side, a key by
/// which the host edits does nothing and leaves the state, and the key that
/// switches the mode commits and goes to direct input.
pub proof fn the_other_keys_while_composing(ctx: KeystrokeContext)
    requires
        ctx.state != CompositionState::Idle,
    ensures
        table(ctx, Meaning::Navigation(Navigation::Left)) == Some(
            (CompositionState::Composing, seq![ActionView::MoveCursor(-1i32)]),
        ),
        table(ctx, Meaning::Navigation(Navigation::Right)) == Some(
            (CompositionState::Composing, seq![ActionView::MoveCursor(1i32)]),
        ),
        table(ctx, Meaning::EditingKey) == Some((ctx.state, Seq::<ActionView>::empty())),
        table(ctx, Meaning::ToggleInputMode) == Some(
            (
                CompositionState::Idle,
                seq![ActionView::EndComposition, ActionView::SetIMEMode(InputMode::Latin)],
            ),
        ),
        table(ctx, Meaning::Unknown) is None,
{
}

/// With nothing composed the host has every key that types no text and does not
/// switch the mode.
pub proof fn with_nothing_composed_the_host_has_the_keys(ctx: KeystrokeContext, key: Meaning)
    requires
        ctx.state == CompositionState::Idle,
        !(key is Input) && !(key is Number) && key != Meaning::ToggleInputMode,
    ensures
        table(ctx, key) is None,
{
}

/// While something is composed the mode does not matter to what a key does.
pub proof fn the_mode_does_not_matter_while_composing(ctx: KeystrokeContext, key: Meaning)
    requires
        ctx.state != CompositionState::Idle,
    ensures
        table(ctx, key) == table(KeystrokeContext { mode: ctx.mode.flipped(), ..ctx }, key),
{
}

/// Only what types text depends on whether a candidate is being chosen, and a key
/// that does nothing stays where it is.
pub proof fn choosing_matters_only_to_text(ctx: KeystrokeContext, key: Meaning)
    requires
        ctx.state != CompositionState::Idle,
        !(key is Input) && !(key is Number) && key != Meaning::EditingKey,
    ensures
        table(KeystrokeContext { state: CompositionState::Composing, ..ctx }, key) == table(
            KeystrokeContext { state: CompositionState::Previewing, ..ctx },
            key,
        ),
{
}

/// A chord cancels what is composed and is the host's otherwise; the modifier
/// itself is always the host's.
pub proof fn a_chord_cancels_what_is_composed(state: CompositionState, is_modifier: bool)
    ensures
        state != CompositionState::Idle && !is_modifier ==> shortcut_table(state, is_modifier)
            == Some((CompositionState::Idle, seq![ActionView::CancelComposition])),
        state == CompositionState::Idle || is_modifier ==> shortcut_table(state, is_modifier)
            is None,
{
}

/// Whether a key event is delivered to a document that takes input, without a
/// chord.
pub open spec fn is_plain(event: KeyEvent) -> bool {
    event.has_context && !event.input_disabled && !event.control && !event.alt
}

/// Escape discards what is composed, whatever the layout says of the key.
pub proof fn the_escape_key_discards<H>(
    service: TextService<H>,
    event: KeyEvent,
    typed: Result<Option<String>, Failure>,
)
    requires
        is_plain(event),
        event.key_code == VK_ESCAPE,
        service.composition.spec_state() != CompositionState::Idle,
    ensures
        service.decision(event, typed) == Decision::Take(
            CompositionState::Idle,
            seq![ActionView::CancelComposition],
        ),
{
}

/// Enter commits what is shown: all of it where nothing is shown after the
/// candidate, and the candidate alone otherwise.
pub proof fn the_enter_key_commits<H>(
    service: TextService<H>,
    event: KeyEvent,
    typed: Result<Option<String>, Failure>,
)
    requires
        is_plain(event),
        event.key_code == VK_RETURN,
        service.composition.spec_state() != CompositionState::Idle,
    ensures
        service.composition.suffix@.len() == 0 ==> service.decision(event, typed)
            == Decision::Take(CompositionState::Idle, seq![ActionView::EndComposition]),
        service.composition.suffix@.len() > 0 ==> service.decision(event, typed)
            == Decision::Take(
            CompositionState::Composing,
            seq![ActionView::ShrinkText(Seq::empty())],
        ),
{
}

/// Space, Tab and the arrow down go to the next candidate, the arrow up to the
/// one before.
pub proof fn the_choosing_keys_choose<H>(
    service: TextService<H>,
    event: KeyEvent,
    typed: Result<Option<String>, Failure>,
)
    requires
        is_plain(event),
        service.composition.spec_state() != CompositionState::Idle,
    ensures
        event.key_code == VK_SPACE || event.key_code == VK_TAB || event.key_code == VK_DOWN
            ==> service.decision(event, typed) == Decision::Take(
            CompositionState::Previewing,
            seq![ActionView::SetSelection(SetSelectionType::Down)],
        ),
        event.key_code == VK_UP ==> service.decision(event, typed) == Decision::Take(
            CompositionState::Previewing,
            seq![ActionView::SetSelection(SetSelectionType::Up)],
        ),
{
}

/// Backspace removes as many kana as the message says that it was pressed, and
/// ends the composition where the reading has no more.
pub proof fn the_backspace_key_removes<H>(
    service: TextService<H>,
    event: KeyEvent,
    typed: Result<Option<String>, Failure>,
)
    requires
        is_plain(event),
        event.key_code == VK_BACK,
        service.composition.spec_state() != CompositionState::Idle,
        service.composition.raw_hiragana@.len() <= usize::MAX,
    ensures
        ({
            let count = repeat_of(event.lparam as u32).count;
            service.decision(event, typed) == if service.composition.raw_hiragana@.len() > count {
                Decision::Take(CompositionState::Composing, seq![ActionView::RemoveText(count)])
            } else {
                Decision::Take(
                    CompositionState::Idle,
                    seq![ActionView::RemoveText(count), ActionView::EndComposition],
                )
            }
        }),
{
}

/// The function keys from F6 to F10 rewrite the reading: as hiragana, katakana,
/// half-width katakana, full-width Latin and half-width Latin.
pub proof fn the_function_keys_rewrite<H>(
    service: TextService<H>,
    event: KeyEvent,
    typed: Result<Option<String>, Failure>,
    form: SetTextType,
)
    requires
        is_plain(event),
        service.composition.spec_state() != CompositionState::Idle,
        event.key_code == match form {
            SetTextType::Hiragana => VK_F6,
            SetTextType::Katakana => VK_F7,
            SetTextType::HalfKatakana => VK_F8,
            SetTextType::FullLatin => VK_F9,
            SetTextType::HalfLatin => VK_F10,
        },
    ensures
        service.decision(event, typed) == Decision::Take(
            CompositionState::Previewing,
            seq![ActionView::SetTextWithType(form)],
        ),
{
}

/// A digit key without Shift types its digit, whatever the layout says: it is
/// appended while the reading is typed, commits the candidate while one is
/// chosen, opens a composition in kana input, and is the host's in direct input.
pub proof fn a_digit_key_types_its_digit<H>(
    service: TextService<H>,
    event: KeyEvent,
    typed: Result<Option<String>, Failure>,
    digit: int,
)
    requires
        is_plain(event),
        !event.shift,
        0 <= digit <= 9,
        event.key_code == VK_0 + digit || event.key_code == VK_NUMPAD0 + digit,
    ensures
        ({
            let text = seq![(0x30 + digit) as char];
            service.decision(event, typed) == match service.composition.spec_state() {
                CompositionState::Composing => Decision::Take(
                    CompositionState::Composing,
                    seq![ActionView::AppendText(text)],
                ),
                CompositionState::Previewing => Decision::Take(
                    CompositionState::Composing,
                    seq![ActionView::ShrinkText(text)],
                ),
                CompositionState::Idle => if service.input_mode == InputMode::Kana {
                    Decision::Take(
                        CompositionState::Composing,
                        seq![ActionView::StartComposition, ActionView::AppendText(text)],
                    )
                } else {
                    Decision::PassOn
                },
            }
        }),
{
    a_digit_is_written_as_itself(digit as nat);
}

/// A key that has no meaning of its own types what the layout says it types. One
/// that types nothing is the host's, and where the layout cannot be asked the
/// failure is the answer.
pub proof fn a_key_types_what_the_layout_says<H>(
    service: TextService<H>,
    event: KeyEvent,
    text: String,
    failure: Failure,
)
    requires
        is_plain(event),
        0x41 <= event.key_code <= 0x5A || 0xBA <= event.key_code <= 0xC0,
    ensures
        service.decision(event, Ok(Some(text))) == match service.composition.spec_state() {
            CompositionState::Composing => Decision::Take(
                CompositionState::Composing,
                seq![ActionView::AppendText(text@)],
            ),
            CompositionState::Previewing => Decision::Take(
                CompositionState::Composing,
                seq![ActionView::ShrinkText(text@)],
            ),
            CompositionState::Idle => if service.input_mode == InputMode::Kana {
                Decision::Take(
                    CompositionState::Composing,
                    seq![ActionView::StartComposition, ActionView::AppendText(text@)],
                )
            } else {
                Decision::PassOn
            },
        },
        service.decision(event, Ok(None)) == Decision::PassOn,
        service.decision(event, Err(failure)) == Decision::Unreadable(failure),
{
}

/// Ctrl or Alt with a key cancels what is composed, whatever the key means on its
/// own; with nothing composed, and for the modifiers themselves, the host has
/// it.
pub proof fn a_chord_is_no_text<H>(
    service: TextService<H>,
    event: KeyEvent,
    typed: Result<Option<String>, Failure>,
)
    requires
        event.has_context,
        !event.input_disabled,
        event.control || event.alt,
        event.key_code != VK_KANJI && event.key_code != VK_DBE_SBCSCHAR && event.key_code
            != VK_DBE_DBCSCHAR,
    ensures
        ({
            let is_modifier = 0x10 <= event.key_code <= 0x12 || 0xA0 <= event.key_code <= 0xA5;
            service.decision(event, typed) == if service.composition.spec_state()
                != CompositionState::Idle && !is_modifier {
                Decision::Take(CompositionState::Idle, seq![ActionView::CancelComposition])
            } else {
                Decision::PassOn
            }
        }),
{
}

/// The keys that switch the mode do so once for each press: a delivery within 50
/// milliseconds of a switch is passed on, and one after that switches, to the
/// other mode with nothing composed and to direct input otherwise.
pub proof fn a_mode_key_switches_once_for_each_press<H>(
    service: TextService<H>,
    event: KeyEvent,
    typed: Result<Option<String>, Failure>,
)
    requires
        event.has_context,
        !event.input_disabled,
        event.key_code == VK_KANJI || event.key_code == VK_DBE_SBCSCHAR || event.key_code
            == VK_DBE_DBCSCHAR,
    ensures
        ({
            let is_echo = service.last_mode_toggle matches Some(at) && event.now < at + 50;
            let composed = service.composition.spec_state() != CompositionState::Idle;
            service.decision(event, typed) == if is_echo {
                Decision::PassOn
            } else if composed {
                Decision::Take(
                    CompositionState::Idle,
                    seq![ActionView::EndComposition, ActionView::SetIMEMode(InputMode::Latin)],
                )
            } else if service.input_mode == InputMode::Kana {
                Decision::Take(
                    CompositionState::Idle,
                    seq![ActionView::SetIMEMode(InputMode::Latin)],
                )
            } else {
                Decision::Take(
                    CompositionState::Idle,
                    seq![ActionView::SetIMEMode(InputMode::Kana)],
                )
            }
        }),
{
}

/// A Backspace that ends the composition sets the guard against the rest of the
/// press; one that goes on being held leaves the guard as it is; a fresh one, and
/// any other key, clears it.
pub proof fn the_guard_lasts_as_long_as_the_press(guard: bool, count: u32, repeat: KeyRepeat)
    ensures
        guard_after(
            guard,
            VK_BACK,
            repeat,
            seq![ActionView::RemoveText(count), ActionView::EndComposition],
        ),
        repeat.is_repeat ==> guard_after(guard, VK_BACK, repeat, Seq::empty()) == guard,
        repeat.is_repeat ==> guard_after(
            guard,
            VK_BACK,
            repeat,
            seq![ActionView::RemoveText(count)],
        ) == guard,
        !repeat.is_repeat ==> !guard_after(guard, VK_BACK, repeat, Seq::empty()),
        !repeat.is_repeat ==> !guard_after(
            guard,
            VK_BACK,
            repeat,
            seq![ActionView::RemoveText(count)],
        ),
        !guard_after(guard, VK_RETURN, repeat, seq![ActionView::EndComposition]),
{
    let ended = seq![ActionView::RemoveText(count), ActionView::EndComposition];
    assert(ended[1] == ActionView::EndComposition);
    let removed = seq![ActionView::RemoveText(count)];
    assert forall|i: int| 0 <= i < removed.len() implies #[trigger] removed[i]
        != ActionView::EndComposition by {
        assert(i == 0);
    }
}

/// The guard only takes a Backspace that goes on being held with nothing
/// composed: while something is composed, and where the guard is not set, the
/// key means what it means.
pub proof fn the_guard_takes_nothing_else<H>(
    service: TextService<H>,
    event: KeyEvent,
    typed: Result<Option<String>, Failure>,
)
    requires
        is_plain(event),
        event.key_code == VK_BACK,
        service.composition.spec_state() == CompositionState::Idle,
    ensures
        service.decision(event, typed) == if service.discard_backspace_repeat && repeat_of(
            event.lparam as u32,
        ).is_repeat {
            Decision::Take(CompositionState::Idle, Seq::<ActionView>::empty())
        } else {
            Decision::PassOn
        },
{
}

} // verus!

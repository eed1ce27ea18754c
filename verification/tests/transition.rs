use azookey_windows::engine::client_action::{ClientAction, SetSelectionType, SetTextType};
use azookey_windows::engine::composition::CompositionState;
use azookey_windows::engine::input_mode::InputMode;
use azookey_windows::engine::transition::{
    is_modifier_key, shortcut_transition, transition, KeystrokeContext,
};
use azookey_windows::engine::user_action::{Navigation, UserAction};

fn ctx(state: CompositionState, mode: InputMode) -> KeystrokeContext {
    KeystrokeContext {
        state,
        mode,
        reading_chars: 2,
        suffix_is_empty: true,
    }
}

fn kana(state: CompositionState) -> KeystrokeContext {
    ctx(state, InputMode::Kana)
}

#[test]
fn idle_kana_input_starts_a_composition() {
    let (next, actions) =
        transition(&kana(CompositionState::Idle), UserAction::Input("a".to_string())).unwrap();
    assert_eq!(next, CompositionState::Composing);
    assert_eq!(
        actions,
        vec![
            ClientAction::StartComposition,
            ClientAction::AppendText("a".to_string()),
        ]
    );
}

#[test]
fn idle_kana_number_starts_a_composition() {
    let (next, actions) =
        transition(&kana(CompositionState::Idle), UserAction::Number(5)).unwrap();
    assert_eq!(next, CompositionState::Composing);
    assert_eq!(
        actions,
        vec![
            ClientAction::StartComposition,
            ClientAction::AppendText("5".to_string()),
        ]
    );
}

#[test]
fn idle_latin_input_is_passed_through_to_the_host() {
    let latin = ctx(CompositionState::Idle, InputMode::Latin);
    assert!(transition(&latin, UserAction::Input("a".to_string())).is_none());
    assert!(transition(&latin, UserAction::Number(5)).is_none());
}

#[test]
fn idle_toggle_flips_the_input_mode_both_ways() {
    let (next, actions) =
        transition(&kana(CompositionState::Idle), UserAction::ToggleInputMode).unwrap();
    assert_eq!(next, CompositionState::Idle);
    assert_eq!(actions, vec![ClientAction::SetIMEMode(InputMode::Latin)]);

    let latin = ctx(CompositionState::Idle, InputMode::Latin);
    let (_, actions) = transition(&latin, UserAction::ToggleInputMode).unwrap();
    assert_eq!(actions, vec![ClientAction::SetIMEMode(InputMode::Kana)]);
}

#[test]
fn idle_ignores_editing_keys() {
    for action in [
        UserAction::Backspace { count: 1 },
        UserAction::Enter,
        UserAction::Escape,
        UserAction::Space,
        UserAction::Tab,
        UserAction::Unknown,
        UserAction::Navigation(Navigation::Up),
        UserAction::Function(SetTextType::Hiragana),
    ] {
        assert!(
            transition(&kana(CompositionState::Idle), action).is_none(),
            "idle state must not consume editing keys"
        );
    }
}

#[test]
fn composing_input_appends_but_previewing_input_commits_first() {
    let (next, actions) =
        transition(&kana(CompositionState::Composing), UserAction::Input("k".to_string())).unwrap();
    assert_eq!(next, CompositionState::Composing);
    assert_eq!(actions, vec![ClientAction::AppendText("k".to_string())]);

    let (next, actions) =
        transition(&kana(CompositionState::Previewing), UserAction::Input("k".to_string())).unwrap();
    assert_eq!(next, CompositionState::Composing);
    assert_eq!(actions, vec![ClientAction::ShrinkText("k".to_string())]);
}

#[test]
fn backspace_on_the_last_kana_ends_the_composition() {
    let mut context = kana(CompositionState::Composing);
    context.reading_chars = 1;
    let (next, actions) = transition(&context, UserAction::Backspace { count: 1 }).unwrap();
    assert_eq!(next, CompositionState::Idle);
    assert_eq!(
        actions,
        vec![ClientAction::RemoveText(1), ClientAction::EndComposition]
    );
}

#[test]
fn backspace_with_more_text_just_removes() {
    let (next, actions) =
        transition(&kana(CompositionState::Composing), UserAction::Backspace { count: 1 }).unwrap();
    assert_eq!(next, CompositionState::Composing);
    assert_eq!(actions, vec![ClientAction::RemoveText(1)]);
}

#[test]
fn backspace_judges_by_the_reading_not_the_converted_preview() {
    let mut context = kana(CompositionState::Previewing);
    context.reading_chars = 2; // さい — even though the preview 際 is 1 char
    let (next, actions) = transition(&context, UserAction::Backspace { count: 1 }).unwrap();
    assert_eq!(next, CompositionState::Composing);
    assert_eq!(
        actions,
        vec![ClientAction::RemoveText(1)],
        "the composition must keep going while the reading has kana left"
    );
}

#[test]
fn enter_commits_and_ends_when_nothing_is_pending() {
    let (next, actions) =
        transition(&kana(CompositionState::Previewing), UserAction::Enter).unwrap();
    assert_eq!(next, CompositionState::Idle);
    assert_eq!(actions, vec![ClientAction::EndComposition]);
}

#[test]
fn enter_with_a_pending_suffix_commits_the_candidate_and_keeps_composing() {
    let mut context = kana(CompositionState::Previewing);
    context.suffix_is_empty = false;
    let (next, actions) = transition(&context, UserAction::Enter).unwrap();
    assert_eq!(next, CompositionState::Composing);
    assert_eq!(actions, vec![ClientAction::ShrinkText("".to_string())]);
}

#[test]
fn escape_discards_the_composition_without_committing() {
    for state in [CompositionState::Composing, CompositionState::Previewing] {
        let (next, actions) = transition(&kana(state), UserAction::Escape).unwrap();
        assert_eq!(next, CompositionState::Idle);
        assert_eq!(actions, vec![ClientAction::CancelComposition]);
    }
}

#[test]
fn horizontal_navigation_moves_the_cursor() {
    let (next, actions) = transition(
        &kana(CompositionState::Composing),
        UserAction::Navigation(Navigation::Right),
    )
    .unwrap();
    assert_eq!(next, CompositionState::Composing);
    assert_eq!(actions, vec![ClientAction::MoveCursor(1)]);

    let (_, actions) = transition(
        &kana(CompositionState::Composing),
        UserAction::Navigation(Navigation::Left),
    )
    .unwrap();
    assert_eq!(actions, vec![ClientAction::MoveCursor(-1)]);
}

#[test]
fn vertical_navigation_selects_candidates() {
    let (next, actions) = transition(
        &kana(CompositionState::Composing),
        UserAction::Navigation(Navigation::Up),
    )
    .unwrap();
    assert_eq!(next, CompositionState::Previewing);
    assert_eq!(
        actions,
        vec![ClientAction::SetSelection(SetSelectionType::Up)]
    );

    let (next, actions) = transition(
        &kana(CompositionState::Composing),
        UserAction::Navigation(Navigation::Down),
    )
    .unwrap();
    assert_eq!(next, CompositionState::Previewing);
    assert_eq!(
        actions,
        vec![ClientAction::SetSelection(SetSelectionType::Down)]
    );
}

#[test]
fn space_and_tab_open_the_candidate_selection() {
    for action in [UserAction::Space, UserAction::Tab] {
        let (next, actions) =
            transition(&kana(CompositionState::Composing), action).unwrap();
        assert_eq!(next, CompositionState::Previewing);
        assert_eq!(
            actions,
            vec![ClientAction::SetSelection(SetSelectionType::Down)]
        );
    }
}

#[test]
fn toggle_while_composing_ends_and_switches_to_latin() {
    let (next, actions) =
        transition(&kana(CompositionState::Composing), UserAction::ToggleInputMode).unwrap();
    assert_eq!(next, CompositionState::Idle);
    assert_eq!(
        actions,
        vec![
            ClientAction::EndComposition,
            ClientAction::SetIMEMode(InputMode::Latin),
        ]
    );
}

#[test]
fn function_keys_convert_the_reading() {
    let cases = [
        (SetTextType::Hiragana, SetTextType::Hiragana),
        (SetTextType::Katakana, SetTextType::Katakana),
        (SetTextType::HalfKatakana, SetTextType::HalfKatakana),
        (SetTextType::FullLatin, SetTextType::FullLatin),
        (SetTextType::HalfLatin, SetTextType::HalfLatin),
    ];
    for (key, expected) in cases {
        let (next, actions) =
            transition(&kana(CompositionState::Composing), UserAction::Function(key)).unwrap();
        assert_eq!(next, CompositionState::Previewing);
        assert_eq!(actions, vec![ClientAction::SetTextWithType(expected)]);
    }
}

#[test]
fn unknown_keys_are_passed_through_while_composing() {
    assert!(transition(&kana(CompositionState::Composing), UserAction::Unknown).is_none());
}

#[test]
fn a_chord_gives_the_composition_up_and_a_bare_modifier_does_not() {
    for vk in [0x10usize, 0x11, 0x12, 0xA0, 0xA5] {
        assert!(is_modifier_key(vk));
    }
    assert!(!is_modifier_key(0x43));
    assert_eq!(shortcut_transition(CompositionState::Idle, false), None);
    assert_eq!(shortcut_transition(CompositionState::Composing, true), None);
    assert_eq!(
        shortcut_transition(CompositionState::Composing, false),
        Some((CompositionState::Idle, vec![ClientAction::CancelComposition]))
    );
}

#[test]
fn the_count_decides_whether_backspace_ends_the_composition() {
    let mut context = kana(CompositionState::Composing);
    context.reading_chars = 3;
    let (next, actions) =
        transition(&context, UserAction::Backspace { count: 2 }).unwrap();
    assert_eq!(next, CompositionState::Composing);
    assert_eq!(actions, vec![ClientAction::RemoveText(2)]);

    let (next, actions) =
        transition(&context, UserAction::Backspace { count: 5 }).unwrap();
    assert_eq!(next, CompositionState::Idle);
    assert_eq!(actions.last(), Some(&ClientAction::EndComposition));
}

#[test]
fn a_host_key_is_taken_while_composing_and_does_nothing() {
    assert_eq!(
        transition(&kana(CompositionState::Composing), UserAction::EditingKey),
        Some((CompositionState::Composing, vec![]))
    );
    assert!(transition(&kana(CompositionState::Idle), UserAction::EditingKey).is_none());
}

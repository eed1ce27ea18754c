use azookey_windows::engine::client_action::{ClientAction, SetSelectionType, SetTextType};
use azookey_windows::engine::composition::{
    keystrokes, needs_context_update, raw_input_after_commit, raw_input_kept_for_count, reconcile,
    Composition, CompositionEdit, CompositionState,
};
use azookey_windows::engine::input_mode::InputMode;
use azookey_windows::engine::ipc_service::Candidates;

#[test]
fn raw_input_kept_for_count_keeps_the_leading_keystrokes() {
    // backspace left a top candidate covering 3 keystrokes of "kyou"
    assert_eq!(raw_input_kept_for_count("kyou", 3), "kyo");
    // covers everything: unchanged
    assert_eq!(raw_input_kept_for_count("kyou", 4), "kyou");
    // covers nothing: emptied
    assert_eq!(raw_input_kept_for_count("kyou", 0), "");
    // a count past the end keeps all of it (take saturates), matching the
    // original `as usize` arithmetic
    assert_eq!(raw_input_kept_for_count("kyou", 9), "kyou");
}

#[test]
fn raw_input_after_commit_appends_then_drops_the_committed_keystrokes() {
    // committed 2 keystrokes, then typed "u": "ki" + "u" -> drop 2 -> "u"
    assert_eq!(raw_input_after_commit("ki", "u", 2), "u");
    // nothing appended, drop the first 3 of "kyou"
    assert_eq!(raw_input_after_commit("kyou", "", 3), "u");
    // committed count covers the whole combined input
    assert_eq!(raw_input_after_commit("ki", "u", 3), "");
    // count of zero drops nothing
    assert_eq!(raw_input_after_commit("ki", "u", 0), "kiu");
}

fn previewing(texts: &[&str], selection_index: i32, preview: &str) -> CompositionEdit {
    CompositionEdit {
        preview: preview.to_string(),
        suffix: String::new(),
        raw_input: String::new(),
        raw_hiragana: String::new(),
        corresponding_count: 0,
        surface_count: 0,
        candidates: Candidates {
            texts: texts.iter().map(|t| (*t).to_string()).collect(),
            ..Candidates::default()
        },
        selection_index,
        state: CompositionState::Previewing,
    }
}

#[test]
fn a_confirmed_candidate_is_the_one_the_preview_still_shows() {
    assert_eq!(
        previewing(&["水", "見ず", "みず"], 1, "見ず").confirmed_candidate_index(),
        Some(1),
        "the highlighted candidate is what the user picked"
    );
}

#[test]
fn a_rewritten_preview_confirms_no_candidate() {
    assert_eq!(
        previewing(&["水", "見ず"], 0, "ミズ").confirmed_candidate_index(),
        None
    );
}

#[test]
fn an_index_into_an_empty_list_confirms_nothing() {
    assert_eq!(previewing(&[], 0, "").confirmed_candidate_index(), None);
    assert_eq!(
        previewing(&["水"], 5, "水").confirmed_candidate_index(),
        None
    );
}

#[test]
fn a_negative_index_confirms_nothing() {
    assert_eq!(
        previewing(&["水"], -1, "水").confirmed_candidate_index(),
        None
    );
}

#[test]
fn replaying_a_reading_whole_equals_replaying_it_per_keystroke() {
    for mode in [InputMode::Kana, InputMode::Latin] {
        // "-" and "," are in the kana punctuation map, so this exercises
        // the branch that actually transforms
        let reading = "ka-nyu,shi";
        let per_keystroke: String = reading
            .chars()
            .map(|c| keystrokes(mode, &c.to_string()))
            .collect();
        assert_eq!(keystrokes(mode, reading), per_keystroke, "mode {mode:?}");
    }
}

#[test]
fn only_converting_actions_ask_for_the_surrounding_text() {
    assert!(needs_context_update(&[ClientAction::AppendText(
        "a".to_string()
    )]));
    assert!(needs_context_update(&[ClientAction::RemoveText(1)]));
    assert!(needs_context_update(&[ClientAction::ShrinkText(
        "a".to_string()
    )]));
    assert!(needs_context_update(&[ClientAction::SetTextWithType(
        SetTextType::Katakana
    )]));

    assert!(!needs_context_update(&[ClientAction::StartComposition]));
    assert!(!needs_context_update(&[ClientAction::EndComposition]));
    assert!(!needs_context_update(&[ClientAction::MoveCursor(-1)]));
    assert!(!needs_context_update(&[ClientAction::SetSelection(
        SetSelectionType::Down
    )]));

    // any converting action in the batch is enough
    assert!(needs_context_update(&[
        ClientAction::StartComposition,
        ClientAction::AppendText("a".to_string()),
    ]));
}

#[test]
fn composing_without_a_handle_resets_to_none() {
    assert_eq!(
        reconcile(CompositionState::Composing, false),
        CompositionState::Idle
    );
    assert_eq!(
        reconcile(CompositionState::Previewing, false),
        CompositionState::Idle
    );
}

#[test]
fn a_state_that_matches_the_handle_is_left_alone() {
    assert_eq!(
        reconcile(CompositionState::Composing, true),
        CompositionState::Composing
    );
    assert_eq!(
        reconcile(CompositionState::Previewing, true),
        CompositionState::Previewing
    );
    assert_eq!(
        reconcile(CompositionState::Idle, false),
        CompositionState::Idle
    );
}

#[test]
fn a_leftover_handle_does_not_resurrect_the_state() {
    assert_eq!(
        reconcile(CompositionState::Idle, true),
        CompositionState::Idle
    );
}

#[test]
fn a_count_below_zero_keeps_and_drops_everything() {
    assert_eq!(raw_input_kept_for_count("kyou", -1), "kyou");
    assert_eq!(raw_input_after_commit("ki", "u", -1), "");
}

#[test]
fn counts_are_in_characters() {
    assert_eq!(raw_input_kept_for_count("あ🌟い", 2), "あ🌟");
    assert_eq!(raw_input_after_commit("あ🌟い", "う", 2), "いう");
}

#[test]
fn an_adopted_candidate_is_the_one_that_is_confirmed() {
    let mut edit = previewing(&["水", "見ず"], 0, "");
    let list = edit.candidates.copy();
    edit.adopt_candidate(&list, 1);
    edit.selection_index = 1;
    assert_eq!(edit.preview, "見ず");
    assert_eq!(edit.confirmed_candidate_index(), Some(1));
    edit.discard_candidate_selection();
    assert_eq!(edit.selection_index, -1);
    assert_eq!(edit.confirmed_candidate_index(), None);
}

#[test]
fn tearing_down_blanks_everything_but_the_state() {
    let mut edit = previewing(&["水"], 0, "水");
    edit.raw_input = "mizu".to_string();
    edit.raw_hiragana = "みず".to_string();
    edit.corresponding_count = 4;
    edit.surface_count = 2;
    edit.reset_for_teardown();
    assert_eq!(edit.preview, "");
    assert_eq!(edit.raw_input, "");
    assert_eq!(edit.raw_hiragana, "");
    assert_eq!((edit.corresponding_count, edit.surface_count), (0, 0));
    assert!(edit.candidates.texts.is_empty());
    assert_eq!(edit.state, CompositionState::Previewing);
}

#[test]
fn writing_back_goes_by_what_the_host_holds() {
    let mut composition: Composition<u32> = Composition::new();
    let mut edit = CompositionEdit::from_composition(&composition, CompositionState::Composing);
    edit.preview = "か".to_string();
    edit.commit(&mut composition);
    assert_eq!(composition.state(), CompositionState::Idle);
    assert_eq!(composition.preview, "か");

    composition.attach_tip(Some(7));
    assert!(composition.has_tip());
    assert_eq!(composition.tip(), Some(&7));
    CompositionEdit::from_composition(&composition, CompositionState::Composing)
        .commit(&mut composition);
    assert_eq!(composition.state(), CompositionState::Composing);
    composition.detach_tip();
    assert!(!composition.has_tip());
}

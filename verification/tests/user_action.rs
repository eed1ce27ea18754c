use azookey_windows::engine::user_action::{
    decoded_text, is_ime_toggle_key, key_repeat, without_input_locks, KeyRepeat, Navigation,
    UserAction,
};
use azookey_windows::failure::Failure;
use azookey_windows::globals::{VK_CAPITAL, VK_KANA, VK_SHIFT};

fn lparam(bits: u32) -> isize {
    bits as i32 as isize
}

#[test]
fn a_fresh_press_carries_one_press_and_no_repeat_flag() {
    let repeat = key_repeat(lparam(0x0001_0001));
    assert_eq!(repeat.count, 1);
    assert!(!repeat.is_repeat, "bit 30 is clear on the first press");
}

#[test]
fn a_held_key_carries_the_coalesced_count_and_the_repeat_flag() {
    // bit 30 (previous state) + bit 29..24 scan-code noise + count 5
    let repeat = key_repeat(lparam(0x4001_0005));
    assert_eq!(repeat.count, 5, "only the low word is the count");
    assert!(repeat.is_repeat);
}

#[test]
fn the_neighbouring_lparam_bits_are_not_the_repeat_flag() {
    assert!(
        !key_repeat(lparam(0x8000_0001)).is_repeat,
        "bit 31 is key-up"
    );
    assert!(
        !key_repeat(lparam(0x2000_0001)).is_repeat,
        "bit 29 is the Alt context"
    );
}

#[test]
fn a_zero_count_is_raised_to_one() {
    assert_eq!(key_repeat(lparam(0)).count, 1);
    assert_eq!(key_repeat(lparam(0x4000_0000)).count, 1);
}

#[test]
fn only_backspace_carries_the_repeat_count() {
    let held = KeyRepeat {
        count: 7,
        is_repeat: true,
    };

    assert!(matches!(
        UserAction::decode(0x08, held, false, Ok(None)).unwrap(),
        UserAction::Backspace { count: 7 }
    ));
    assert!(matches!(
        UserAction::decode(0x0D, held, false, Ok(None)).unwrap(),
        UserAction::Enter
    ));
}

#[test]
fn a_dead_key_produces_no_text() {
    assert_eq!(decoded_text(-1, &[0x005E, 0, 0, 0]), None);
}

#[test]
fn a_key_with_no_character_produces_no_text() {
    assert_eq!(decoded_text(0, &[0, 0, 0, 0]), None);
}

#[test]
fn a_single_unit_is_the_character_itself() {
    assert_eq!(decoded_text(1, &[0x0061, 0, 0, 0]), Some("a".to_string()));
}

#[test]
fn a_surrogate_pair_becomes_one_character() {
    // U+1F600 GRINNING FACE
    let text = decoded_text(2, &[0xD83D, 0xDE00, 0, 0]).expect("a valid surrogate pair");

    assert_eq!(text, "\u{1F600}");
    assert_eq!(text.chars().count(), 1);
}

#[test]
fn several_units_become_several_characters() {
    assert_eq!(
        decoded_text(2, &[0x0061, 0x0062, 0x0063, 0]),
        Some("ab".to_string())
    );
}

#[test]
fn an_unpaired_surrogate_is_refused() {
    assert_eq!(decoded_text(1, &[0xD83D, 0, 0, 0]), None);
}

#[test]
fn a_count_past_the_buffer_is_refused() {
    assert_eq!(decoded_text(9, &[0x0061; 4]), None);
}

#[test]
fn caps_lock_is_cleared_before_decoding() {
    let mut key_state = [0u8; 256];
    // a toggled lock: bit 0 set (and bit 7 while the key is held)
    key_state[VK_CAPITAL] = 0x81;

    assert_eq!(
        without_input_locks(key_state)[VK_CAPITAL],
        0,
        "the toggle AND the pressed bit must both go, or ToUnicode still \
         sees the lock"
    );
}

#[test]
fn the_kana_lock_is_cleared_before_decoding() {
    let mut key_state = [0u8; 256];
    key_state[VK_KANA] = 0x01;

    assert_eq!(without_input_locks(key_state)[VK_KANA], 0);
}

#[test]
fn no_other_key_state_is_disturbed() {
    let mut key_state = [0u8; 256];
    key_state[VK_SHIFT] = 0x80;
    key_state[0x41] = 0x80; // A held
    key_state[VK_CAPITAL] = 0x01;

    let cleaned = without_input_locks(key_state);

    assert_eq!(cleaned[VK_SHIFT], 0x80, "Shift is deliberate");
    assert_eq!(cleaned[0x41], 0x80);
    assert_eq!(
        cleaned.iter().filter(|b| **b != 0).count(),
        2,
        "exactly the two keys set above survive"
    );
}

#[test]
fn the_ime_toggle_keys_include_vk_kanji() {
    for vk in [0xF3usize, 0xF4, 0x19] {
        assert!(is_ime_toggle_key(vk), "0x{vk:02X} switches the IME");
        assert!(
            matches!(
                UserAction::decode(vk, KeyRepeat::single(), false, Ok(None)).unwrap(),
                UserAction::ToggleInputMode
            ),
            "0x{vk:02X} must decode to ToggleInputMode"
        );
    }
}

#[test]
fn ordinary_keys_are_not_ime_toggle_keys() {
    for vk in [0x41usize, 0x20, 0x0D, 0xC0, 0x1B] {
        assert!(!is_ime_toggle_key(vk), "0x{vk:02X} is not an on/off key");
    }
}

#[test]
fn host_editing_keys_decode_to_editing_key() {
    // VK_PRIOR, VK_NEXT, VK_END, VK_HOME, VK_INSERT, VK_DELETE
    for vk in [0x21usize, 0x22, 0x23, 0x24, 0x2D, 0x2E] {
        assert!(
            matches!(
                UserAction::decode(vk, KeyRepeat::single(), false, Ok(None)).unwrap(),
                UserAction::EditingKey
            ),
            "0x{vk:02X} must decode to EditingKey"
        );
    }
}

#[test]
fn digits_are_numbers_unless_shift_is_down() {
    let single = KeyRepeat::single();
    for vk in [0x35usize, 0x65] {
        assert!(matches!(
            UserAction::decode(vk, single, false, Ok(None)).unwrap(),
            UserAction::Number(5)
        ));
    }
    assert!(matches!(
        UserAction::decode(0x35, single, true, Ok(Some("%".to_string()))).unwrap(),
        UserAction::Input(text) if text == "%"
    ));
}

#[test]
fn other_keys_mean_what_they_type() {
    let single = KeyRepeat::single();
    assert!(matches!(
        UserAction::decode(0x41, single, false, Ok(Some("a".to_string()))).unwrap(),
        UserAction::Input(text) if text == "a"
    ));
    assert!(matches!(
        UserAction::decode(0x70, single, false, Ok(None)).unwrap(),
        UserAction::Unknown
    ));
    assert!(matches!(
        UserAction::decode(0x26, single, false, Ok(None)).unwrap(),
        UserAction::Navigation(Navigation::Up)
    ));
    assert!(UserAction::decode(
        0x41,
        single,
        false,
        Err(Failure::new("GetKeyboardState".to_string()))
    )
    .is_err());
}

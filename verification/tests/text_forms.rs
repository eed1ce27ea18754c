use azookey_windows::engine::full_width::{to_fullwidth, to_fullwidth_ascii, to_halfwidth};
use azookey_windows::engine::text_util::{to_half_katakana, to_katakana};

#[test]
fn symbols_are_converted_to_fullwidth() {
    assert_eq!(to_fullwidth("!?"), "！？");
    assert_eq!(to_fullwidth("-"), "ー");
    assert_eq!(to_fullwidth(",."), "、。");
    assert_eq!(to_fullwidth("[]"), "「」");
}

#[test]
fn alphabet_is_kept_halfwidth() {
    assert_eq!(to_fullwidth("ka"), "ka");
}

#[test]
fn unmapped_characters_pass_through() {
    assert_eq!(to_fullwidth("あ漢1"), "あ漢1");
    assert_eq!(to_fullwidth(""), "");
    assert_eq!(to_halfwidth("あ漢A"), "あ漢A");
    assert_eq!(to_halfwidth(""), "");
}

#[test]
fn halfwidth_reverses_fullwidth_symbols() {
    for half in ["!", "?", "(", ")", "[", "]", "-", ",", "."] {
        let full = to_fullwidth(half);
        assert_eq!(to_halfwidth(&full), half, "roundtrip failed for {half}");
    }
}

#[test]
fn fullwidth_ascii_uses_plain_forms_not_kana_punctuation() {
    assert_eq!(to_fullwidth_ascii("a-b"), "ａ－ｂ");
    assert_eq!(to_fullwidth_ascii("1,2.3/4"), "１，２．３／４");
    assert_eq!(to_fullwidth_ascii("Az9"), "Ａｚ９");
    assert_eq!(to_fullwidth_ascii("a b"), "ａ\u{3000}ｂ");
    assert_eq!(to_fullwidth_ascii("あ漢"), "あ漢");
    assert_eq!(to_fullwidth_ascii(""), "");
}

#[test]
fn the_ends_of_the_ascii_range_have_wide_forms() {
    assert_eq!(to_fullwidth_ascii("!~"), "！～");
    assert_eq!(to_fullwidth_ascii("\u{1f}\u{7f}"), "\u{1f}\u{7f}");
}

#[test]
fn no_two_symbols_share_a_wide_form() {
    let symbols: Vec<char> = (0x21u8..0x7f).map(|code| code as char).collect();
    let mut wide: Vec<String> = symbols.iter().map(|c| to_fullwidth(&c.to_string())).collect();
    wide.sort();
    wide.dedup();
    assert_eq!(wide.len(), symbols.len());
}

#[test]
fn hiragana_becomes_katakana() {
    assert_eq!(to_katakana("かな"), "カナ");
    assert_eq!(to_katakana("がぎゃんゔ"), "ガギャンヴ");
}

#[test]
fn katakana_conversion_passes_through_unmapped_chars() {
    assert_eq!(to_katakana("カナ漢a1"), "カナ漢a1");
    assert_eq!(to_katakana(""), "");
}

#[test]
fn hiragana_becomes_half_katakana() {
    assert_eq!(to_half_katakana("かな"), "ｶﾅ");
    assert_eq!(to_half_katakana("がぱ"), "ｶﾞﾊﾟ");
}

#[test]
fn half_katakana_converts_fullwidth_symbols_too() {
    assert_eq!(to_half_katakana("らーめん"), "ﾗ-ﾒﾝ");
    assert_eq!(to_half_katakana(""), "");
}

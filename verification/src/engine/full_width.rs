//! Half-width and full-width forms of the symbols that are typed.

use vstd::prelude::*;

use crate::strings::{chars_of, text_of};
#[allow(unused_imports)]
use crate::strings::is_scalar;

verus! {

/// The kana punctuation that a half-width symbol is typed as; letters, digits
/// and everything that is no such symbol stay as they are.
pub open spec fn fullwidth_char(c: char) -> char {
    match c {
        '!' => '！',
        '"' => '”',
        '#' => '＃',
        '$' => '＄',
        '%' => '％',
        '&' => '＆',
        '\'' => '’',
        '(' => '（',
        ')' => '）',
        '*' => '＊',
        '+' => '＋',
        ',' => '、',
        '-' => 'ー',
        '.' => '。',
        '/' => '・',
        ':' => '：',
        ';' => '；',
        '<' => '＜',
        '=' => '＝',
        '>' => '＞',
        '?' => '？',
        '@' => '＠',
        '[' => '「',
        '\\' => '￥',
        ']' => '」',
        '^' => '＾',
        '_' => '＿',
        '`' => '｀',
        '{' => '｛',
        '|' => '｜',
        '}' => '｝',
        '~' => '～',
        _ => c,
    }
}

/// Whether a character is one of the symbols that have a kana punctuation form.
pub open spec fn is_half_symbol(c: char) -> bool {
    fullwidth_char(c) != c
}

/// The half-width symbol whose kana punctuation form this is; anything else
/// stays as it is.
pub open spec fn halfwidth_char(c: char) -> char {
    match c {
        '！' => '!',
        '”' => '"',
        '＃' => '#',
        '＄' => '$',
        '％' => '%',
        '＆' => '&',
        '’' => '\'',
        '（' => '(',
        '）' => ')',
        '＊' => '*',
        '＋' => '+',
        '、' => ',',
        'ー' => '-',
        '。' => '.',
        '・' => '/',
        '：' => ':',
        '；' => ';',
        '＜' => '<',
        '＝' => '=',
        '＞' => '>',
        '？' => '?',
        '＠' => '@',
        '「' => '[',
        '￥' => '\\',
        '」' => ']',
        '＾' => '^',
        '＿' => '_',
        '｀' => '`',
        '｛' => '{',
        '｜' => '|',
        '｝' => '}',
        '～' => '~',
        _ => c,
    }
}

/// The full-width twin of a printable ASCII character, the ideographic space
/// for a space, and any other character itself.
pub open spec fn fullwidth_ascii_char(c: char) -> char {
    if c == ' ' {
        '\u{3000}'
    } else if '!' <= c <= '~' {
        (c as u32 + 0xFEE0) as char
    } else {
        c
    }
}

fn widen(c: char) -> (wide: char)
    ensures
        wide == fullwidth_char(c),
{
    match c {
        '!' => '！',
        '"' => '”',
        '#' => '＃',
        '$' => '＄',
        '%' => '％',
        '&' => '＆',
        '\'' => '’',
        '(' => '（',
        ')' => '）',
        '*' => '＊',
        '+' => '＋',
        ',' => '、',
        '-' => 'ー',
        '.' => '。',
        '/' => '・',
        ':' => '：',
        ';' => '；',
        '<' => '＜',
        '=' => '＝',
        '>' => '＞',
        '?' => '？',
        '@' => '＠',
        '[' => '「',
        '\\' => '￥',
        ']' => '」',
        '^' => '＾',
        '_' => '＿',
        '`' => '｀',
        '{' => '｛',
        '|' => '｜',
        '}' => '｝',
        '~' => '～',
        _ => c,
    }
}

pub(crate) fn narrow(c: char) -> (half: char)
    ensures
        half == halfwidth_char(c),
{
    match c {
        '！' => '!',
        '”' => '"',
        '＃' => '#',
        '＄' => '$',
        '％' => '%',
        '＆' => '&',
        '’' => '\'',
        '（' => '(',
        '）' => ')',
        '＊' => '*',
        '＋' => '+',
        '、' => ',',
        'ー' => '-',
        '。' => '.',
        '・' => '/',
        '：' => ':',
        '；' => ';',
        '＜' => '<',
        '＝' => '=',
        '＞' => '>',
        '？' => '?',
        '＠' => '@',
        '「' => '[',
        '￥' => '\\',
        '」' => ']',
        '＾' => '^',
        '＿' => '_',
        '｀' => '`',
        '｛' => '{',
        '｜' => '|',
        '｝' => '}',
        '～' => '~',
        _ => c,
    }
}

/// Replaces every kana punctuation mark by the symbol it is typed with.
pub fn to_halfwidth(s: &str) -> (text: String)
    ensures
        text@ == s@.map_values(|c: char| halfwidth_char(c)),
{
    let chars = chars_of(s);
    let mut out: Vec<char> = Vec::new();
    let mut i: usize = 0;
    while i < chars.len()
        invariant
            i == out.len(),
            i <= chars.len(),
            forall|j: int| 0 <= j < i ==> out@[j] == halfwidth_char(chars@[j]),
        decreases chars.len() - i,
    {
        out.push(narrow(chars[i]));
        i += 1;
    }
    assert(out@ =~= s@.map_values(|c: char| halfwidth_char(c)));
    text_of(&out)
}

/// The text of keystrokes as kana input types it: symbols become kana
/// punctuation, everything else is unchanged.
pub fn to_fullwidth(s: &str) -> (text: String)
    ensures
        text@ == s@.map_values(|c: char| fullwidth_char(c)),
{
    let chars = chars_of(s);
    let mut out: Vec<char> = Vec::new();
    let mut i: usize = 0;
    while i < chars.len()
        invariant
            i == out.len(),
            i <= chars.len(),
            forall|j: int| 0 <= j < i ==> out@[j] == fullwidth_char(chars@[j]),
        decreases chars.len() - i,
    {
        out.push(widen(chars[i]));
        i += 1;
    }
    assert(out@ =~= s@.map_values(|c: char| fullwidth_char(c)));
    text_of(&out)
}

/// Full-width ASCII: printable ASCII becomes its full-width twin, symbols
/// included, and the space the ideographic space. Other characters pass
/// through.
pub fn to_fullwidth_ascii(s: &str) -> (text: String)
    ensures
        text@ == s@.map_values(|c: char| fullwidth_ascii_char(c)),
{
    let chars = chars_of(s);
    let mut out: Vec<char> = Vec::new();
    let mut i: usize = 0;
    while i < chars.len()
        invariant
            i == out.len(),
            i <= chars.len(),
            forall|j: int| 0 <= j < i ==> out@[j] == fullwidth_ascii_char(chars@[j]),
        decreases chars.len() - i,
    {
        let c = chars[i];
        let wide = if c == ' ' {
            '\u{3000}'
        } else if '!' <= c && c <= '~' {
            char::from_u32(c as u32 + 0xFEE0).unwrap_or(c)
        } else {
            c
        };
        out.push(wide);
        i += 1;
    }
    assert(out@ =~= s@.map_values(|c: char| fullwidth_ascii_char(c)));
    text_of(&out)
}

/// No two half-width symbols share a kana punctuation form.
pub proof fn fullwidth_is_injective_on_symbols(a: char, b: char)
    requires
        is_half_symbol(a),
        is_half_symbol(b),
        fullwidth_char(a) == fullwidth_char(b),
    ensures
        a == b,
{
}

/// Narrowing undoes widening, on every text that holds no kana punctuation to
/// begin with.
pub proof fn halfwidth_reverses_fullwidth(text: Seq<char>)
    requires
        forall|i: int| 0 <= i < text.len() ==> halfwidth_char(#[trigger] text[i]) == text[i],
    ensures
        text.map_values(|c: char| fullwidth_char(c)).map_values(|c: char| halfwidth_char(c))
            == text,
{
    assert forall|i: int| 0 <= i < text.len() implies halfwidth_char(fullwidth_char(text[i]))
        == #[trigger] text[i] by {
        assert(halfwidth_char(text[i]) == text[i]);
    }
    assert(text.map_values(|c: char| fullwidth_char(c)).map_values(|c: char| halfwidth_char(c))
        =~= text);
}

/// Letters, digits and spaces are not widened: kana input types its romaji with
/// them.
pub proof fn widening_leaves_words(text: Seq<char>)
    requires
        forall|i: int|
            0 <= i < text.len() ==> 'a' <= #[trigger] text[i] <= 'z' || 'A' <= text[i] <= 'Z'
                || '0' <= text[i] <= '9' || text[i] == ' ',
    ensures
        text.map_values(|c: char| fullwidth_char(c)) == text,
{
    assert(text.map_values(|c: char| fullwidth_char(c)) =~= text);
}

/// A symbol of the ASCII range is widened to the kana punctuation that is typed
/// with it, or else to its full-width twin, a fixed distance above. Nothing else
/// is widened.
pub proof fn a_symbol_is_widened_to_its_punctuation_or_its_twin(c: char)
    ensures
        ({
            let code = c as int;
            let wide = fullwidth_char(c) as int;
            let is_word = 0x30 <= code <= 0x39 || 0x41 <= code <= 0x5A || 0x61 <= code <= 0x7A;
            if code < 0x21 || code > 0x7E || is_word {
                wide == code
            } else if code == 0x22 {
                wide == 0x201D
            } else if code == 0x27 {
                wide == 0x2019
            } else if code == 0x2C {
                wide == 0x3001
            } else if code == 0x2D {
                wide == 0x30FC
            } else if code == 0x2E {
                wide == 0x3002
            } else if code == 0x2F {
                wide == 0x30FB
            } else if code == 0x5B {
                wide == 0x300C
            } else if code == 0x5C {
                wide == 0xFFE5
            } else if code == 0x5D {
                wide == 0x300D
            } else {
                wide == code + 0xFEE0
            }
        }),
{
}

/// What is narrowed is what a symbol is widened to, and it is narrowed to that
/// symbol.
pub proof fn narrowing_undoes_widening_and_nothing_else(c: char)
    ensures
        is_half_symbol(c) ==> halfwidth_char(fullwidth_char(c)) == c,
        halfwidth_char(c) != c ==> fullwidth_char(halfwidth_char(c)) == c,
{
}

/// ASCII is narrow already.
pub proof fn what_is_ascii_stays_narrow(c: char)
    requires
        (c as int) < 0x80,
    ensures
        halfwidth_char(c) == c,
{
}

/// The full-width twin of a printable ASCII character stands a fixed distance
/// above it; that of the space is the ideographic space, and nothing else has
/// one.
pub proof fn the_full_width_twin_is_a_fixed_distance_away(c: char)
    ensures
        0x21 <= c as int <= 0x7E ==> fullwidth_ascii_char(c) as int == c as int + 0xFEE0,
        c as int == 0x20 ==> fullwidth_ascii_char(c) as int == 0x3000,
        (c as int) < 0x20 || c as int > 0x7E ==> fullwidth_ascii_char(c) == c,
{
}

} // verus!

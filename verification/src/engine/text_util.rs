//! Katakana forms of a hiragana reading.

use vstd::prelude::*;

use super::full_width::narrow;
#[allow(unused_imports)]
use super::full_width::halfwidth_char;
#[allow(unused_imports)]
use crate::strings::is_scalar;
use crate::strings::{chars_of, text_of};

verus! {

/// The katakana of a hiragana character, which stands a fixed distance above
/// it; any other character is itself.
pub open spec fn katakana_char(c: char) -> char {
    if 'ぁ' <= c <= 'ゖ' {
        (c as u32 + 0x60) as char
    } else {
        c
    }
}

/// The half-width katakana of a hiragana character, with the voicing mark that
/// follows it as a character of its own; any other character is itself.
pub open spec fn half_katakana_parts(c: char) -> (char, Option<char>) {
    match c {
        'ぁ' => ('ｧ', None),
        'あ' => ('ｱ', None),
        'ぃ' => ('ｨ', None),
        'い' => ('ｲ', None),
        'ぅ' => ('ｩ', None),
        'う' => ('ｳ', None),
        'ぇ' => ('ｪ', None),
        'え' => ('ｴ', None),
        'ぉ' => ('ｫ', None),
        'お' => ('ｵ', None),
        'か' => ('ｶ', None),
        'が' => ('ｶ', Some('ﾞ')),
        'き' => ('ｷ', None),
        'ぎ' => ('ｷ', Some('ﾞ')),
        'く' => ('ｸ', None),
        'ぐ' => ('ｸ', Some('ﾞ')),
        'け' => ('ｹ', None),
        'げ' => ('ｹ', Some('ﾞ')),
        'こ' => ('ｺ', None),
        'ご' => ('ｺ', Some('ﾞ')),
        'さ' => ('ｻ', None),
        'ざ' => ('ｻ', Some('ﾞ')),
        'し' => ('ｼ', None),
        'じ' => ('ｼ', Some('ﾞ')),
        'す' => ('ｽ', None),
        'ず' => ('ｽ', Some('ﾞ')),
        'せ' => ('ｾ', None),
        'ぜ' => ('ｾ', Some('ﾞ')),
        'そ' => ('ｿ', None),
        'ぞ' => ('ｿ', Some('ﾞ')),
        'た' => ('ﾀ', None),
        'だ' => ('ﾀ', Some('ﾞ')),
        'ち' => ('ﾁ', None),
        'ぢ' => ('ﾁ', Some('ﾞ')),
        'っ' => ('ｯ', None),
        'つ' => ('ﾂ', None),
        'づ' => ('ﾂ', Some('ﾞ')),
        'て' => ('ﾃ', None),
        'で' => ('ﾃ', Some('ﾞ')),
        'と' => ('ﾄ', None),
        'ど' => ('ﾄ', Some('ﾞ')),
        'な' => ('ﾅ', None),
        'に' => ('ﾆ', None),
        'ぬ' => ('ﾇ', None),
        'ね' => ('ﾈ', None),
        'の' => ('ﾉ', None),
        'は' => ('ﾊ', None),
        'ば' => ('ﾊ', Some('ﾞ')),
        'ぱ' => ('ﾊ', Some('ﾟ')),
        'ひ' => ('ﾋ', None),
        'び' => ('ﾋ', Some('ﾞ')),
        'ぴ' => ('ﾋ', Some('ﾟ')),
        'ふ' => ('ﾌ', None),
        'ぶ' => ('ﾌ', Some('ﾞ')),
        'ぷ' => ('ﾌ', Some('ﾟ')),
        'へ' => ('ﾍ', None),
        'べ' => ('ﾍ', Some('ﾞ')),
        'ぺ' => ('ﾍ', Some('ﾟ')),
        'ほ' => ('ﾎ', None),
        'ぼ' => ('ﾎ', Some('ﾞ')),
        'ぽ' => ('ﾎ', Some('ﾟ')),
        'ま' => ('ﾏ', None),
        'み' => ('ﾐ', None),
        'む' => ('ﾑ', None),
        'め' => ('ﾒ', None),
        'も' => ('ﾓ', None),
        'ゃ' => ('ｬ', None),
        'や' => ('ﾔ', None),
        'ゅ' => ('ｭ', None),
        'ゆ' => ('ﾕ', None),
        'ょ' => ('ｮ', None),
        'よ' => ('ﾖ', None),
        'ら' => ('ﾗ', None),
        'り' => ('ﾘ', None),
        'る' => ('ﾙ', None),
        'れ' => ('ﾚ', None),
        'ろ' => ('ﾛ', None),
        'ゎ' => ('ﾜ', None),
        'わ' => ('ﾜ', None),
        'ゐ' => ('ｲ', None),
        'ゑ' => ('ｴ', None),
        'を' => ('ｦ', None),
        'ん' => ('ﾝ', None),
        'ゔ' => ('ｳ', Some('ﾞ')),
        'ゕ' => ('ｶ', None),
        'ゖ' => ('ｹ', None),
        _ => (c, None),
    }
}

/// What one character of a reading becomes in half-width katakana: kana
/// punctuation is narrowed first.
pub open spec fn half_katakana_char(c: char) -> Seq<char> {
    match half_katakana_parts(halfwidth_char(c)) {
        (base, None) => seq![base],
        (base, Some(mark)) => seq![base, mark],
    }
}

/// What a reading becomes in half-width katakana, character by character.
pub open spec fn half_katakana(text: Seq<char>) -> Seq<char>
    decreases text.len(),
{
    if text.len() == 0 {
        Seq::empty()
    } else {
        half_katakana(text.drop_last()) + half_katakana_char(text.last())
    }
}

fn half_parts(c: char) -> (parts: (char, Option<char>))
    ensures
        parts == half_katakana_parts(c),
{
    match c {
        'ぁ' => ('ｧ', None),
        'あ' => ('ｱ', None),
        'ぃ' => ('ｨ', None),
        'い' => ('ｲ', None),
        'ぅ' => ('ｩ', None),
        'う' => ('ｳ', None),
        'ぇ' => ('ｪ', None),
        'え' => ('ｴ', None),
        'ぉ' => ('ｫ', None),
        'お' => ('ｵ', None),
        'か' => ('ｶ', None),
        'が' => ('ｶ', Some('ﾞ')),
        'き' => ('ｷ', None),
        'ぎ' => ('ｷ', Some('ﾞ')),
        'く' => ('ｸ', None),
        'ぐ' => ('ｸ', Some('ﾞ')),
        'け' => ('ｹ', None),
        'げ' => ('ｹ', Some('ﾞ')),
        'こ' => ('ｺ', None),
        'ご' => ('ｺ', Some('ﾞ')),
        'さ' => ('ｻ', None),
        'ざ' => ('ｻ', Some('ﾞ')),
        'し' => ('ｼ', None),
        'じ' => ('ｼ', Some('ﾞ')),
        'す' => ('ｽ', None),
        'ず' => ('ｽ', Some('ﾞ')),
        'せ' => ('ｾ', None),
        'ぜ' => ('ｾ', Some('ﾞ')),
        'そ' => ('ｿ', None),
        'ぞ' => ('ｿ', Some('ﾞ')),
        'た' => ('ﾀ', None),
        'だ' => ('ﾀ', Some('ﾞ')),
        'ち' => ('ﾁ', None),
        'ぢ' => ('ﾁ', Some('ﾞ')),
        'っ' => ('ｯ', None),
        'つ' => ('ﾂ', None),
        'づ' => ('ﾂ', Some('ﾞ')),
        'て' => ('ﾃ', None),
        'で' => ('ﾃ', Some('ﾞ')),
        'と' => ('ﾄ', None),
        'ど' => ('ﾄ', Some('ﾞ')),
        'な' => ('ﾅ', None),
        'に' => ('ﾆ', None),
        'ぬ' => ('ﾇ', None),
        'ね' => ('ﾈ', None),
        'の' => ('ﾉ', None),
        'は' => ('ﾊ', None),
        'ば' => ('ﾊ', Some('ﾞ')),
        'ぱ' => ('ﾊ', Some('ﾟ')),
        'ひ' => ('ﾋ', None),
        'び' => ('ﾋ', Some('ﾞ')),
        'ぴ' => ('ﾋ', Some('ﾟ')),
        'ふ' => ('ﾌ', None),
        'ぶ' => ('ﾌ', Some('ﾞ')),
        'ぷ' => ('ﾌ', Some('ﾟ')),
        'へ' => ('ﾍ', None),
        'べ' => ('ﾍ', Some('ﾞ')),
        'ぺ' => ('ﾍ', Some('ﾟ')),
        'ほ' => ('ﾎ', None),
        'ぼ' => ('ﾎ', Some('ﾞ')),
        'ぽ' => ('ﾎ', Some('ﾟ')),
        'ま' => ('ﾏ', None),
        'み' => ('ﾐ', None),
        'む' => ('ﾑ', None),
        'め' => ('ﾒ', None),
        'も' => ('ﾓ', None),
        'ゃ' => ('ｬ', None),
        'や' => ('ﾔ', None),
        'ゅ' => ('ｭ', None),
        'ゆ' => ('ﾕ', None),
        'ょ' => ('ｮ', None),
        'よ' => ('ﾖ', None),
        'ら' => ('ﾗ', None),
        'り' => ('ﾘ', None),
        'る' => ('ﾙ', None),
        'れ' => ('ﾚ', None),
        'ろ' => ('ﾛ', None),
        'ゎ' => ('ﾜ', None),
        'わ' => ('ﾜ', None),
        'ゐ' => ('ｲ', None),
        'ゑ' => ('ｴ', None),
        'を' => ('ｦ', None),
        'ん' => ('ﾝ', None),
        'ゔ' => ('ｳ', Some('ﾞ')),
        'ゕ' => ('ｶ', None),
        'ゖ' => ('ｹ', None),
        _ => (c, None),
    }
}

/// The reading in katakana; what is not hiragana passes through.
pub fn to_katakana(s: &str) -> (text: String)
    ensures
        text@ == s@.map_values(|c: char| katakana_char(c)),
{
    let chars = chars_of(s);
    let mut out: Vec<char> = Vec::new();
    let mut i: usize = 0;
    while i < chars.len()
        invariant
            i == out.len(),
            i <= chars.len(),
            forall|j: int| 0 <= j < i ==> out@[j] == katakana_char(chars@[j]),
        decreases chars.len() - i,
    {
        let c: char = chars[i];
        let katakana = if 'ぁ' <= c && c <= 'ゖ' {
            char::from_u32(c as u32 + 0x60).unwrap_or(c)
        } else {
            c
        };
        out.push(katakana);
        i += 1;
    }
    assert(out@ =~= s@.map_values(|c: char| katakana_char(c)));
    text_of(&out)
}

/// The reading in half-width katakana; a voicing mark becomes a character of
/// its own, and kana punctuation its half-width symbol.
pub fn to_half_katakana(s: &str) -> (text: String)
    ensures
        text@ == half_katakana(s@),
{
    let chars = chars_of(s);
    let mut out: Vec<char> = Vec::new();
    let mut i: usize = 0;
    while i < chars.len()
        invariant
            i <= chars.len(),
            chars@ == s@,
            out@ == half_katakana(chars@.take(i as int)),
        decreases chars.len() - i,
    {
        let (base, mark) = half_parts(narrow(chars[i]));
        let ghost before = out@;
        out.push(base);
        if let Some(mark) = mark {
            out.push(mark);
        }
        i += 1;
        proof {
            assert(chars@.take(i as int).drop_last() =~= chars@.take(i - 1));
            assert(out@ =~= before + half_katakana_char(chars@[i - 1]));
        }
    }
    assert(chars@.take(chars@.len() as int) =~= chars@);
    text_of(&out)
}

/// The katakana of a hiragana character stands a fixed distance above it, and
/// nothing else is changed.
pub proof fn katakana_stands_a_fixed_distance_above(c: char)
    ensures
        0x3041 <= c as int <= 0x3096 ==> katakana_char(c) as int == c as int + 0x60,
        (c as int) < 0x3041 || c as int > 0x3096 ==> katakana_char(c) == c,
{
}

/// A reading becomes half-width katakana piece by piece.
pub proof fn half_katakana_of_joined(a: Seq<char>, b: Seq<char>)
    ensures
        half_katakana(a + b) == half_katakana(a) + half_katakana(b),
    decreases b.len(),
{
    if b.len() == 0 {
        assert(a + b =~= a);
        assert(half_katakana(a) + half_katakana(b) =~= half_katakana(a));
    } else {
        assert((a + b).drop_last() =~= a + b.drop_last());
        half_katakana_of_joined(a, b.drop_last());
        assert(half_katakana(a) + (half_katakana(b.drop_last()) + half_katakana_char(b.last()))
            =~= (half_katakana(a) + half_katakana(b.drop_last())) + half_katakana_char(b.last()));
    }
}

proof fn half_katakana_of_one(c: char)
    ensures
        half_katakana(seq![c]) == half_katakana_char(c),
{
    reveal_with_fuel(half_katakana, 2);
    assert(seq![c].drop_last() =~= Seq::empty());
    assert(half_katakana(seq![c]) =~= half_katakana_char(c));
}

/// The rows of kana whose voiced kana follow them become half-width katakana in
/// their own order, without gaps; a voiced kana becomes the plain one with the
/// voicing mark behind it.
pub proof fn voiced_kana_carry_their_mark(c: char, k: int)
    ensures
        0 <= k < 12 && c as int == 0x304B + 2 * k ==> half_katakana(seq![c]) == seq![
            (0xFF76 + k) as char,
        ],
        0 <= k < 12 && c as int == 0x304C + 2 * k ==> half_katakana(seq![c]) == seq![
            (0xFF76 + k) as char,
            0xFF9E as char,
        ],
        0 <= k < 3 && c as int == 0x3064 + 2 * k ==> half_katakana(seq![c]) == seq![
            (0xFF82 + k) as char,
        ],
        0 <= k < 3 && c as int == 0x3065 + 2 * k ==> half_katakana(seq![c]) == seq![
            (0xFF82 + k) as char,
            0xFF9E as char,
        ],
        0 <= k < 5 && c as int == 0x306F + 3 * k ==> half_katakana(seq![c]) == seq![
            (0xFF8A + k) as char,
        ],
        0 <= k < 5 && c as int == 0x3070 + 3 * k ==> half_katakana(seq![c]) == seq![
            (0xFF8A + k) as char,
            0xFF9E as char,
        ],
        0 <= k < 5 && c as int == 0x3071 + 3 * k ==> half_katakana(seq![c]) == seq![
            (0xFF8A + k) as char,
            0xFF9F as char,
        ],
        c as int == 0x3094 ==> half_katakana(seq![c]) == seq![0xFF73 as char, 0xFF9E as char],
{
    half_katakana_of_one(c);
}

/// The kana without voiced ones become half-width katakana in their own order,
/// the small ones apart from the others.
pub proof fn plain_kana_keep_their_order(c: char, k: int)
    ensures
        0 <= k < 5 && c as int == 0x3042 + 2 * k ==> half_katakana(seq![c]) == seq![
            (0xFF71 + k) as char,
        ],
        0 <= k < 5 && c as int == 0x306A + k ==> half_katakana(seq![c]) == seq![
            (0xFF85 + k) as char,
        ],
        0 <= k < 5 && c as int == 0x307E + k ==> half_katakana(seq![c]) == seq![
            (0xFF8F + k) as char,
        ],
        0 <= k < 3 && c as int == 0x3084 + 2 * k ==> half_katakana(seq![c]) == seq![
            (0xFF94 + k) as char,
        ],
        0 <= k < 5 && c as int == 0x3089 + k ==> half_katakana(seq![c]) == seq![
            (0xFF97 + k) as char,
        ],
        c as int == 0x308E || c as int == 0x308F ==> half_katakana(seq![c]) == seq![
            0xFF9C as char,
        ],
        c as int == 0x3090 ==> half_katakana(seq![c]) == seq![0xFF72 as char],
        c as int == 0x3091 ==> half_katakana(seq![c]) == seq![0xFF74 as char],
        c as int == 0x3092 ==> half_katakana(seq![c]) == seq![0xFF66 as char],
        c as int == 0x3093 ==> half_katakana(seq![c]) == seq![0xFF9D as char],
        0 <= k < 5 && c as int == 0x3041 + 2 * k ==> half_katakana(seq![c]) == seq![
            (0xFF67 + k) as char,
        ],
        0 <= k < 3 && c as int == 0x3083 + 2 * k ==> half_katakana(seq![c]) == seq![
            (0xFF6C + k) as char,
        ],
        c as int == 0x3063 ==> half_katakana(seq![c]) == seq![0xFF6F as char],
        c as int == 0x3095 ==> half_katakana(seq![c]) == seq![0xFF76 as char],
        c as int == 0x3096 ==> half_katakana(seq![c]) == seq![0xFF79 as char],
{
    half_katakana_of_one(c);
}

/// What is no hiragana and no kana punctuation stays as it is in half-width
/// katakana.
pub proof fn half_katakana_leaves_the_rest(c: char)
    requires
        (c as int) < 0x80 || (0x3097 <= c as int && c as int <= 0x30FA) || (0x3400 <= c as int
            && c as int <= 0x9FFF),
    ensures
        half_katakana(seq![c]) == seq![c],
{
    half_katakana_of_one(c);
}

} // verus!

//! Text as sequences of characters and of UTF-16 units.

use vstd::prelude::*;

verus! {

/// `String::push`: the character goes to the end of the text.
pub assume_specification[ String::push ](text: &mut String, c: char)
    ensures
        final(text)@ == old(text)@.push(c),
;

/// `String::push_str`: the other text goes to the end of the text.
pub assume_specification[ String::push_str ](text: &mut String, other: &str)
    ensures
        final(text)@ == old(text)@ + other@,
;

/// Whether a number is a Unicode scalar value, and so a `char`.
pub open spec fn is_scalar(code: u32) -> bool {
    code <= 0xD7FF || 0xE000 <= code <= 0x10FFFF
}

/// `char::from_u32`: the character with this scalar value, where there is one.
pub assume_specification[ char::from_u32 ](code: u32) -> (c: Option<char>)
    ensures
        c == if is_scalar(code) {
            Some(code as char)
        } else {
            None
        },
;

/// The characters of a text, one by one.
pub fn chars_of(text: &str) -> (chars: Vec<char>)
    ensures
        chars@ == text@,
{
    let mut chars: Vec<char> = Vec::new();
    for c in it: text.chars()
        invariant
            it.seq() == text@,
            chars@ == text@.take(it.index()),
    {
        chars.push(c);
    }
    assert(text@.take(text@.len() as int) =~= text@);
    chars
}

/// The text that a run of characters spells.
pub fn text_of(chars: &[char]) -> (text: String)
    ensures
        text@ == chars@,
{
    let mut text = String::new();
    let mut i: usize = 0;
    while i < chars.len()
        invariant
            i <= chars.len(),
            text@ == chars@.take(i as int),
        decreases chars.len() - i,
    {
        text.push(chars[i]);
        i += 1;
        assert(chars@.take(i as int) =~= chars@.take(i - 1).push(chars@[i - 1]));
    }
    assert(chars@.take(chars@.len() as int) =~= chars@);
    text
}

/// Whether two texts are the same.
pub fn same_text(a: &str, b: &str) -> (same: bool)
    ensures
        same == (a@ == b@),
{
    a.to_string() == b.to_string()
}

/// The texts of a list.
pub open spec fn texts_view(texts: Seq<String>) -> Seq<Seq<char>> {
    texts.map_values(|text: String| text@)
}

/// A copy of a list of texts.
pub fn clone_texts(texts: &Vec<String>) -> (copy: Vec<String>)
    ensures
        texts_view(copy@) == texts_view(texts@),
{
    let mut copy: Vec<String> = Vec::new();
    let mut i: usize = 0;
    while i < texts.len()
        invariant
            i == copy.len(),
            i <= texts.len(),
            forall|j: int| 0 <= j < i ==> copy@[j]@ == texts@[j]@,
        decreases texts.len() - i,
    {
        copy.push(texts[i].clone());
        i += 1;
    }
    assert(texts_view(copy@) =~= texts_view(texts@));
    copy
}

/// A copy of a list of numbers.
pub fn clone_numbers(numbers: &Vec<i32>) -> (copy: Vec<i32>)
    ensures
        copy@ == numbers@,
{
    let mut copy: Vec<i32> = Vec::new();
    let mut i: usize = 0;
    while i < numbers.len()
        invariant
            i == copy.len(),
            i <= numbers.len(),
            forall|j: int| 0 <= j < i ==> copy@[j] == numbers@[j],
        decreases numbers.len() - i,
    {
        copy.push(numbers[i]);
        i += 1;
    }
    assert(copy@ =~= numbers@);
    copy
}

/// The UTF-16 units of one character: itself within the basic plane, a
/// surrogate pair above it.
pub open spec fn utf16_of_char(c: char) -> Seq<u16> {
    let code = c as int;
    if code < 0x10000 {
        seq![code as u16]
    } else {
        seq![
            (0xD800 + (code - 0x10000) / 0x400) as u16,
            (0xDC00 + (code - 0x10000) % 0x400) as u16,
        ]
    }
}

/// The UTF-16 units of a text.
pub open spec fn utf16(text: Seq<char>) -> Seq<u16>
    decreases text.len(),
{
    if text.len() == 0 {
        Seq::empty()
    } else {
        utf16(text.drop_last()) + utf16_of_char(text.last())
    }
}

/// Encoding one text after another is encoding the two joined.
pub proof fn utf16_of_joined(a: Seq<char>, b: Seq<char>)
    ensures
        utf16(a + b) == utf16(a) + utf16(b),
    decreases b.len(),
{
    if b.len() == 0 {
        assert(a + b =~= a);
        assert(utf16(a) + utf16(b) =~= utf16(a));
    } else {
        assert((a + b).drop_last() =~= a + b.drop_last());
        utf16_of_joined(a, b.drop_last());
        assert(utf16(a) + (utf16(b.drop_last()) + utf16_of_char(b.last())) =~= (utf16(a) + utf16(
            b.drop_last(),
        )) + utf16_of_char(b.last()));
    }
}

/// No text takes fewer UTF-16 units than it has characters, nor more than two
/// for each.
pub proof fn utf16_length_bounds(text: Seq<char>)
    ensures
        text.len() <= utf16(text).len() <= 2 * text.len(),
    decreases text.len(),
{
    if text.len() > 0 {
        utf16_length_bounds(text.drop_last());
    }
}

proof fn last_unit_of_char(c: char)
    ensures
        utf16_of_char(c).len() == if (c as int) < 0x10000 {
            1int
        } else {
            2
        },
        (0xDC00 <= utf16_of_char(c).last() <= 0xDFFF) == (c as int >= 0x10000),
        c as int >= 0x10000 ==> 0xD800 <= utf16_of_char(c)[0] <= 0xDBFF,
{
    if (c as int) < 0x10000 {
    } else {
        let above = c as int - 0x10000;
        assert(0 <= above / 0x400 < 0x400);
        assert(0 <= above % 0x400 < 0x400);
    }
}

proof fn same_units_same_char(x: char, y: char)
    requires
        utf16_of_char(x) == utf16_of_char(y),
    ensures
        x == y,
{
    last_unit_of_char(x);
    last_unit_of_char(y);
    assert(utf16_of_char(x)[0] == utf16_of_char(y)[0]);
    if x as int >= 0x10000 {
        assert(utf16_of_char(x)[1] == utf16_of_char(y)[1]);
        let above_x = x as int - 0x10000;
        let above_y = y as int - 0x10000;
        assert(0 <= above_x / 0x400 < 0x400);
        assert(0 <= above_y / 0x400 < 0x400);
    }
}

/// No two texts have the same UTF-16 units.
pub proof fn utf16_is_injective(a: Seq<char>, b: Seq<char>)
    requires
        utf16(a) == utf16(b),
    ensures
        a == b,
    decreases a.len(),
{
    utf16_length_bounds(a);
    utf16_length_bounds(b);
    if a.len() == 0 || b.len() == 0 {
        assert(a =~= b);
    } else {
        let x = a.last();
        let y = b.last();
        let ua = utf16(a.drop_last());
        let ub = utf16(b.drop_last());
        let units = utf16(a);
        last_unit_of_char(x);
        last_unit_of_char(y);
        assert(units.last() == utf16_of_char(x).last());
        assert(units.last() == utf16_of_char(y).last());
        let n = utf16_of_char(x).len() as int;
        assert(utf16_of_char(y).len() == n);
        assert(units.take(units.len() - n) =~= ua);
        assert(units.take(units.len() - n) =~= ub);
        assert(units.skip(units.len() - n) =~= utf16_of_char(x));
        assert(units.skip(units.len() - n) =~= utf16_of_char(y));
        same_units_same_char(x, y);
        utf16_is_injective(a.drop_last(), b.drop_last());
        assert(a =~= a.drop_last().push(x));
        assert(b =~= b.drop_last().push(y));
    }
}

/// `String::from_utf16`: the text that the units encode, where they encode
/// one.
#[verifier::external_body]
pub(crate) fn decode_utf16(units: &[u16]) -> (text: Option<String>)
    ensures
        match text {
            Some(text) => utf16(text@) == units@,
            None => forall|other: Seq<char>| #[trigger] utf16(other) != units@,
        },
{
    String::from_utf16(units).ok()
}

/// Whether a unit is the first of a surrogate pair.
pub open spec fn is_high(unit: u16) -> bool {
    0xD800 <= unit <= 0xDBFF
}

/// Whether a unit is the second of a surrogate pair.
pub open spec fn is_low(unit: u16) -> bool {
    0xDC00 <= unit <= 0xDFFF
}

/// What units decode to: a surrogate pair is one character, a unit that is no
/// surrogate is a character of its own, and a surrogate without its other half
/// becomes the replacement character.
pub open spec fn lossy_text(units: Seq<u16>) -> Seq<char>
    decreases units.len(),
{
    if units.len() == 0 {
        Seq::empty()
    } else if units.len() >= 2 && is_high(units[0]) && is_low(units[1]) {
        seq![(0x10000 + (units[0] - 0xD800) * 0x400 + (units[1] - 0xDC00)) as char] + lossy_text(
            units.skip(2),
        )
    } else if is_high(units[0]) || is_low(units[0]) {
        seq!['\u{FFFD}'] + lossy_text(units.skip(1))
    } else {
        seq![units[0] as char] + lossy_text(units.skip(1))
    }
}

proof fn decoding_takes_off_a_char(c: char, rest: Seq<u16>)
    ensures
        lossy_text(utf16_of_char(c) + rest) == seq![c] + lossy_text(rest),
{
    let units = utf16_of_char(c) + rest;
    last_unit_of_char(c);
    assert(units.skip(utf16_of_char(c).len() as int) =~= rest);
    if c as int >= 0x10000 {
        let above = c as int - 0x10000;
        assert(0 <= above / 0x400 < 0x400);
        assert(0 <= above % 0x400 < 0x400);
        assert(units[1] == utf16_of_char(c)[1]);
    }
}

/// What a text is encoded as decodes to the text.
pub proof fn decoding_reverses_encoding(text: Seq<char>)
    ensures
        lossy_text(utf16(text)) == text,
    decreases text.len(),
{
    if text.len() > 0 {
        let first = seq![text[0]];
        let rest = text.skip(1);
        assert(text =~= first + rest);
        utf16_of_joined(first, rest);
        assert(utf16(first) =~= utf16_of_char(text[0])) by {
            reveal_with_fuel(utf16, 2);
        }
        decoding_takes_off_a_char(text[0], utf16(rest));
        decoding_reverses_encoding(rest);
    }
}

/// `String::from_utf16_lossy`: the text that the units encode, with the
/// replacement character for each surrogate that is not one of a pair.
#[verifier::external_body]
pub(crate) fn decode_utf16_lossy(units: &[u16]) -> (text: String)
    ensures
        text@ == lossy_text(units@),
{
    String::from_utf16_lossy(units)
}

/// The text in the first `len` units of a buffer.
pub fn text_in_buffer(units: &[u16], len: usize) -> (text: String)
    requires
        len <= units@.len(),
    ensures
        text@ == lossy_text(units@.take(len as int)),
        forall|encoded: Seq<char>| #[trigger]
            utf16(encoded) == units@.take(len as int) ==> text@ == encoded,
{
    let (read, _) = units.split_at(len);
    assert(read@ =~= units@.take(len as int));
    proof {
        assert forall|encoded: Seq<char>| #[trigger]
            utf16(encoded) == units@.take(len as int) implies lossy_text(units@.take(len as int))
            == encoded by {
            decoding_reverses_encoding(encoded);
        }
    }
    decode_utf16_lossy(read)
}

/// What `String::from_utf8_lossy` makes of bytes.
pub uninterp spec fn lossy_utf8(bytes: Seq<u8>) -> Seq<char>;

/// `String::from_utf8_lossy`: the text that the bytes encode; bytes that encode
/// none are replaced, in a way that is not spelled out here.
#[verifier::external_body]
pub(crate) fn decode_utf8_lossy(bytes: &[u8]) -> (text: String)
    ensures
        text@ == lossy_utf8(bytes@),
        vstd::utf8::valid_utf8(bytes@) ==> text@ == vstd::utf8::decode_utf8(bytes@),
{
    String::from_utf8_lossy(bytes).into_owned()
}

/// The decimal digits of a number.
pub open spec fn decimal(n: nat) -> Seq<char>
    decreases n,
{
    if n < 10 {
        seq![(0x30 + n) as char]
    } else {
        decimal(n / 10).push((0x30 + n % 10) as char)
    }
}

/// A digit is written as itself.
pub proof fn a_digit_is_written_as_itself(digit: nat)
    requires
        digit <= 9,
    ensures
        decimal(digit) == seq![(0x30 + digit) as char],
        signed_decimal(digit as int) == seq![(0x30 + digit) as char],
{
}

/// Writing a digit behind a number is counting it in at the end.
pub proof fn a_number_is_written_digit_by_digit(n: nat, digit: nat)
    requires
        n > 0,
        digit <= 9,
    ensures
        decimal(10 * n + digit) == decimal(n).push((0x30 + digit) as char),
{
    assert((10 * n + digit) / 10 == n);
    assert((10 * n + digit) % 10 == digit);
}

/// A number as it is written: its digits, after a sign where it is negative.
pub open spec fn signed_decimal(n: int) -> Seq<char> {
    if n < 0 {
        seq!['-'] + decimal((-n) as nat)
    } else {
        decimal(n as nat)
    }
}

/// The decimal digits of a number.
pub fn decimal_text(n: u64) -> (text: String)
    ensures
        text@ == decimal(n as nat),
    decreases n,
{
    let mut text = if n < 10 {
        String::new()
    } else {
        decimal_text(n / 10)
    };
    let digit: u32 = 0x30 + (n % 10) as u32;
    text.push(char::from_u32(digit).unwrap_or('0'));
    assert(text@ =~= decimal(n as nat));
    text
}

/// A number as it is written.
pub fn signed_decimal_text(n: i64) -> (text: String)
    requires
        n > i64::MIN,
    ensures
        text@ == signed_decimal(n as int),
{
    if n < 0 {
        let mut text = String::new();
        text.push('-');
        let digits = decimal_text((-n) as u64);
        text.push_str(&digits);
        assert(text@ =~= signed_decimal(n as int));
        text
    } else {
        decimal_text(n as u64)
    }
}

/// The scalar value of a character.
pub fn code_of(c: char) -> (code: u32)
    ensures
        code == c as int,
        is_scalar(code),
{
    c as u32
}

/// The UTF-16 units of a text.
pub fn encode_utf16(text: &str) -> (units: Vec<u16>)
    ensures
        units@ == utf16(text@),
{
    let chars = chars_of(text);
    let mut units: Vec<u16> = Vec::new();
    let mut i: usize = 0;
    while i < chars.len()
        invariant
            i <= chars.len(),
            chars@ == text@,
            units@ == utf16(chars@.take(i as int)),
        decreases chars.len() - i,
    {
        let c: char = chars[i];
        let code: u32 = code_of(c);
        proof {
            assert(chars@.take(i + 1).drop_last() =~= chars@.take(i as int));
        }
        let ghost before = units@;
        if code < 0x10000 {
            units.push(code as u16);
            assert(units@ =~= before + utf16_of_char(c));
        } else {
            let above: u32 = code - 0x10000;
            units.push((0xD800 + above / 0x400) as u16);
            units.push((0xDC00 + above % 0x400) as u16);
            assert(units@ =~= before + utf16_of_char(c));
        }
        i += 1;
    }
    assert(chars@.take(chars@.len() as int) =~= chars@);
    units
}

/// Numbers in decimal, with a comma and a space between two.
pub open spec fn decimal_list(numbers: Seq<u32>) -> Seq<char>
    decreases numbers.len(),
{
    if numbers.len() == 0 {
        Seq::empty()
    } else if numbers.len() == 1 {
        decimal(numbers[0] as nat)
    } else {
        decimal_list(numbers.drop_last()) + ", "@ + decimal(numbers.last() as nat)
    }
}

/// Numbers in square brackets, with a comma and a space between two.
pub open spec fn bracketed(numbers: Seq<u32>) -> Seq<char> {
    "["@ + decimal_list(numbers) + "]"@
}

/// Numbers in square brackets, with a comma and a space between two.
pub fn bracketed_text(numbers: &[u32]) -> (text: String)
    ensures
        text@ == bracketed(numbers@),
{
    let mut text = "[".to_string();
    let mut i: usize = 0;
    assert(text@ =~= "["@ + decimal_list(numbers@.take(0)));
    while i < numbers.len()
        invariant
            i <= numbers.len(),
            text@ == "["@ + decimal_list(numbers@.take(i as int)),
        decreases numbers.len() - i,
    {
        if i > 0 {
            text.push_str(", ");
        }
        text.push_str(&decimal_text(numbers[i] as u64));
        let ghost next = numbers@.take(i + 1);
        assert(next.drop_last() =~= numbers@.take(i as int));
        assert(next.last() == numbers@[i as int]);
        assert(text@ =~= "["@ + decimal_list(next)) by {
            if i == 0 {
                assert(decimal_list(numbers@.take(0)) =~= Seq::empty());
            }
        }
        i += 1;
    }
    assert(numbers@.take(numbers@.len() as int) =~= numbers@);
    text.push_str("]");
    text
}

/// A character of the basic plane is its own unit; one above it is a pair, the
/// first of which carries the upper ten bits of what is above the plane and the
/// second the lower.
pub proof fn a_pair_carries_what_is_above_the_plane(c: char)
    ensures
        (c as int) < 0x10000 ==> utf16(seq![c]) == seq![c as u16],
        c as int >= 0x10000 ==> {
            let units = utf16(seq![c]);
            &&& units.len() == 2
            &&& is_high(units[0])
            &&& is_low(units[1])
            &&& c as int == 0x10000 + (units[0] - 0xD800) * 0x400 + (units[1] - 0xDC00)
        },
{
    reveal_with_fuel(utf16, 2);
    assert(seq![c].drop_last() =~= Seq::empty());
    assert(utf16(seq![c]) =~= utf16_of_char(c));
    last_unit_of_char(c);
    if c as int >= 0x10000 {
        let above = c as int - 0x10000;
        assert(0 <= above / 0x400 < 0x400);
        assert(0 <= above % 0x400 < 0x400);
    }
}

/// A surrogate without its other half is replaced, by one character and without
/// taking anything with it.
pub proof fn a_lone_surrogate_is_replaced(unit: u16, rest: Seq<u16>)
    requires
        is_high(unit) || is_low(unit),
        is_high(unit) ==> rest.len() == 0 || !is_low(rest[0]),
    ensures
        lossy_text(seq![unit] + rest) == seq!['\u{FFFD}'] + lossy_text(rest),
{
    assert((seq![unit] + rest).skip(1) =~= rest);
}

/// A list grows by a comma, a space and the number.
pub proof fn a_list_of_numbers_grows_at_its_end(numbers: Seq<u32>, number: u32)
    requires
        numbers.len() > 0,
    ensures
        decimal_list(numbers.push(number)) == decimal_list(numbers) + ", "@ + decimal(
            number as nat,
        ),
        decimal_list(seq![number]) == decimal(number as nat),
{
    assert(numbers.push(number).drop_last() =~= numbers);
}

} // verus!

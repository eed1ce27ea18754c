//! Texts, identifiers and key states in the forms that the system takes.

use vstd::prelude::*;

use crate::strings::encode_utf16;
#[allow(unused_imports)]
use crate::strings::utf16;

verus! {

/// The bytes of UTF-16 units, the low one of each first.
pub open spec fn le_bytes(units: Seq<u16>) -> Seq<u8> {
    Seq::new(
        2 * units.len(),
        |i: int|
            if i % 2 == 0 {
                (units[i / 2] % 256) as u8
            } else {
                (units[i / 2] / 256) as u8
            },
    )
}

/// A text as the system takes it.
pub trait StringExt {
    /// The characters of the text.
    spec fn characters(&self) -> Seq<char>;

    /// The UTF-16 units of the text, and a zero.
    fn to_wide_16(&self) -> (units: Vec<u16>)
        ensures
            units@ == utf16(self.characters()).push(0),
    ;

    /// The UTF-16 units of the text.
    fn to_wide_16_unpadded(&self) -> (units: Vec<u16>)
        ensures
            units@ == utf16(self.characters()),
    ;

    /// The bytes of the text in UTF-16, and those of a zero.
    fn to_wide(&self) -> (bytes: Vec<u8>)
        ensures
            bytes@ == le_bytes(utf16(self.characters()).push(0)),
    ;
}

impl StringExt for str {
    open spec fn characters(&self) -> Seq<char> {
        self@
    }

    fn to_wide_16(&self) -> (units: Vec<u16>) {
        let mut units = encode_utf16(self);
        units.push(0);
        units
    }

    fn to_wide_16_unpadded(&self) -> (units: Vec<u16>) {
        encode_utf16(self)
    }

    fn to_wide(&self) -> (bytes: Vec<u8>) {
        let units = self.to_wide_16();
        let mut bytes: Vec<u8> = Vec::new();
        let mut i: usize = 0;
        while i < units.len()
            invariant
                i <= units.len(),
                bytes@ == le_bytes(units@.take(i as int)),
            decreases units.len() - i,
        {
            let unit: u16 = units[i];
            let ghost before = bytes@;
            bytes.push((unit % 256) as u8);
            bytes.push((unit / 256) as u8);
            i += 1;
            proof {
                let shorter = units@.take(i - 1);
                let longer = units@.take(i as int);
                assert forall|j: int| 0 <= j < bytes@.len() implies bytes@[j] == le_bytes(
                    longer,
                )[j] by {
                    if j < before.len() {
                        assert(before[j] == le_bytes(shorter)[j]);
                        assert(shorter[j / 2] == longer[j / 2]);
                    } else {
                        assert(j / 2 == i - 1);
                        assert(longer[j / 2] == unit);
                    }
                }
                assert(bytes@ =~= le_bytes(longer));
            }
        }
        assert(units@.take(units@.len() as int) =~= units@);
        bytes
    }
}

/// The bytes that a text is stored as are even in number and end in a zero of
/// two bytes, whatever the text.
pub proof fn stored_text_ends_in_a_two_byte_zero(text: Seq<char>)
    ensures
        ({
            let bytes = le_bytes(utf16(text).push(0));
            &&& bytes.len() % 2 == 0
            &&& bytes.len() >= 2
            &&& bytes[bytes.len() - 2] == 0
            &&& bytes[bytes.len() - 1] == 0
        }),
{
    let units = utf16(text).push(0);
    let n = units.len() as int;
    assert((2 * n - 2) / 2 == n - 1);
    assert((2 * n - 1) / 2 == n - 1);
    assert((2 * n - 2) % 2 == 0);
    assert((2 * n - 1) % 2 == 1);
}

/// A hexadecimal digit, in lower case.
pub open spec fn hex_digit(value: int) -> char {
    if value < 10 {
        (0x30 + value) as char
    } else {
        (0x57 + value) as char
    }
}

/// The power of sixteen.
pub open spec fn pow16(n: nat) -> nat
    decreases n,
{
    if n == 0 {
        1
    } else {
        16 * pow16((n - 1) as nat)
    }
}

/// The last `digits` hexadecimal digits of a number.
pub open spec fn hex(value: nat, digits: nat) -> Seq<char>
    decreases digits,
{
    if digits == 0 {
        Seq::empty()
    } else {
        hex(value / 16, (digits - 1) as nat).push(hex_digit((value % 16) as int))
    }
}

/// A GUID as the registry writes it: its 32 digits in braces, in groups of 8,
/// 4, 4, 4 and 12.
pub open spec fn guid_text(guid: u128) -> Seq<char> {
    let digits = hex(guid as nat, 32);
    seq!['{'] + digits.subrange(0, 8) + seq!['-'] + digits.subrange(8, 12) + seq!['-']
        + digits.subrange(12, 16) + seq!['-'] + digits.subrange(16, 20) + seq!['-']
        + digits.subrange(20, 32) + seq!['}']
}

fn hex_char(value: u8) -> (digit: char)
    requires
        value < 16,
    ensures
        digit == hex_digit(value as int),
{
    if value < 10 {
        char::from_u32(0x30 + value as u32).unwrap_or('0')
    } else {
        char::from_u32(0x57 + value as u32).unwrap_or('0')
    }
}

/// The last `digits` hexadecimal digits of a number.
pub fn hex_digits(value: u128, digits: usize) -> (text: Vec<char>)
    ensures
        text@ == hex(value as nat, digits as nat),
    decreases digits,
{
    if digits == 0 {
        let text: Vec<char> = Vec::new();
        assert(text@ =~= hex(value as nat, 0));
        text
    } else {
        let mut text = hex_digits(value / 16, digits - 1);
        text.push(hex_char((value % 16) as u8));
        text
    }
}

proof fn hex_length(value: nat, digits: nat)
    ensures
        hex(value, digits).len() == digits,
    decreases digits,
{
    if digits > 0 {
        hex_length(value / 16, (digits - 1) as nat);
    }
}

fn push_chars(text: &mut String, chars: &Vec<char>, from: usize, to: usize)
    requires
        from <= to <= chars@.len(),
    ensures
        final(text)@ == old(text)@ + chars@.subrange(from as int, to as int),
{
    let ghost before = text@;
    let mut i: usize = from;
    assert(text@ =~= before + chars@.subrange(from as int, from as int));
    while i < to
        invariant
            from <= i <= to <= chars@.len(),
            text@ == before + chars@.subrange(from as int, i as int),
        decreases to - i,
    {
        text.push(chars[i]);
        i += 1;
        assert(text@ =~= before + chars@.subrange(from as int, i as int));
    }
}

/// An identifier as the registry writes it.
pub trait GUIDExt {
    /// The number that the identifier's digits spell.
    spec fn number(&self) -> u128;

    /// The identifier as the registry writes it.
    fn to_string(&self) -> (text: String)
        ensures
            text@ == guid_text(self.number()),
    ;
}

impl GUIDExt for u128 {
    open spec fn number(&self) -> u128 {
        *self
    }

    fn to_string(&self) -> (text: String) {
        let digits = hex_digits(*self, 32);
        proof {
            hex_length(*self as nat, 32);
        }
        let mut text = String::new();
        text.push('{');
        push_chars(&mut text, &digits, 0, 8);
        text.push('-');
        push_chars(&mut text, &digits, 8, 12);
        text.push('-');
        push_chars(&mut text, &digits, 12, 16);
        text.push('-');
        push_chars(&mut text, &digits, 16, 20);
        text.push('-');
        push_chars(&mut text, &digits, 20, 32);
        text.push('}');
        assert(text@ =~= guid_text(*self));
        text
    }
}

/// Every identifier is written with 38 characters: no digit is left out for
/// being zero.
pub proof fn guid_text_has_its_canonical_shape(guid: u128)
    ensures
        guid_text(guid).len() == 38,
        guid_text(guid)[0] == '{',
        guid_text(guid)[9] == '-',
        guid_text(guid)[14] == '-',
        guid_text(guid)[19] == '-',
        guid_text(guid)[24] == '-',
        guid_text(guid)[37] == '}',
{
    hex_length(guid as nat, 32);
}

proof fn hex_is_injective(a: nat, b: nat, digits: nat)
    requires
        hex(a, digits) == hex(b, digits),
        a < pow16(digits),
        b < pow16(digits),
    ensures
        a == b,
    decreases digits,
{
    if digits > 0 {
        let n = (digits - 1) as nat;
        let x = hex(a, digits);
        let y = hex(b, digits);
        assert(x.last() == hex_digit((a % 16) as int));
        assert(y.last() == hex_digit((b % 16) as int));
        assert(a % 16 == b % 16);
        assert(x.drop_last() =~= hex(a / 16, n));
        assert(y.drop_last() =~= hex(b / 16, n));
        hex_is_injective(a / 16, b / 16, n);
    }
}

/// Two identifiers are written alike only where they are the same.
pub proof fn guid_texts_differ(a: u128, b: u128)
    requires
        guid_text(a) == guid_text(b),
    ensures
        a == b,
{
    hex_length(a as nat, 32);
    hex_length(b as nat, 32);
    let x = hex(a as nat, 32);
    let y = hex(b as nat, 32);
    assert forall|i: int| 0 <= i < 32 implies x[i] == y[i] by {
        let at = if i < 8 {
            i + 1
        } else if i < 12 {
            i + 2
        } else if i < 16 {
            i + 3
        } else if i < 20 {
            i + 4
        } else {
            i + 5
        };
        assert(guid_text(a)[at] == x[i]);
        assert(guid_text(b)[at] == y[i]);
    }
    assert(x =~= y);
    assert(pow16(32) == 0x1_0000_0000_0000_0000_0000_0000_0000_0000nat) by {
        reveal_with_fuel(pow16, 33);
    }
    hex_is_injective(a as nat, b as nat, 32);
}

/// The state of a key as the system reports it.
pub trait VKeyExt {
    /// What the system reports.
    spec fn reported(self) -> i16 where Self: Sized;

    /// Whether the key is down: the highest bit of what is reported says so.
    fn is_pressed(self) -> (pressed: bool) where Self: Sized
        ensures
            pressed == (self.reported() < 0),
    ;
}

impl VKeyExt for i16 {
    open spec fn reported(self) -> i16 {
        self
    }

    fn is_pressed(self) -> (pressed: bool) {
        self < 0
    }
}

/// Each unit is stored as two bytes, the low one first.
pub proof fn a_unit_is_stored_low_byte_first(units: Seq<u16>, i: int)
    requires
        0 <= i < units.len(),
    ensures
        le_bytes(units).len() == 2 * units.len(),
        le_bytes(units)[2 * i] + 256 * le_bytes(units)[2 * i + 1] == units[i],
{
    assert((2 * i) / 2 == i);
    assert((2 * i) % 2 == 0);
    assert((2 * i + 1) / 2 == i);
    assert((2 * i + 1) % 2 == 1);
}

/// A number is written digit by digit, with the letters from `a` to `f` for those
/// above nine.
pub proof fn a_number_is_written_in_sixteen_digits(value: nat, digit: nat, digits: nat)
    requires
        digit < 16,
    ensures
        ({
            let text = hex(16 * value + digit, digits + 1);
            &&& text.len() == digits + 1
            &&& text.drop_last() == hex(value, digits)
            &&& text.last() as int == if digit < 10 {
                '0' as int + digit
            } else {
                'a' as int + (digit - 10)
            }
        }),
{
    hex_length(16 * value + digit, digits + 1);
    assert((16 * value + digit) / 16 == value);
    assert((16 * value + digit) % 16 == digit);
    assert(hex(16 * value + digit, digits + 1).drop_last() =~= hex(value, digits));
}

/// The digits of an identifier stand in their order, eight before the first
/// hyphen, four between each two, and twelve after the last.
pub proof fn the_digits_of_an_identifier_keep_their_order(guid: u128, i: int)
    requires
        0 <= i < 32,
    ensures
        guid_text(guid)[if i < 8 {
            i + 1
        } else if i < 12 {
            i + 2
        } else if i < 16 {
            i + 3
        } else if i < 20 {
            i + 4
        } else {
            i + 5
        }] == hex(guid as nat, 32)[i],
{
    hex_length(guid as nat, 32);
}

} // verus!

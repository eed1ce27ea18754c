//! The keys that type a text.

use vstd::prelude::*;

use crate::strings::chars_of;

verus! {

/// The keys by name, as virtual key codes.
pub const VK_BACK: u16 = 0x08;

pub const VK_RETURN: u16 = 0x0D;

pub const VK_ESCAPE: u16 = 0x1B;

pub const VK_SPACE: u16 = 0x20;

/// Between two keystrokes, in milliseconds.
pub const KEY_INTERVAL: u64 = 40;

/// For how long a key is down, in milliseconds.
pub const KEY_DOWN: u64 = 15;

/// The space bar.
pub fn space() -> (key: u16)
    ensures
        key == VK_SPACE,
{
    VK_SPACE
}

/// The enter key.
pub fn enter() -> (key: u16)
    ensures
        key == VK_RETURN,
{
    VK_RETURN
}

/// The escape key.
pub fn escape() -> (key: u16)
    ensures
        key == VK_ESCAPE,
{
    VK_ESCAPE
}

/// The backspace key.
pub fn backspace() -> (key: u16)
    ensures
        key == VK_BACK,
{
    VK_BACK
}

/// The key that types a character: a letter's key has the code of the capital
/// letter, a digit's and the space bar's that of the character itself.
pub open spec fn key_of(c: char) -> Option<u16> {
    if 'a' <= c <= 'z' {
        Some((c as int - 0x20) as u16)
    } else if 'A' <= c <= 'Z' || '0' <= c <= '9' || c == ' ' {
        Some(c as u16)
    } else {
        None
    }
}

/// The key that types a character, where the harness knows one.
pub fn virtual_key(c: char) -> (key: Option<u16>)
    ensures
        key == key_of(c),
{
    let code = c as u32;
    if 'a' <= c && c <= 'z' {
        Some((code - 0x20) as u16)
    } else if ('A' <= c && c <= 'Z') || ('0' <= c && c <= '9') || c == ' ' {
        Some(code as u16)
    } else {
        None
    }
}

/// What typing a text comes to.
#[derive(Debug)]
pub struct Typing {
    /// The keys that are tapped.
    pub keys: Vec<u16>,
    /// The character at which it stops, for want of a key.
    pub refused: Option<char>,
}

/// The keys of the characters before the first one that has none.
pub open spec fn keys_for(text: Seq<char>) -> Seq<u16>
    decreases text.len(),
{
    if text.len() == 0 {
        Seq::empty()
    } else {
        match key_of(text[0]) {
            Some(key) => seq![key] + keys_for(text.skip(1)),
            None => Seq::empty(),
        }
    }
}

/// The first character that has no key.
pub open spec fn first_refused(text: Seq<char>) -> Option<char>
    decreases text.len(),
{
    if text.len() == 0 {
        None
    } else if key_of(text[0]) is None {
        Some(text[0])
    } else {
        first_refused(text.skip(1))
    }
}

/// The keys that type a text, up to the first character that has none.
pub fn type_ascii(text: &str) -> (typing: Typing)
    ensures
        typing.keys@ == keys_for(text@),
        typing.refused == first_refused(text@),
{
    let chars = chars_of(text);
    let mut keys: Vec<u16> = Vec::new();
    let mut i: usize = 0;
    assert(chars@.skip(0) =~= chars@);
    assert(keys@ + keys_for(chars@) =~= keys_for(chars@));
    while i < chars.len()
        invariant
            i <= chars.len(),
            chars@ == text@,
            keys@ + keys_for(chars@.skip(i as int)) == keys_for(text@),
            first_refused(chars@.skip(i as int)) == first_refused(text@),
        decreases chars.len() - i,
    {
        let ghost rest = chars@.skip(i as int);
        let ghost before = keys@;
        assert(rest.skip(1) =~= chars@.skip(i + 1));
        match virtual_key(chars[i]) {
            Some(key) => {
                keys.push(key);
                assert(before + keys_for(rest) =~= keys@ + keys_for(rest.skip(1)));
            },
            None => {
                assert(before + keys_for(rest) =~= before);
                return Typing { keys, refused: Some(chars[i]) };
            },
        }
        i += 1;
    }
    assert(keys@ + keys_for(chars@.skip(i as int)) =~= keys@);
    Typing { keys, refused: None }
}

/// Every character of a text that is typed to its end has its key.
pub proof fn a_typed_text_is_typed_whole(text: Seq<char>)
    requires
        first_refused(text) is None,
    ensures
        keys_for(text).len() == text.len(),
        forall|i: int|
            0 <= i < text.len() ==> key_of(#[trigger] text[i]) == Some(keys_for(text)[i]),
    decreases text.len(),
{
    if text.len() > 0 {
        a_typed_text_is_typed_whole(text.skip(1));
        assert forall|i: int| 0 <= i < text.len() implies key_of(#[trigger] text[i]) == Some(
            keys_for(text)[i],
        ) by {
            if i > 0 {
                assert(text.skip(1)[i - 1] == text[i]);
            }
        }
    }
}

/// A letter has one key in either case, the digits and the space bar have the
/// code of their character, and nothing else has a key.
pub proof fn a_letter_has_one_key(c: char)
    ensures
        ({
            let code = c as int;
            let key = key_of(c);
            if 0x61 <= code <= 0x7A {
                key matches Some(key) && key == code - 0x20
            } else if 0x41 <= code <= 0x5A || 0x30 <= code <= 0x39 || code == 0x20 {
                key matches Some(key) && key == code
            } else {
                key is None
            }
        }),
{
}

} // verus!

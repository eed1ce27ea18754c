//! What a key means.

use vstd::prelude::*;

use super::client_action::SetTextType;
use crate::failure::Failure;
#[allow(unused_imports)]
use crate::globals::switches_mode;
use crate::globals::{VK_CAPITAL, VK_DBE_DBCSCHAR, VK_DBE_SBCSCHAR, VK_KANA, VK_KANJI};
use crate::strings::decode_utf16;
#[allow(unused_imports)]
use crate::strings::{utf16, utf16_is_injective};

verus! {

/// The text that a key types, from what the keyboard layout answered for it: a
/// count and a buffer of UTF-16 units.
///
/// A negative count is a dead key, whose accent is no text of its own, and
/// zero a key without a character. Otherwise that many units are the text, so
/// long as the buffer holds them and they encode one.
pub fn decoded_text(count: i32, units: &[u16]) -> (text: Option<String>)
    ensures
        match text {
            Some(text) => 0 < count <= units@.len() && utf16(text@) == units@.take(count as int),
            None => count <= 0 || count > units@.len() || forall|other: Seq<char>|
                #[trigger] utf16(other) != units@.take(count as int),
        },
{
    if count <= 0 || count as usize > units.len() {
        return None;
    }
    let (typed, _) = units.split_at(count as usize);
    assert(typed@ =~= units@.take(count as int));
    decode_utf16(typed)
}

/// The key state without the locks that must not color what a key types: the
/// kana lock would type kana, and Caps Lock capitals, where the engine takes
/// plain romaji.
pub fn without_input_locks(key_state: [u8; 256]) -> (cleared: [u8; 256])
    ensures
        cleared@ == key_state@.update(VK_KANA as int, 0).update(VK_CAPITAL as int, 0),
{
    let mut cleared = key_state;
    cleared[VK_KANA] = 0;
    cleared[VK_CAPITAL] = 0;
    cleared
}

/// Whether a virtual key switches the input mode.
pub fn is_ime_toggle_key(key_code: usize) -> (toggles: bool)
    ensures
        toggles == switches_mode(key_code as int),
{
    key_code == VK_DBE_SBCSCHAR as usize || key_code == VK_DBE_DBCSCHAR as usize || key_code
        == VK_KANJI as usize
}

/// What a key-down message says of a key that is held: how many presses the
/// message stands for, and whether the key was down already.
#[derive(Debug, Clone, Copy, PartialEq, Eq, Structural)]
pub struct KeyRepeat {
    pub count: u32,
    pub is_repeat: bool,
}

impl KeyRepeat {
    /// One deliberate press.
    pub fn single() -> (repeat: KeyRepeat)
        ensures
            repeat == (KeyRepeat { count: 1, is_repeat: false }),
    {
        KeyRepeat { count: 1, is_repeat: false }
    }
}

/// What the 32 bits of a key-down message's parameter say: the low half is the
/// count of presses, at least one, and bit 30 whether the key was down before.
pub open spec fn repeat_of(word: u32) -> KeyRepeat {
    KeyRepeat {
        count: if word % 0x10000 == 0 {
            1
        } else {
            word % 0x10000
        },
        is_repeat: (word / 0x4000_0000) % 2 == 1,
    }
}

/// Reads the fields of a key-down message's parameter.
pub fn key_repeat(lparam: isize) -> (repeat: KeyRepeat)
    ensures
        repeat == repeat_of(lparam as u32),
{
    let word: u32 = #[verifier::truncate] (lparam as u32);
    assert(word & 0xFFFF == word % 0x10000) by (bit_vector);
    assert((word & 0x4000_0000 != 0) == ((word / 0x4000_0000) % 2 == 1)) by (bit_vector);
    let low: u32 = word & 0xFFFF;
    KeyRepeat {
        count: if low == 0 {
            1
        } else {
            low
        },
        is_repeat: word & 0x4000_0000 != 0,
    }
}

/// What a key means to the composition.
#[derive(Debug)]
pub enum UserAction {
    /// The text that the key types; one key can type several characters.
    Input(String),
    /// So many presses of Backspace at once.
    Backspace { count: u32 },
    Enter,
    Space,
    Tab,
    Escape,
    Unknown,
    Navigation(Navigation),
    /// Rewrite the whole reading in a form.
    Function(SetTextType),
    Number(i8),
    ToggleInputMode,
    /// A key by which the host edits. While something is composed it is taken
    /// and does nothing, for the host would edit the document underneath.
    EditingKey,
}

#[derive(Debug, Clone, Copy, PartialEq, Eq, Structural)]
pub enum Navigation {
    Up,
    Down,
    Left,
    Right,
}

/// A key's meaning as plain values.
pub enum Meaning {
    Input(Seq<char>),
    Backspace(u32),
    Enter,
    Space,
    Tab,
    Escape,
    Unknown,
    Navigation(Navigation),
    Function(SetTextType),
    Number(i8),
    ToggleInputMode,
    EditingKey,
}

impl View for UserAction {
    type V = Meaning;

    open spec fn view(&self) -> Meaning {
        match *self {
            UserAction::Input(text) => Meaning::Input(text@),
            UserAction::Backspace { count } => Meaning::Backspace(count),
            UserAction::Enter => Meaning::Enter,
            UserAction::Space => Meaning::Space,
            UserAction::Tab => Meaning::Tab,
            UserAction::Escape => Meaning::Escape,
            UserAction::Unknown => Meaning::Unknown,
            UserAction::Navigation(direction) => Meaning::Navigation(direction),
            UserAction::Function(form) => Meaning::Function(form),
            UserAction::Number(number) => Meaning::Number(number),
            UserAction::ToggleInputMode => Meaning::ToggleInputMode,
            UserAction::EditingKey => Meaning::EditingKey,
        }
    }
}

/// The meaning of a virtual key that has one of its own; the others mean what
/// they type. A digit, of the main block or the keypad, is one only without
/// Shift.
pub open spec fn fixed_meaning(key_code: int, repeat: KeyRepeat, shift: bool) -> Option<Meaning> {
    if key_code == 0x08 {
        Some(Meaning::Backspace(repeat.count))
    } else if key_code == 0x09 {
        Some(Meaning::Tab)
    } else if key_code == 0x0D {
        Some(Meaning::Enter)
    } else if key_code == 0x20 {
        Some(Meaning::Space)
    } else if key_code == 0x1B {
        Some(Meaning::Escape)
    } else if 0x21 <= key_code <= 0x24 || key_code == 0x2D || key_code == 0x2E {
        Some(Meaning::EditingKey)
    } else if key_code == 0x25 {
        Some(Meaning::Navigation(Navigation::Left))
    } else if key_code == 0x26 {
        Some(Meaning::Navigation(Navigation::Up))
    } else if key_code == 0x27 {
        Some(Meaning::Navigation(Navigation::Right))
    } else if key_code == 0x28 {
        Some(Meaning::Navigation(Navigation::Down))
    } else if 0x30 <= key_code <= 0x39 && !shift {
        Some(Meaning::Number((key_code - 0x30) as i8))
    } else if 0x60 <= key_code <= 0x69 && !shift {
        Some(Meaning::Number((key_code - 0x60) as i8))
    } else if key_code == 0x75 {
        Some(Meaning::Function(SetTextType::Hiragana))
    } else if key_code == 0x76 {
        Some(Meaning::Function(SetTextType::Katakana))
    } else if key_code == 0x77 {
        Some(Meaning::Function(SetTextType::HalfKatakana))
    } else if key_code == 0x78 {
        Some(Meaning::Function(SetTextType::FullLatin))
    } else if key_code == 0x79 {
        Some(Meaning::Function(SetTextType::HalfLatin))
    } else if switches_mode(key_code) {
        Some(Meaning::ToggleInputMode)
    } else {
        None
    }
}

impl UserAction {
    /// The meaning of a virtual key that has one of its own, whatever it
    /// types.
    pub fn of_key(key_code: usize, repeat: KeyRepeat, shift: bool) -> (action: Option<UserAction>)
        ensures
            match action {
                Some(action) => fixed_meaning(key_code as int, repeat, shift) == Some(action@),
                None => fixed_meaning(key_code as int, repeat, shift) is None,
            },
    {
        let action = match key_code {
            0x08 => UserAction::Backspace { count: repeat.count },
            0x09 => UserAction::Tab,
            0x0D => UserAction::Enter,
            0x20 => UserAction::Space,
            0x1B => UserAction::Escape,
            0x21 | 0x22 | 0x23 | 0x24 | 0x2D | 0x2E => UserAction::EditingKey,
            0x25 => UserAction::Navigation(Navigation::Left),
            0x26 => UserAction::Navigation(Navigation::Up),
            0x27 => UserAction::Navigation(Navigation::Right),
            0x28 => UserAction::Navigation(Navigation::Down),
            0x75 => UserAction::Function(SetTextType::Hiragana),
            0x76 => UserAction::Function(SetTextType::Katakana),
            0x77 => UserAction::Function(SetTextType::HalfKatakana),
            0x78 => UserAction::Function(SetTextType::FullLatin),
            0x79 => UserAction::Function(SetTextType::HalfLatin),
            _ => if !shift && 0x30 <= key_code && key_code <= 0x39 {
                UserAction::Number((key_code - 0x30) as i8)
            } else if !shift && 0x60 <= key_code && key_code <= 0x69 {
                UserAction::Number((key_code - 0x60) as i8)
            } else if is_ime_toggle_key(key_code) {
                UserAction::ToggleInputMode
            } else {
                return None;
            },
        };
        Some(action)
    }

    /// What a virtual key means: its own meaning, or else the text that it
    /// types, where it types any. `typed` is what the keyboard layout says of
    /// it and may be a failure to ask; it matters for no key that has a
    /// meaning of its own.
    pub fn decode(
        key_code: usize,
        repeat: KeyRepeat,
        shift: bool,
        typed: Result<Option<String>, Failure>,
    ) -> (action: Result<UserAction, Failure>)
        ensures
            match fixed_meaning(key_code as int, repeat, shift) {
                Some(meaning) => action is Ok && action->Ok_0@ == meaning,
                None => match typed {
                    Ok(Some(text)) => action is Ok && action->Ok_0@ == Meaning::Input(text@),
                    Ok(None) => action is Ok && action->Ok_0@ == Meaning::Unknown,
                    Err(failure) => action == Err::<UserAction, Failure>(failure),
                },
            },
    {
        match UserAction::of_key(key_code, repeat, shift) {
            Some(action) => Ok(action),
            None => match typed {
                Ok(Some(text)) => Ok(UserAction::Input(text)),
                Ok(None) => Ok(UserAction::Unknown),
                Err(failure) => Err(failure),
            },
        }
    }
}

/// The text that a key types is the only one its units encode.
pub proof fn decoded_text_is_unique(text: Seq<char>, other: Seq<char>, units: Seq<u16>)
    requires
        utf16(text) == units,
        utf16(other) == units,
    ensures
        text == other,
{
    utf16_is_injective(text, other);
}

/// Only Backspace carries the count of a held key.
pub proof fn only_backspace_carries_the_count(
    key_code: int,
    repeat: KeyRepeat,
    other: KeyRepeat,
    shift: bool,
)
    requires
        key_code != 0x08,
    ensures
        fixed_meaning(key_code, repeat, shift) == fixed_meaning(key_code, other, shift),
{
}

/// What a key is for is seen as what it is, with what it carries.
pub proof fn a_key_press_is_seen_as_it_is(
    text: String,
    count: u32,
    direction: Navigation,
    form: SetTextType,
    number: i8,
)
    ensures
        UserAction::Input(text)@ == Meaning::Input(text@),
        (UserAction::Backspace { count })@ == Meaning::Backspace(count),
        UserAction::Enter@ == Meaning::Enter,
        UserAction::Space@ == Meaning::Space,
        UserAction::Tab@ == Meaning::Tab,
        UserAction::Escape@ == Meaning::Escape,
        UserAction::Unknown@ == Meaning::Unknown,
        UserAction::Navigation(direction)@ == Meaning::Navigation(direction),
        UserAction::Function(form)@ == Meaning::Function(form),
        UserAction::Number(number)@ == Meaning::Number(number),
        UserAction::ToggleInputMode@ == Meaning::ToggleInputMode,
        UserAction::EditingKey@ == Meaning::EditingKey,
{
}

} // verus!

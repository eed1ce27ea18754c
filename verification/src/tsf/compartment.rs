//! The input mode as the system keeps it for every program to see.
//!
//! The system's value is the one that counts; the mode that is kept here
//! follows it.

use vstd::prelude::*;

use super::text_service::TextService;
use crate::engine::input_mode::InputMode;

verus! {

pub const GUID_COMPARTMENT_KEYBOARD_OPENCLOSE: u128 = 0x58273aad_01bb_4164_95c6_755ba0b5162d;

pub const GUID_COMPARTMENT_KEYBOARD_INPUTMODE_CONVERSION: u128 =
    0xccf05dd8_4a87_11d7_a6e2_00065b84435c;

pub const GUID_COMPARTMENT_KEYBOARD_DISABLED: u128 = 0x71a5b253_1951_466b_9fbc_9c8808fa84f2;

pub const GUID_COMPARTMENT_EMPTYCONTEXT: u128 = 0xd7487dbf_804e_41c5_894d_ad96fd4eea13;

/// The conversion mode of kana input: native, full-width, typed in roman
/// letters.
pub const CONVERSION_KANA: i32 = 25;

/// The conversion mode of direct input.
pub const CONVERSION_LATIN: i32 = 0;

/// The two values that a mode is published as: whether the input method is
/// open, and the conversion mode.
pub open spec fn encoded(mode: InputMode) -> (i32, i32) {
    match mode {
        InputMode::Kana => (1, CONVERSION_KANA),
        InputMode::Latin => (0, CONVERSION_LATIN),
    }
}

/// The mode that two published values mean. A closed input method is direct
/// input, whatever its conversion mode. An open one is kana input where the
/// conversion mode is native, which an odd number says, and where nobody has
/// set one: direct input is zero, and nothing set is not the same.
pub open spec fn decoded(open_close: i32, conversion: Option<i32>) -> InputMode {
    if open_close == 0 {
        InputMode::Latin
    } else {
        match conversion {
            Some(conversion) => if conversion % 2 != 0 {
                InputMode::Kana
            } else {
                InputMode::Latin
            },
            None => InputMode::Kana,
        }
    }
}

/// The two values that a mode is published as.
pub fn encode(mode: InputMode) -> (values: (i32, i32))
    ensures
        values == encoded(mode),
{
    match mode {
        InputMode::Kana => (1, CONVERSION_KANA),
        InputMode::Latin => (0, CONVERSION_LATIN),
    }
}

/// The mode that two published values mean.
pub fn decode(open_close: i32, conversion: Option<i32>) -> (mode: InputMode)
    ensures
        mode == decoded(open_close, conversion),
{
    if open_close == 0 {
        return InputMode::Latin;
    }
    match conversion {
        Some(conversion) => {
            assert((conversion & 1 != 0) == (conversion % 2 != 0)) by (bit_vector);
            if conversion & 1 != 0 {
                InputMode::Kana
            } else {
                InputMode::Latin
            }
        },
        None => InputMode::Kana,
    }
}

/// A mode that is published is read back as itself.
pub proof fn a_published_mode_is_read_back(mode: InputMode)
    ensures
        decoded(encoded(mode).0, Some(encoded(mode).1)) == mode,
{
}

/// Opening the input method without a word on the conversion mode turns kana
/// input on, and closing it turns it off.
pub proof fn open_alone_decides(open_close: i32)
    ensures
        decoded(open_close, None) == InputMode::Kana <==> open_close != 0,
{
}

/// What activation makes of the values that it finds.
#[derive(Debug, Clone, Copy, PartialEq, Eq, Structural)]
pub enum Adoption {
    /// Somebody has set a mode: it is taken over. The mode is there where it
    /// differs from the one that was kept, and so has to be shown.
    Adopted(Option<InputMode>),
    /// Nobody has: these are to be published.
    Publish(i32, i32),
}

/// The value of a compartment where unset means zero.
pub open spec fn or_zero(value: Option<i32>) -> i32 {
    match value {
        Some(value) => value,
        None => 0,
    }
}

fn value_or_zero(value: Option<i32>) -> (number: i32)
    ensures
        number == or_zero(value),
{
    match value {
        Some(value) => value,
        None => 0,
    }
}

impl<H> TextService<H> {
    /// Takes over the mode that the system already has, or says what to
    /// publish where it has none.
    pub fn init_compartments(&mut self, open_close: Option<i32>, conversion: Option<i32>) -> (adoption:
        Adoption)
        ensures
            match open_close {
                Some(open) => {
                    let mode = decoded(open, conversion);
                    &&& adoption == Adoption::Adopted(
                        if mode != old(self).input_mode {
                            Some(mode)
                        } else {
                            None
                        },
                    )
                    &&& *final(self) == (TextService { input_mode: mode, ..*old(self) })
                },
                None => {
                    &&& adoption == Adoption::Publish(
                        encoded(old(self).input_mode).0,
                        encoded(old(self).input_mode).1,
                    )
                    &&& *final(self) == *old(self)
                },
            },
    {
        match open_close {
            Some(open) => {
                let mode = decode(open, conversion);
                let changed = mode != self.input_mode;
                self.input_mode = mode;
                if changed {
                    Adoption::Adopted(Some(mode))
                } else {
                    Adoption::Adopted(None)
                }
            },
            None => {
                let (open, conversion) = encode(self.input_mode);
                Adoption::Publish(open, conversion)
            },
        }
    }

    /// Sets out to publish a mode: what to write, in this order. Until
    /// [`TextService::mode_published`], notices of a change are taken for the
    /// echo of it.
    pub fn publish_mode(&mut self, mode: InputMode) -> (values: (i32, i32))
        ensures
            values == encoded(mode),
            *final(self) == (TextService { suppress_compartment_echo: true, ..*old(self) }),
    {
        self.suppress_compartment_echo = true;
        encode(mode)
    }

    /// Ends the publishing of a mode, however it went.
    pub fn mode_published(&mut self)
        ensures
            *final(self) == (TextService { suppress_compartment_echo: false, ..*old(self) }),
    {
        self.suppress_compartment_echo = false;
    }

    /// The mode to apply when the system's values may have changed: the one
    /// that they mean, unless the change is the echo of our own or no change
    /// at all.
    pub fn sync_input_mode_from_compartments(&self, open_close: Option<i32>, conversion: Option<
        i32,
    >) -> (mode: Option<InputMode>)
        ensures
            ({
                let meant = decoded(or_zero(open_close), conversion);
                mode == if self.suppress_compartment_echo || meant == self.input_mode {
                    None
                } else {
                    Some(meant)
                }
            }),
    {
        let meant = decode(value_or_zero(open_close), conversion);
        if self.suppress_compartment_echo || meant == self.input_mode {
            None
        } else {
            Some(meant)
        }
    }
}

/// The compartments whose changes are listened to.
pub fn watched_compartments() -> (guids: Vec<u128>)
    ensures
        guids@ == seq![
            GUID_COMPARTMENT_KEYBOARD_OPENCLOSE,
            GUID_COMPARTMENT_KEYBOARD_INPUTMODE_CONVERSION,
            GUID_COMPARTMENT_KEYBOARD_DISABLED,
        ],
{
    vec![
        GUID_COMPARTMENT_KEYBOARD_OPENCLOSE,
        GUID_COMPARTMENT_KEYBOARD_INPUTMODE_CONVERSION,
        GUID_COMPARTMENT_KEYBOARD_DISABLED,
    ]
}

/// The sinks that one activation is advised on at compartments: each
/// compartment with its cookie. One interface is advised on several of them, so
/// that they are not kept by it. `C` is a compartment's handle.
pub struct CompartmentSinks<C> {
    pub sinks: Vec<(C, u32)>,
}

impl<C> CompartmentSinks<C> {
    /// No sinks.
    pub fn new() -> (sinks: CompartmentSinks<C>)
        ensures
            sinks.sinks@ == Seq::<(C, u32)>::empty(),
    {
        CompartmentSinks { sinks: Vec::new() }
    }

    /// Remembers the cookie of a sink that was advised at a compartment.
    pub fn advise_sink(&mut self, compartment: C, cookie: u32)
        ensures
            final(self).sinks@ == old(self).sinks@.push((compartment, cookie)),
    {
        self.sinks.push((compartment, cookie));
    }

    /// Gives up the sinks: each of them, and no other, is to be taken down.
    pub fn unadvise_compartment_sinks(&mut self) -> (sinks: Vec<(C, u32)>)
        ensures
            sinks@ == old(self).sinks@,
            final(self).sinks@ == Seq::<(C, u32)>::empty(),
    {
        let mut sinks: Vec<(C, u32)> = Vec::new();
        std::mem::swap(&mut sinks, &mut self.sinks);
        sinks
    }
}

/// Whether a notice concerns the mode.
pub fn concerns_mode(guid: u128) -> (concerns: bool)
    ensures
        concerns == (guid == GUID_COMPARTMENT_KEYBOARD_OPENCLOSE || guid
            == GUID_COMPARTMENT_KEYBOARD_INPUTMODE_CONVERSION),
{
    guid == GUID_COMPARTMENT_KEYBOARD_OPENCLOSE || guid
        == GUID_COMPARTMENT_KEYBOARD_INPUTMODE_CONVERSION
}

/// Whether the host has switched input off, from what it says of the document
/// and of the thread: a flag that is set and not zero does. A flag that cannot
/// be read switches nothing off, and without a document nothing is asked.
pub fn is_input_disabled(
    has_context: bool,
    keyboard_disabled: Option<i32>,
    empty_context: Option<i32>,
    thread_disabled: Option<i32>,
) -> (disabled: bool)
    ensures
        disabled == (has_context && (or_zero(keyboard_disabled) != 0 || or_zero(empty_context) != 0
            || or_zero(thread_disabled) != 0)),
{
    has_context && (value_or_zero(keyboard_disabled) != 0 || value_or_zero(empty_context) != 0
        || value_or_zero(thread_disabled) != 0)
}

/// Kana input is published as an open input method whose conversion mode is
/// native, full-width and typed in roman letters; direct input as a closed one
/// with none of these.
pub proof fn the_published_values_say_the_mode()
    ensures
        encoded(InputMode::Kana).0 == 1,
        encoded(InputMode::Kana).1 == 1i32 | 8i32 | 16i32,
        encoded(InputMode::Latin).0 == 0,
        encoded(InputMode::Latin).1 == 0,
{
    assert(1i32 | 8i32 | 16i32 == 25i32) by (bit_vector);
}

/// An open input method is kana input exactly where the native bit of its
/// conversion mode is set or nobody has set one; a closed one never is.
pub proof fn the_native_bit_decides_while_open(open_close: i32, conversion: i32)
    ensures
        decoded(open_close, Some(conversion)) == InputMode::Kana <==> open_close != 0 && conversion
            & 1 == 1,
        decoded(0, Some(conversion)) == InputMode::Latin,
        decoded(0, None) == InputMode::Latin,
{
    assert((conversion & 1 == 1) == (conversion % 2 != 0)) by (bit_vector);
}

/// A compartment that is not set counts as zero, and no other value is changed.
pub proof fn what_is_unset_counts_as_zero(value: i32)
    ensures
        or_zero(None) == 0,
        or_zero(Some(value)) == value,
{
}

} // verus!

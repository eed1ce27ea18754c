//! The names and numbers by which the text service is known.

use vstd::prelude::*;

verus! {

pub const CLSID_PREFIX: &'static str = "CLSID\\";

pub const INPROC_SUFFIX: &'static str = "\\InProcServer32";

pub const SERVICE_NAME: &'static str = "Azookey";

/// The text service. A GUID is kept as the number that its digits spell.
pub const GUID_TEXT_SERVICE: u128 = 0xffdefe79_2fc2_11ef_b16b_94e70b2c378c;

/// The language profile of the text service.
pub const GUID_PROFILE: u128 = 0xffdefe7a_2fc2_11ef_b16b_94e70b2c378c;

/// How the composition is drawn.
pub const GUID_DISPLAY_ATTRIBUTE: u128 = 0xffdefe7b_2fc2_11ef_b16b_94e70b2c378c;

/// The candidate list, as an element that a host may draw itself.
pub const GUID_CANDIDATE_LIST_UI_ELEMENT: u128 = 0xffdefe7c_2fc2_11ef_b16b_94e70b2c378c;

/// The keys that switch the input mode, one GUID for each purpose.
pub const GUID_PRESERVEDKEY_TOGGLE_ZENHAN: u128 = 0xffdefe7d_2fc2_11ef_b16b_94e70b2c378c;

pub const GUID_PRESERVEDKEY_TOGGLE_KANJI: u128 = 0xffdefe7e_2fc2_11ef_b16b_94e70b2c378c;

pub const GUID_PRESERVEDKEY_TOGGLE_ALT_GRAVE: u128 = 0xffdefe7f_2fc2_11ef_b16b_94e70b2c378c;

/// The code for an argument that cannot be.
pub const E_INVALIDARG: u32 = 0x80070057;

/// The two virtual keys of the Zenkaku/Hankaku key.
pub const VK_DBE_SBCSCHAR: u32 = 0xF3;

pub const VK_DBE_DBCSCHAR: u32 = 0xF4;

/// The Kanji key, and what Alt with the grave accent arrives as on a 101-key
/// Japanese layout.
pub const VK_KANJI: u32 = 0x19;

/// The grave accent of a US layout.
pub const VK_OEM_3: u32 = 0xC0;

/// The keys that have a meaning of their own, by their names.
pub const VK_BACK: usize = 0x08;

pub const VK_TAB: usize = 0x09;

pub const VK_RETURN: usize = 0x0D;

pub const VK_ESCAPE: usize = 0x1B;

pub const VK_SPACE: usize = 0x20;

/// Page Up and Page Down.
pub const VK_PRIOR: usize = 0x21;

pub const VK_NEXT: usize = 0x22;

pub const VK_END: usize = 0x23;

pub const VK_HOME: usize = 0x24;

pub const VK_LEFT: usize = 0x25;

pub const VK_UP: usize = 0x26;

pub const VK_RIGHT: usize = 0x27;

pub const VK_DOWN: usize = 0x28;

pub const VK_INSERT: usize = 0x2D;

pub const VK_DELETE: usize = 0x2E;

/// The zeros of the main block and of the keypad; the other digits follow.
pub const VK_0: usize = 0x30;

pub const VK_NUMPAD0: usize = 0x60;

pub const VK_F6: usize = 0x75;

pub const VK_F7: usize = 0x76;

pub const VK_F8: usize = 0x77;

pub const VK_F9: usize = 0x78;

pub const VK_F10: usize = 0x79;

pub const VK_SHIFT: usize = 0x10;

pub const VK_CONTROL: usize = 0x11;

/// Alt.
pub const VK_MENU: usize = 0x12;

pub const VK_CAPITAL: usize = 0x14;

pub const VK_KANA: usize = 0x15;

/// Whether a virtual key means that the input mode is to be switched.
pub open spec fn switches_mode(vk: int) -> bool {
    vk == VK_DBE_SBCSCHAR || vk == VK_DBE_DBCSCHAR || vk == VK_KANJI
}

/// The cookie under which the language bar's one sink is known.
pub const TEXTSERVICE_LANGBARITEMSINK_COOKIE: u32 = 0;

/// The count of what keeps the module loaded.
#[derive(Debug)]
pub struct DllModule {
    pub ref_count: usize,
}

impl DllModule {
    /// A module that nothing keeps loaded yet.
    pub fn new() -> (module: DllModule)
        ensures
            module.ref_count == 0,
    {
        DllModule { ref_count: 0 }
    }

    /// Counts one more; the count wraps round.
    pub fn add_ref(&mut self)
        ensures
            final(self).ref_count == if old(self).ref_count == usize::MAX {
                0
            } else {
                old(self).ref_count + 1
            },
    {
        self.ref_count = self.ref_count.wrapping_add(1);
    }

    /// Counts one less; the count wraps round.
    pub fn release(&mut self)
        ensures
            final(self).ref_count == if old(self).ref_count == 0 {
                usize::MAX as int
            } else {
                old(self).ref_count - 1
            },
    {
        self.ref_count = self.ref_count.wrapping_sub(1);
    }
}

/// Letting go undoes taking hold, whatever the count.
pub proof fn release_undoes_add_ref(before: DllModule, held: DllModule, after: DllModule)
    requires
        held.ref_count == if before.ref_count == usize::MAX {
            0
        } else {
            before.ref_count + 1
        },
        after.ref_count == if held.ref_count == 0 {
            usize::MAX as int
        } else {
            held.ref_count - 1
        },
    ensures
        after.ref_count == before.ref_count,
{
}

/// The units that the path of a module is first asked for with.
pub const MAX_PATH: usize = 260;

/// The units that no path is longer than.
pub const MAX_EXTENDED_PATH: usize = 0x8000;

/// What asking for a module's path came to.
#[derive(Debug, Clone, Copy, PartialEq, Eq, Structural)]
pub enum PathStep {
    /// The system gave none.
    Failed,
    /// The path is the first so many units.
    Complete(usize),
    /// The buffer was full, so that the path may be cut: ask with one of this
    /// size.
    Retry(usize),
    /// No path is this long.
    TooLong,
}

/// What a call that wrote `length` units into a buffer of `capacity` came to.
/// The system says no more of a path that does not fit than that it filled the
/// buffer.
pub fn path_step(length: usize, capacity: usize) -> (step: PathStep)
    ensures
        step == if length == 0 {
            PathStep::Failed
        } else if length < capacity {
            PathStep::Complete(length)
        } else if capacity >= MAX_EXTENDED_PATH {
            PathStep::TooLong
        } else {
            PathStep::Retry((capacity * 2) as usize)
        },
{
    if length == 0 {
        PathStep::Failed
    } else if length < capacity {
        PathStep::Complete(length)
    } else if capacity >= MAX_EXTENDED_PATH {
        PathStep::TooLong
    } else {
        PathStep::Retry(capacity * 2)
    }
}

/// The buffer grows at every attempt and to no more than twice the longest
/// path, so that asking comes to an end.
pub proof fn asking_for_the_path_ends(length: usize, capacity: usize)
    requires
        0 < capacity,
        length >= capacity,
        capacity < MAX_EXTENDED_PATH,
    ensures
        capacity < capacity * 2 <= 2 * MAX_EXTENDED_PATH,
{
}

} // verus!

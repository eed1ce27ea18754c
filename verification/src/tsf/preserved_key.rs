//! The keys that switch the mode and that the host is asked to route here.

use vstd::prelude::*;

use super::text_service::{PreservedKey, TextService};
use crate::globals::{
    GUID_PRESERVEDKEY_TOGGLE_ALT_GRAVE, GUID_PRESERVEDKEY_TOGGLE_KANJI,
    GUID_PRESERVEDKEY_TOGGLE_ZENHAN, VK_DBE_DBCSCHAR, VK_DBE_SBCSCHAR, VK_KANJI, VK_OEM_3,
};
#[allow(unused_imports)]
use crate::globals::switches_mode;

verus! {

/// How long after a switch of the mode, in milliseconds, another delivery of
/// the key counts as the same press.
pub const DOUBLE_DELIVERY_WINDOW: u64 = 50;

/// The modifier flag of Alt.
pub const MOD_ALT: u32 = 1;

/// Whether a delivery at `now` is the echo of a switch that was made at
/// `last`. A clock that seems to have gone back counts as no time gone by.
pub open spec fn is_duplicate_at(last: Option<u64>, now: u64) -> bool {
    match last {
        Some(at) => now < at + DOUBLE_DELIVERY_WINDOW,
        None => false,
    }
}

impl<H> TextService<H> {
    /// Remembers that the mode was switched.
    pub fn note_preserved_toggle(&mut self, now: u64)
        ensures
            *final(self) == (TextService { last_mode_toggle: Some(now), ..*old(self) }),
    {
        self.last_mode_toggle = Some(now);
    }

    /// Whether a key that switches the mode is a second delivery of a press
    /// that has already switched it.
    pub fn raw_toggle_is_duplicate(&self, now: u64) -> (duplicate: bool)
        ensures
            duplicate == is_duplicate_at(self.last_mode_toggle, now),
    {
        match self.last_mode_toggle {
            Some(at) => now < at || now - at < DOUBLE_DELIVERY_WINDOW,
            None => false,
        }
    }
}

/// A key that is to be routed here: what it is for, the key, and what the host
/// calls it.
#[derive(Debug, Clone, Copy)]
pub struct ToggleKey {
    pub guid: u128,
    pub key: PreservedKey,
    pub description: &'static str,
}

/// The keys that are to be routed here. Alt with the grave accent is among
/// them twice, for it reaches some layouts as the Kanji key with Alt held.
pub open spec fn toggle_key_table() -> Seq<(u128, PreservedKey)> {
    seq![
        (GUID_PRESERVEDKEY_TOGGLE_ZENHAN, PreservedKey { vk: VK_DBE_SBCSCHAR, modifiers: 0 }),
        (GUID_PRESERVEDKEY_TOGGLE_ZENHAN, PreservedKey { vk: VK_DBE_DBCSCHAR, modifiers: 0 }),
        (GUID_PRESERVEDKEY_TOGGLE_KANJI, PreservedKey { vk: VK_KANJI, modifiers: 0 }),
        (GUID_PRESERVEDKEY_TOGGLE_KANJI, PreservedKey { vk: VK_KANJI, modifiers: MOD_ALT }),
        (GUID_PRESERVEDKEY_TOGGLE_ALT_GRAVE, PreservedKey { vk: VK_OEM_3, modifiers: MOD_ALT }),
    ]
}

/// What the host calls a key that is routed here.
pub open spec fn description_of(guid: u128, key: PreservedKey) -> Seq<char> {
    if key.modifiers == MOD_ALT {
        "azooKey: 入力モード切替 (Alt+`)"@
    } else if guid == GUID_PRESERVEDKEY_TOGGLE_KANJI {
        "azooKey: 入力モード切替 (漢字)"@
    } else {
        "azooKey: 入力モード切替"@
    }
}

/// The keys that are to be routed here, with what the host calls them.
pub fn toggle_keys() -> (keys: Vec<ToggleKey>)
    ensures
        keys@.map_values(|key: ToggleKey| (key.guid, key.key)) == toggle_key_table(),
        forall|i: int|
            0 <= i < keys@.len() ==> (#[trigger] keys@[i]).description@ == description_of(
                keys@[i].guid,
                keys@[i].key,
            ),
{
    let mut keys: Vec<ToggleKey> = Vec::new();
    keys.push(
        ToggleKey {
            guid: GUID_PRESERVEDKEY_TOGGLE_ZENHAN,
            key: PreservedKey { vk: VK_DBE_SBCSCHAR, modifiers: 0 },
            description: "azooKey: 入力モード切替",
        },
    );
    keys.push(
        ToggleKey {
            guid: GUID_PRESERVEDKEY_TOGGLE_ZENHAN,
            key: PreservedKey { vk: VK_DBE_DBCSCHAR, modifiers: 0 },
            description: "azooKey: 入力モード切替",
        },
    );
    keys.push(
        ToggleKey {
            guid: GUID_PRESERVEDKEY_TOGGLE_KANJI,
            key: PreservedKey { vk: VK_KANJI, modifiers: 0 },
            description: "azooKey: 入力モード切替 (漢字)",
        },
    );
    keys.push(
        ToggleKey {
            guid: GUID_PRESERVEDKEY_TOGGLE_KANJI,
            key: PreservedKey { vk: VK_KANJI, modifiers: MOD_ALT },
            description: "azooKey: 入力モード切替 (Alt+`)",
        },
    );
    keys.push(
        ToggleKey {
            guid: GUID_PRESERVEDKEY_TOGGLE_ALT_GRAVE,
            key: PreservedKey { vk: VK_OEM_3, modifiers: MOD_ALT },
            description: "azooKey: 入力モード切替 (Alt+`)",
        },
    );
    assert(keys@.map_values(|key: ToggleKey| (key.guid, key.key)) =~= toggle_key_table());
    keys
}

impl<H> TextService<H> {
    /// Remembers a key that the host agreed to route here.
    pub fn note_reserved_key(&mut self, guid: u128, key: PreservedKey)
        ensures
            final(self).preserved_keys@ == old(self).preserved_keys@.push((guid, key)),
            *final(self) == (TextService {
                preserved_keys: final(self).preserved_keys,
                ..*old(self)
            }),
    {
        self.preserved_keys.push((guid, key));
    }

    /// Gives up the keys that the host routes here: each of them, and no
    /// other, is to be handed back.
    pub fn take_reserved_keys(&mut self) -> (keys: Vec<(u128, PreservedKey)>)
        ensures
            keys@ == old(self).preserved_keys@,
            final(self).preserved_keys@.len() == 0,
            *final(self) == (TextService {
                preserved_keys: final(self).preserved_keys,
                ..*old(self)
            }),
    {
        let mut keys: Vec<(u128, PreservedKey)> = Vec::new();
        std::mem::swap(&mut keys, &mut self.preserved_keys);
        keys
    }

    /// Whether a key that the host routed is one that this activation asked
    /// for. Any other belongs to somebody else.
    pub fn is_preserved_toggle(&self, guid: u128) -> (ours: bool)
        ensures
            ours == exists|i: int|
                0 <= i < self.preserved_keys@.len() && (#[trigger] self.preserved_keys@[i]).0
                    == guid,
    {
        let mut i: usize = 0;
        while i < self.preserved_keys.len()
            invariant
                i <= self.preserved_keys.len(),
                forall|j: int| 0 <= j < i ==> (#[trigger] self.preserved_keys@[j]).0 != guid,
            decreases self.preserved_keys.len() - i,
        {
            if self.preserved_keys[i].0 == guid {
                return true;
            }
            i += 1;
        }
        false
    }
}

/// The keys that are asked for and the keys that are recognized when they
/// arrive unrouted are the same: every such key is asked for on its own, and
/// besides them only Alt with the grave accent is.
pub proof fn the_routed_keys_are_the_recognized_ones(vk: u32)
    ensures
        switches_mode(vk as int) <==> exists|i: int|
            0 <= i < toggle_key_table().len() && (#[trigger] toggle_key_table()[i]).1 == (
            PreservedKey { vk, modifiers: 0 }),
        forall|i: int|
            0 <= i < toggle_key_table().len() && (#[trigger] toggle_key_table()[i]).1.vk == vk
                && !switches_mode(vk as int) ==> toggle_key_table()[i].1 == (PreservedKey {
                vk: VK_OEM_3,
                modifiers: MOD_ALT,
            }),
{
    let keys = toggle_key_table();
    assert(keys[0].1 == (PreservedKey { vk: VK_DBE_SBCSCHAR, modifiers: 0 }));
    assert(keys[1].1 == (PreservedKey { vk: VK_DBE_DBCSCHAR, modifiers: 0 }));
    assert(keys[2].1 == (PreservedKey { vk: VK_KANJI, modifiers: 0 }));
    assert(keys[3].1.modifiers == MOD_ALT);
    assert(keys[4].1.modifiers == MOD_ALT);
}

/// A switch silences its key for the window that starts with it, up to but
/// without its end, and for a clock that has gone back; before any switch
/// nothing is silenced.
pub proof fn an_echo_comes_within_the_window(at: u64, later: u64, now: u64)
    ensures
        !is_duplicate_at(None, now),
        now <= at ==> is_duplicate_at(Some(at), now),
        later < 50 && now == at + later ==> is_duplicate_at(Some(at), now),
        later >= 50 && now == at + later ==> !is_duplicate_at(Some(at), now),
{
}

/// The host calls every one of the keys a switch of the mode; it calls Alt with
/// the grave accent alike in both the shapes in which that arrives, and the
/// Kanji key on its own by its name.
pub proof fn a_routed_key_is_called_by_its_name(guid: u128, vk: u32)
    ensures
        description_of(guid, PreservedKey { vk, modifiers: MOD_ALT })
            == "azooKey: 入力モード切替 (Alt+`)"@,
        description_of(GUID_PRESERVEDKEY_TOGGLE_KANJI, PreservedKey { vk, modifiers: 0 })
            == "azooKey: 入力モード切替 (漢字)"@,
        description_of(GUID_PRESERVEDKEY_TOGGLE_ZENHAN, PreservedKey { vk, modifiers: 0 })
            == "azooKey: 入力モード切替"@,
{
}

} // verus!

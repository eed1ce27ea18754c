//! What installing the text service writes, and what taking it away does.

use vstd::prelude::*;

#[allow(unused_imports)]
use crate::extension::guid_text;
use crate::extension::{GUIDExt, StringExt};
use crate::globals::{CLSID_PREFIX, GUID_PROFILE, GUID_TEXT_SERVICE, INPROC_SUFFIX, SERVICE_NAME};
#[allow(unused_imports)]
use crate::strings::utf16;

verus! {

/// The code for a key that is not there.
pub const E_FILE_NOT_FOUND: u32 = 0x80070002;

/// The language profile.
pub struct ProfileMgr;

/// A profile as the system takes it.
#[derive(Debug)]
pub struct Profile {
    pub service: u128,
    pub profile: u128,
    pub name: Vec<u16>,
    pub icon_file: Vec<u16>,
}

impl ProfileMgr {
    /// The profile of the text service in the module at a path, whose icon is
    /// the module's own.
    pub fn register(dll_path: &str) -> (profile: Profile)
        ensures
            profile.service == GUID_TEXT_SERVICE,
            profile.profile == GUID_PROFILE,
            profile.name@ == utf16(SERVICE_NAME@).push(0),
            profile.icon_file@ == utf16(dll_path@).push(0),
    {
        Profile {
            service: GUID_TEXT_SERVICE,
            profile: GUID_PROFILE,
            name: SERVICE_NAME.to_wide_16(),
            icon_file: dll_path.to_wide_16(),
        }
    }
}

/// The class in the registry.
pub struct CLSIDMgr;

/// A value that is written under a key.
#[derive(Debug)]
pub struct RegistryValue {
    pub key: String,
    pub name: String,
    pub value: String,
}

/// The key of the class.
pub open spec fn clsid_key_text() -> Seq<char> {
    CLSID_PREFIX@ + guid_text(GUID_TEXT_SERVICE)
}

/// Whether a value is written as described.
pub open spec fn writes(
    written: RegistryValue,
    key: Seq<char>,
    name: Seq<char>,
    value: Seq<char>,
) -> bool {
    written.key@ == key && written.name@ == name && written.value@ == value
}

impl CLSIDMgr {
    /// The key of the class.
    pub fn clsid_key() -> (key: String)
        ensures
            key@ == clsid_key_text(),
    {
        let mut key = CLSID_PREFIX.to_string();
        let guid = GUIDExt::to_string(&GUID_TEXT_SERVICE);
        key.push_str(&guid);
        key
    }

    /// The key of the module that holds the class.
    pub fn inproc_key() -> (key: String)
        ensures
            key@ == clsid_key_text() + INPROC_SUFFIX@,
    {
        let mut key = CLSIDMgr::clsid_key();
        key.push_str(INPROC_SUFFIX);
        key
    }

    /// What is written for the class, in order: its name, where its module is,
    /// and how its objects are to be used.
    pub fn register(dll_path: &str) -> (values: Vec<RegistryValue>)
        ensures
            values@.len() == 3,
            writes(values@[0], clsid_key_text(), ""@, SERVICE_NAME@),
            writes(values@[1], clsid_key_text() + INPROC_SUFFIX@, ""@, dll_path@),
            writes(
                values@[2],
                clsid_key_text() + INPROC_SUFFIX@,
                "ThreadingModel"@,
                "Apartment"@,
            ),
    {
        let mut values: Vec<RegistryValue> = Vec::new();
        values.push(
            RegistryValue {
                key: CLSIDMgr::clsid_key(),
                name: "".to_string(),
                value: SERVICE_NAME.to_string(),
            },
        );
        values.push(
            RegistryValue {
                key: CLSIDMgr::inproc_key(),
                name: "".to_string(),
                value: dll_path.to_string(),
            },
        );
        values.push(
            RegistryValue {
                key: CLSIDMgr::inproc_key(),
                name: "ThreadingModel".to_string(),
                value: "Apartment".to_string(),
            },
        );
        values
    }

    /// The key whose whole tree goes when the class is taken away.
    pub fn unregister() -> (key: String)
        ensures
            key@ == clsid_key_text(),
    {
        CLSIDMgr::clsid_key()
    }
}

/// Taking away what is already gone has succeeded; any other failure stays
/// one.
pub fn ok_if_not_found(result: Result<(), u32>) -> (tolerated: Result<(), u32>)
    ensures
        tolerated == match result {
            Err(code) => if code == E_FILE_NOT_FOUND {
                Ok::<(), u32>(())
            } else {
                Err::<(), u32>(code)
            },
            Ok(_) => Ok::<(), u32>(()),
        },
{
    match result {
        Err(code) => if code == E_FILE_NOT_FOUND {
            Ok(())
        } else {
            Err(code)
        },
        Ok(_) => Ok(()),
    }
}

/// What the text service declares that it can do.
pub struct CategoryMgr;


pub const GUID_TFCAT_DISPLAYATTRIBUTEPROVIDER: u128 = 0x046b8c80_1647_40f7_9b21_b93b81aabc1b;

pub const GUID_TFCAT_TIPCAP_COMLESS: u128 = 0x364215d9_75bc_11d7_a6ef_00065b84435c;

pub const GUID_TFCAT_TIPCAP_INPUTMODECOMPARTMENT: u128 = 0xccf05dd7_4a87_11d7_a6e2_00065b84435c;

pub const GUID_TFCAT_TIPCAP_UIELEMENTENABLED: u128 = 0x49d2f9cf_1f5e_11d7_a6d3_00065b84435c;

pub const GUID_TFCAT_TIP_KEYBOARD: u128 = 0x34745c63_b2f0_4784_8b67_5e12c8701a31;

pub const GUID_TFCAT_TIPCAP_IMMERSIVESUPPORT: u128 = 0x13a016df_560b_46cd_947a_4c3af1e0e35d;

pub const GUID_TFCAT_TIPCAP_SYSTRAYSUPPORT: u128 = 0x25504fb4_7bab_4bc1_9c69_cf81890f0ef5;

impl CategoryMgr {
    /// The categories that the text service is registered in.
    pub fn categories() -> (categories: Vec<u128>)
        ensures
            categories@ == seq![
                GUID_TFCAT_DISPLAYATTRIBUTEPROVIDER,
                GUID_TFCAT_TIPCAP_COMLESS,
                GUID_TFCAT_TIPCAP_INPUTMODECOMPARTMENT,
                GUID_TFCAT_TIPCAP_UIELEMENTENABLED,
                GUID_TFCAT_TIP_KEYBOARD,
                GUID_TFCAT_TIPCAP_IMMERSIVESUPPORT,
                GUID_TFCAT_TIPCAP_SYSTRAYSUPPORT,
            ],
    {
        let mut categories: Vec<u128> = Vec::new();
        categories.push(GUID_TFCAT_DISPLAYATTRIBUTEPROVIDER);
        categories.push(GUID_TFCAT_TIPCAP_COMLESS);
        categories.push(GUID_TFCAT_TIPCAP_INPUTMODECOMPARTMENT);
        categories.push(GUID_TFCAT_TIPCAP_UIELEMENTENABLED);
        categories.push(GUID_TFCAT_TIP_KEYBOARD);
        categories.push(GUID_TFCAT_TIPCAP_IMMERSIVESUPPORT);
        categories.push(GUID_TFCAT_TIPCAP_SYSTRAYSUPPORT);
        categories
    }
}

/// What is said of one part that could not be taken away.
pub open spec fn labelled(label: Seq<char>, failure: Option<Seq<char>>) -> Seq<Seq<char>> {
    match failure {
        Some(text) => seq![label + ": "@ + text],
        None => seq![],
    }
}

/// Texts with a semicolon between each two.
pub open spec fn listed(parts: Seq<Seq<char>>) -> Seq<char>
    decreases parts.len(),
{
    if parts.len() == 0 {
        Seq::empty()
    } else if parts.len() == 1 {
        parts[0]
    } else {
        listed(parts.drop_last()) + "; "@ + parts.last()
    }
}

/// What of a text, if there is one.
pub open spec fn text_of_failure(failure: Option<String>) -> Option<Seq<char>> {
    match failure {
        Some(text) => Some(text@),
        None => None,
    }
}

fn add_part(list: &mut String, count: &mut usize, label: &str, failure: Option<String>, Ghost(
    parts,
): Ghost<Seq<Seq<char>>>)
    requires
        old(list)@ == listed(parts),
        *old(count) == parts.len(),
        parts.len() < 3,
    ensures
        final(list)@ == listed(parts + labelled(label@, text_of_failure(failure))),
        *final(count) == (parts + labelled(label@, text_of_failure(failure))).len(),
{
    match failure {
        Some(text) => {
            let ghost part = label@ + ": "@ + text@;
            let ghost longer = parts + labelled(label@, Some(text@));
            proof {
                assert(longer =~= parts.push(part));
                assert(longer.drop_last() =~= parts);
            }
            if *count > 0 {
                list.push_str("; ");
            }
            list.push_str(label);
            list.push_str(": ");
            list.push_str(&text);
            *count = *count + 1;
            proof {
                if parts.len() == 0 {
                    assert(list@ =~= part);
                } else {
                    assert(list@ =~= listed(parts) + "; "@ + part);
                }
            }
        },
        None => {
            assert(parts + labelled(label@, None) =~= parts);
        },
    }
}

/// What taking the text service away comes to. Every part of it is tried,
/// whatever became of the others; the failures, each with its part's name, are
/// told together.
pub fn unregister_outcome(
    profile: Option<String>,
    clsid: Option<String>,
    category: Option<String>,
) -> (outcome: Result<(), String>)
    ensures
        ({
            let parts = labelled("profile"@, text_of_failure(profile)) + labelled(
                "clsid"@,
                text_of_failure(clsid),
            ) + labelled("category"@, text_of_failure(category));
            match outcome {
                Ok(_) => parts.len() == 0,
                Err(text) => parts.len() > 0 && text@ == listed(parts),
            }
        }),
{
    let mut list = String::new();
    let mut count: usize = 0;
    let ghost none: Seq<Seq<char>> = Seq::empty();
    let ghost first = labelled("profile"@, text_of_failure(profile));
    let ghost second = labelled("clsid"@, text_of_failure(clsid));
    assert(list@ =~= listed(none));
    add_part(&mut list, &mut count, "profile", profile, Ghost(none));
    assert(none + first =~= first);
    add_part(&mut list, &mut count, "clsid", clsid, Ghost(first));
    add_part(&mut list, &mut count, "category", category, Ghost(first + second));
    if count == 0 {
        Ok(())
    } else {
        Err(list)
    }
}

/// The failures of two parts are told one after the other, with a semicolon
/// between them.
pub proof fn two_failures_are_told_in_order(first: Seq<char>, second: Seq<char>)
    ensures
        listed(seq![first]) == first,
        listed(seq![first, second]) == first + "; "@ + second,
{
    reveal_with_fuel(listed, 3);
    assert(seq![first, second].drop_last() =~= seq![first]);
}

/// A part that could not be taken away is told of by its name and the reason, and
/// one that could is not told of.
pub proof fn a_failure_is_told_by_its_part(label: Seq<char>, reason: Seq<char>)
    ensures
        labelled(label, Some(reason)) == seq![label + ": "@ + reason],
        labelled(label, None) == Seq::<Seq<char>>::empty(),
{
}

/// What is written is under the key, by the name and with the value that were
/// asked for, and no others.
pub proof fn a_value_is_written_where_it_belongs(
    written: RegistryValue,
    key: Seq<char>,
    name: Seq<char>,
    value: Seq<char>,
)
    requires
        writes(written, key, name, value),
    ensures
        written.key@ == key,
        written.name@ == name,
        written.value@ == value,
{
}

} // verus!

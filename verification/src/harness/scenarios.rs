//! What is typed in a scenario, and what it has to come to.

use vstd::prelude::*;

use super::engine::SERVER_IMAGE;
use super::keyboard::{type_ascii, Typing, VK_RETURN, VK_SPACE};
#[allow(unused_imports)]
use super::keyboard::{first_refused, keys_for};
use super::text::contains;
#[allow(unused_imports)]
use super::text::contains_text;
#[allow(unused_imports)]
use crate::tsf::settings_app::{directory_of, is_name, joined};
use crate::tsf::settings_app::{dll_directory, join};

verus! {

/// What is typed, and what it is converted to.
pub const READING: &'static str = "mizu";

pub const EXPECTED: &'static str = "水";

/// For how long what was typed may take to appear, in milliseconds.
pub const CONVERSION_TIMEOUT: u64 = 15_000;

/// How long a host that has just come to the front is left alone, in
/// milliseconds.
pub const ACTIVATION_GRACE: u64 = 750;

/// The program that stands for a second host.
pub const HOST_IMAGE: &'static str = "azookey-e2e-host.exe";

/// The syllable of a long input, and how often it is typed.
pub const SYLLABLE: &'static str = "ka";

pub const LONG_INPUT: usize = 65;

/// A scenario.
#[derive(Debug, Clone, Copy, PartialEq, Eq, Structural)]
pub enum Scenario {
    BasicConversion,
    LongInputSurvives,
    SecondHostConverts,
}

impl Scenario {
    /// The scenario's name.
    pub fn name(self) -> (name: &'static str)
        ensures
            name@ == match self {
                Scenario::BasicConversion => "basic_conversion"@,
                Scenario::LongInputSurvives => "long_input_survives"@,
                Scenario::SecondHostConverts => "second_host_converts"@,
            },
    {
        match self {
            Scenario::BasicConversion => "basic_conversion",
            Scenario::LongInputSurvives => "long_input_survives",
            Scenario::SecondHostConverts => "second_host_converts",
        }
    }
}

/// The scenarios, in order.
pub fn all() -> (scenarios: Vec<Scenario>)
    ensures
        scenarios@ == seq![
            Scenario::BasicConversion,
            Scenario::LongInputSurvives,
            Scenario::SecondHostConverts,
        ],
{
    vec![Scenario::BasicConversion, Scenario::LongInputSurvives, Scenario::SecondHostConverts]
}

/// The keys that type a reading, convert it and accept the first candidate.
pub fn convert_reading(reading: &str) -> (typing: Typing)
    ensures
        typing.refused == first_refused(reading@),
        typing.keys@ == if first_refused(reading@) is None {
            keys_for(reading@) + seq![VK_SPACE, VK_RETURN]
        } else {
            keys_for(reading@)
        },
{
    let mut typing = type_ascii(reading);
    if typing.refused.is_none() {
        typing.keys.push(VK_SPACE);
        typing.keys.push(VK_RETURN);
        assert(typing.keys@ =~= keys_for(reading@) + seq![VK_SPACE, VK_RETURN]);
    }
    typing
}

/// The keys of a syllable, over and over.
pub open spec fn repeated(times: nat) -> Seq<u16>
    decreases times,
{
    if times == 0 {
        Seq::empty()
    } else {
        repeated((times - 1) as nat) + keys_for(SYLLABLE@)
    }
}

/// The keys that type a long input, convert it and accept the first candidate.
pub fn long_input() -> (keys: Vec<u16>)
    ensures
        keys@ == repeated(LONG_INPUT as nat) + seq![VK_SPACE, VK_RETURN],
{
    let mut keys: Vec<u16> = Vec::new();
    let mut i: usize = 0;
    while i < LONG_INPUT
        invariant
            i <= LONG_INPUT,
            keys@ == repeated(i as nat),
        decreases LONG_INPUT - i,
    {
        let mut typing = type_ascii(SYLLABLE);
        keys.append(&mut typing.keys);
        i += 1;
        assert(keys@ =~= repeated((i - 1) as nat) + keys_for(SYLLABLE@));
    }
    keys.push(VK_SPACE);
    keys.push(VK_RETURN);
    assert(keys@ =~= repeated(LONG_INPUT as nat) + seq![VK_SPACE, VK_RETURN]);
    keys
}

/// Fails where the server is gone after a long input.
pub fn after_long_input(running: bool) -> (result: Result<(), String>)
    ensures
        match result {
            Ok(_) => running,
            Err(reason) => !running && reason@ == SERVER_IMAGE@
                + " が長文入力後に消えました（server クラッシュ）"@,
        },
{
    if running {
        return Ok(());
    }
    let mut reason = SERVER_IMAGE.to_string();
    reason.push_str(" が長文入力後に消えました（server クラッシュ）");
    Err(reason)
}

/// The text of a host in which what was typed has appeared. The host may hold
/// more than that.
pub fn expected_in(text: Option<String>) -> (found: Option<String>)
    ensures
        found == if text is Some && contains_text(text->0@, EXPECTED@) {
            text
        } else {
            None
        },
{
    match text {
        Some(text) => if contains(&text, EXPECTED) {
            Some(text)
        } else {
            None
        },
        None => None,
    }
}

/// The second host's program, which is beside the harness.
pub fn custom_host_path(harness: &str) -> (path: Option<String>)
    ensures
        match path {
            Some(path) => directory_of(harness@) is Some && path@ == joined(
                directory_of(harness@)->0,
                HOST_IMAGE@,
            ),
            None => directory_of(harness@) is None,
        },
{
    proof {
        reveal_strlit("azookey-e2e-host.exe");
        assert(is_name(HOST_IMAGE@));
    }
    match dll_directory(harness) {
        Some(directory) => Some(join(&directory, HOST_IMAGE)),
        None => None,
    }
}

/// The long input is typed whole: two keys for each of its syllables, none of
/// which is refused.
pub proof fn the_long_input_is_typed_whole(times: nat)
    ensures
        first_refused(SYLLABLE@) is None,
        repeated(times).len() == 2 * times,
    decreases times,
{
    reveal_strlit("ka");
    reveal_with_fuel(first_refused, 3);
    reveal_with_fuel(keys_for, 3);
    assert(keys_for(SYLLABLE@).len() == 2);
    if times > 0 {
        the_long_input_is_typed_whole((times - 1) as nat);
    }
}

/// The long input is the keys of its syllable in turn.
pub proof fn the_long_input_repeats_its_syllable(times: nat, k: int)
    requires
        0 <= k < times,
    ensures
        repeated(times)[2 * k] == 0x4B,
        repeated(times)[2 * k + 1] == 0x41,
    decreases times,
{
    reveal_strlit("ka");
    reveal_with_fuel(keys_for, 3);
    let before = (times - 1) as nat;
    the_long_input_is_typed_whole(before);
    the_long_input_is_typed_whole(times);
    let keys = keys_for(SYLLABLE@);
    assert(keys.len() == 2 && keys[0] == 0x4B && keys[1] == 0x41);
    if k < before {
        the_long_input_repeats_its_syllable(before, k);
        assert(repeated(times)[2 * k] == repeated(before)[2 * k]);
        assert(repeated(times)[2 * k + 1] == repeated(before)[2 * k + 1]);
    } else {
        assert(repeated(times)[2 * k] == keys[0]);
        assert(repeated(times)[2 * k + 1] == keys[1]);
    }
}

} // verus!

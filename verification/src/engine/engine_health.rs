//! Whether the conversion server answers, for the language bar to say so.
//!
//! When the server is not there the text service itself works: it is
//! activated, shows its icon and switches modes. That nothing converts is then
//! the only sign, and nothing else can tell of it.

use vstd::prelude::*;

use crate::failure::{is_server_unavailable, Failure};

verus! {

/// What the last call to the server said of it.
#[derive(Debug, Clone, Copy, PartialEq, Eq, Structural)]
pub enum EngineHealth {
    /// None has been made.
    Unknown,
    /// It was answered. A rejection is an answer too.
    Reachable,
    /// It was not.
    Unreachable,
}

pub const UNKNOWN: u8 = 0;

pub const REACHABLE: u8 = 1;

pub const UNREACHABLE: u8 = 2;

impl EngineHealth {
    /// The number that stands for a verdict.
    pub open spec fn number(self) -> u8 {
        match self {
            EngineHealth::Unknown => UNKNOWN,
            EngineHealth::Reachable => REACHABLE,
            EngineHealth::Unreachable => UNREACHABLE,
        }
    }

    /// The verdict that a number stands for.
    pub fn from_repr(repr: u8) -> (health: EngineHealth)
        ensures
            health == if repr == REACHABLE {
                EngineHealth::Reachable
            } else if repr == UNREACHABLE {
                EngineHealth::Unreachable
            } else {
                EngineHealth::Unknown
            },
            forall|other: EngineHealth| repr == #[trigger] other.number() ==> health == other,
    {
        if repr == REACHABLE {
            EngineHealth::Reachable
        } else if repr == UNREACHABLE {
            EngineHealth::Unreachable
        } else {
            EngineHealth::Unknown
        }
    }

    /// The number that stands for a verdict.
    pub fn repr(self) -> (repr: u8)
        ensures
            repr == self.number(),
    {
        match self {
            EngineHealth::Unknown => UNKNOWN,
            EngineHealth::Reachable => REACHABLE,
            EngineHealth::Unreachable => UNREACHABLE,
        }
    }
}

/// The verdict that is shown, kept as a number so that it fits an atomic.
#[derive(Debug)]
pub struct Verdict {
    repr: u8,
}

impl Verdict {
    /// The verdict that is kept.
    pub closed spec fn health(&self) -> EngineHealth {
        if self.repr == REACHABLE {
            EngineHealth::Reachable
        } else if self.repr == UNREACHABLE {
            EngineHealth::Unreachable
        } else {
            EngineHealth::Unknown
        }
    }

    /// No verdict yet.
    pub fn new() -> (verdict: Verdict)
        ensures
            verdict.health() == EngineHealth::Unknown,
    {
        Verdict { repr: UNKNOWN }
    }
}

/// What the outcome of a call says of the server: it is out of reach only
/// where the failure says so.
pub open spec fn verdict_of<T>(result: Result<T, Failure>) -> EngineHealth {
    match result {
        Ok(_) => EngineHealth::Reachable,
        Err(failure) => if failure.is_unavailable() {
            EngineHealth::Unreachable
        } else {
            EngineHealth::Reachable
        },
    }
}

/// Takes in what the outcome of a call says of the server, and returns whether
/// the verdict changed by it.
pub fn record<T>(verdict: &mut Verdict, result: &Result<T, Failure>) -> (changed: bool)
    ensures
        final(verdict).health() == verdict_of(*result),
        changed == (old(verdict).health() != verdict_of(*result)),
{
    let health = match result {
        Ok(_) => EngineHealth::Reachable,
        Err(failure) => if is_server_unavailable(failure) {
            EngineHealth::Unreachable
        } else {
            EngineHealth::Reachable
        },
    };
    set(verdict, health)
}

/// Puts a verdict up, and returns whether it is another than before.
pub fn set(verdict: &mut Verdict, health: EngineHealth) -> (changed: bool)
    ensures
        final(verdict).health() == health,
        changed == (old(verdict).health() != health),
{
    let previous = EngineHealth::from_repr(verdict.repr);
    verdict.repr = health.repr();
    previous != health
}

/// The verdict that is up.
pub fn get(verdict: &Verdict) -> (health: EngineHealth)
    ensures
        health == verdict.health(),
{
    EngineHealth::from_repr(verdict.repr)
}

/// What the language bar says of a server, if anything: only one that is out
/// of reach is worth a word, and the word names what is to be started.
pub open spec fn tooltip_of(health: EngineHealth) -> Option<Seq<char>> {
    if health == EngineHealth::Unreachable {
        Some(
            "azooKey: 変換エンジンに接続できません。launcher.exe が起動しているか確認してください（IME 自体は動作しています）。"@,
        )
    } else {
        None
    }
}

/// What the language bar says where it is pointed at.
pub fn tooltip(health: EngineHealth) -> (text: Option<&'static str>)
    ensures
        match text {
            Some(text) => tooltip_of(health) == Some(text@),
            None => tooltip_of(health) is None,
        },
{
    match health {
        EngineHealth::Unreachable => Some(
            "azooKey: 変換エンジンに接続できません。launcher.exe が起動しているか確認してください（IME 自体は動作しています）。",
        ),
        EngineHealth::Reachable | EngineHealth::Unknown => None,
    }
}

/// What the menu says at its top: likewise, and shorter.
pub fn menu_notice(health: EngineHealth) -> (text: Option<&'static str>)
    ensures
        match text {
            Some(text) => health == EngineHealth::Unreachable && text@
                == "変換エンジンに接続できません（launcher.exe を確認してください）"@,
            None => health != EngineHealth::Unreachable,
        },
{
    match health {
        EngineHealth::Unreachable => Some(
            "変換エンジンに接続できません（launcher.exe を確認してください）",
        ),
        EngineHealth::Reachable | EngineHealth::Unknown => None,
    }
}

/// The language bar has something to say of the server exactly where it is out of
/// reach.
pub proof fn only_a_server_out_of_reach_is_worth_a_word(health: EngineHealth)
    ensures
        tooltip_of(health) is Some <==> health == EngineHealth::Unreachable,
{
}

/// A server is out of reach exactly where a call failed because it could not be
/// reached; what it answered, be it a rejection, shows that it is there.
pub proof fn an_answer_shows_that_the_server_is_there<T>(answer: T, failure: Failure)
    ensures
        verdict_of(Ok::<T, Failure>(answer)) == EngineHealth::Reachable,
        failure.is_unavailable() ==> verdict_of(Err::<T, Failure>(failure))
            == EngineHealth::Unreachable,
        !failure.is_unavailable() ==> verdict_of(Err::<T, Failure>(failure))
            == EngineHealth::Reachable,
{
}

} // verus!

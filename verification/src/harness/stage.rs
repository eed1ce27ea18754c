//! How far a run has come.

use vstd::prelude::*;

verus! {

/// Between two looks at something that is awaited, in milliseconds.
pub const POLL_TICK: u64 = 50;

/// What a run does before its scenarios.
#[derive(Debug, Clone, Copy, PartialEq, Eq, Structural)]
pub enum Stage {
    Guard,
    Profile,
}

impl Stage {
    /// The stage's name.
    pub open spec fn spec_label(self) -> Seq<char> {
        match self {
            Stage::Guard => "guard    (VM の中か)"@,
            Stage::Profile => "profile  (既定 IME の切替)"@,
        }
    }

    /// The stage's name.
    pub fn label(self) -> (label: &'static str)
        ensures
            label@ == self.spec_label(),
    {
        match self {
            Stage::Guard => "guard    (VM の中か)",
            Stage::Profile => "profile  (既定 IME の切替)",
        }
    }
}

/// The line that announces a stage.
pub fn stage(reached: Stage) -> (line: String)
    ensures
        line@ == "== "@ + reached.spec_label() + " =="@,
{
    let mut line = "== ".to_string();
    line.push_str(reached.label());
    line.push_str(" ==");
    line
}

} // verus!

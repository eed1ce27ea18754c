//! Why a call into the engine or the host did not succeed.

use vstd::prelude::*;

verus! {

/// The tag of a failure that means the conversion server could not be
/// reached: it crashed, is restarting, or did not answer in time. A request
/// that a live server rejected never carries it.
#[derive(Debug, Clone, Copy, PartialEq, Eq)]
pub struct ServerUnavailable;

impl ServerUnavailable {
    /// What the tag says for itself.
    pub fn message(&self) -> (text: &'static str)
        ensures
            text@ == "azookey server is unavailable"@,
    {
        "azookey server is unavailable"
    }
}

/// One link of a failure's chain.
#[derive(Debug)]
pub enum Cause {
    Unavailable(ServerUnavailable),
    Message(String),
}

/// A failure and what led to it.
#[derive(Debug)]
pub struct Failure {
    /// The root cause first, then each note that was put around it.
    pub causes: Vec<Cause>,
}

impl Failure {
    /// Whether any link of the chain carries the tag.
    pub open spec fn is_unavailable(self) -> bool {
        exists|i: int| 0 <= i < self.causes@.len() && self.causes@[i] is Unavailable
    }

    /// Whether a failure is described by this message alone.
    pub open spec fn says(self, message: Seq<char>) -> bool {
        self.causes@.len() == 1 && self.causes@[0] is Message && self.causes@[0]->Message_0@
            == message
    }

    /// A failure to reach the server.
    pub fn unavailable() -> (failure: Failure)
        ensures
            failure.causes@ == seq![Cause::Unavailable(ServerUnavailable)],
            failure.is_unavailable(),
    {
        let mut causes: Vec<Cause> = Vec::new();
        causes.push(Cause::Unavailable(ServerUnavailable));
        let failure = Failure { causes };
        assert(failure.causes@[0] is Unavailable);
        failure
    }

    /// A failure that is described by a message alone.
    pub fn new(message: String) -> (failure: Failure)
        ensures
            failure.causes@ == seq![Cause::Message(message)],
            failure.says(message@),
            !failure.is_unavailable(),
    {
        let mut causes: Vec<Cause> = Vec::new();
        causes.push(Cause::Message(message));
        Failure { causes }
    }

    /// Puts a note around a failure. Whether the server was reached does not
    /// change by it.
    pub fn context(self, note: String) -> (failure: Failure)
        ensures
            failure.causes@ == self.causes@.push(Cause::Message(note)),
            failure.is_unavailable() == self.is_unavailable(),
    {
        let ghost before = self.causes@;
        let mut causes = self.causes;
        causes.push(Cause::Message(note));
        let failure = Failure { causes };
        proof {
            if exists|i: int| 0 <= i < before.len() && before[i] is Unavailable {
                let i = choose|i: int| 0 <= i < before.len() && before[i] is Unavailable;
                assert(failure.causes@[i] is Unavailable);
            }
            if failure.is_unavailable() {
                let i = choose|i: int|
                    0 <= i < failure.causes@.len() && failure.causes@[i] is Unavailable;
                assert(before[i] is Unavailable);
            }
        }
        failure
    }
}

/// Whether the failure, or anything that led to it, is that the server could
/// not be reached.
pub fn is_server_unavailable(error: &Failure) -> (found: bool)
    ensures
        found == error.is_unavailable(),
{
    let mut i: usize = 0;
    while i < error.causes.len()
        invariant
            i <= error.causes.len(),
            forall|j: int| 0 <= j < i ==> !(error.causes@[j] is Unavailable),
        decreases error.causes.len() - i,
    {
        if let Cause::Unavailable(_) = &error.causes[i] {
            return true;
        }
        i += 1;
    }
    false
}

/// A failure that says a message is no loss of the server, and says no other.
pub proof fn a_failure_says_one_thing(failure: Failure, message: Seq<char>, other: Seq<char>)
    requires
        failure.says(message),
    ensures
        !failure.is_unavailable(),
        failure.says(other) ==> other == message,
        failure.causes@.len() == 1,
        failure.causes@[0] matches Cause::Message(text) && text@ == message,
{
}

} // verus!

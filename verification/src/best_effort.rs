//! Steps that are all carried out, whatever becomes of each.
//!
//! Taking something down is where this matters: what one step leaves behind,
//! no later one cleans up.

use vstd::prelude::*;

#[allow(unused_imports)]
use crate::strings::decimal;
use crate::strings::decimal_text;

verus! {

/// An error and what led to it, as the `anyhow` crate keeps them.
#[verifier::external_type_specification]
#[verifier::external_body]
pub struct ExError(anyhow::Error);

/// The messages of an error, its own first and then those of its causes.
pub uninterp spec fn chain_of(error: anyhow::Error) -> Seq<Seq<char>>;

/// `anyhow::Error::context`: the note becomes the error's own message, and the
/// error that it was put on its cause.
#[verifier::external_body]
fn with_note(error: anyhow::Error, note: String) -> (noted: anyhow::Error)
    ensures
        chain_of(noted) == seq![note@] + chain_of(error),
{
    error.context(note)
}

/// The account of a run of steps: the first that failed, and how many did.
pub struct BestEffort {
    /// What the steps are, for the report.
    what: &'static str,
    first_error: Option<anyhow::Error>,
    failures: usize,
}

impl BestEffort {
    /// What the steps are.
    pub closed spec fn name(&self) -> Seq<char> {
        self.what@
    }

    /// The first failure.
    pub closed spec fn first(&self) -> Option<anyhow::Error> {
        self.first_error
    }

    /// How many steps failed.
    pub closed spec fn count(&self) -> nat {
        self.failures as nat
    }

    /// There is a first failure where there is any.
    pub open spec fn wf(&self) -> bool {
        self.count() > 0 <==> self.first() is Some
    }

    /// No steps yet.
    pub fn new(what: &'static str) -> (steps: BestEffort)
        ensures
            steps.name() == what@,
            steps.first() is None,
            steps.count() == 0,
            steps.wf(),
    {
        BestEffort { what, first_error: None, failures: 0 }
    }

    /// Takes in how a step went. A failure is counted, and kept where it is
    /// the first; a step that went well leaves the account as it was.
    pub fn step(&mut self, result: Result<(), anyhow::Error>)
        requires
            old(self).wf(),
            result is Err ==> old(self).count() < usize::MAX,
        ensures
            final(self).wf(),
            final(self).name() == old(self).name(),
            match result {
                Ok(_) => *final(self) == *old(self),
                Err(error) => {
                    &&& final(self).count() == old(self).count() + 1
                    &&& final(self).first() == if old(self).first() is Some {
                        old(self).first()
                    } else {
                        Some(error)
                    }
                },
            },
    {
        if let Err(error) = result {
            self.failures = self.failures + 1;
            if self.first_error.is_none() {
                self.first_error = Some(error);
            }
        }
    }

    /// What the steps come to: the first failure, if any failed. A lone one is
    /// itself; where there were more, a note around it says how many.
    pub fn finish(self) -> (result: Result<(), anyhow::Error>)
        requires
            self.wf(),
        ensures
            match self.first() {
                None => result is Ok,
                Some(error) => if self.count() == 1 {
                    result == Err::<(), anyhow::Error>(error)
                } else {
                    result is Err && chain_of(result->Err_0) == seq![
                        self.name() + " had "@ + decimal(self.count())
                            + " failing steps; this is the first"@,
                    ] + chain_of(error)
                },
            },
    {
        match self.first_error {
            None => Ok(()),
            Some(error) => if self.failures == 1 {
                Err(error)
            } else {
                let mut note = self.what.to_string();
                note.push_str(" had ");
                let count = decimal_text(self.failures as u64);
                note.push_str(&count);
                note.push_str(" failing steps; this is the first");
                Err(with_note(error, note))
            },
        }
    }
}

} // verus!

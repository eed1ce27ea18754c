//! A stand-in for the server and the candidate window, which keeps account of
//! what it is asked and answers from a script.

use vstd::prelude::*;

use super::ipc_service::{is_worth_retrying, removal_count, CandidateView, Candidates};
#[allow(unused_imports)]
use super::ipc_service::{
    lost_with_note, retries, CandidatesView, WindowUpdate, IDEMPOTENT_ATTEMPTS,
};
use crate::failure::Failure;

verus! {

/// A call that was made.
#[derive(Debug, PartialEq)]
pub enum IpcCall {
    AppendText(String),
    RemoveText(i32),
    /// With the candidate that was confirmed, if any was.
    ClearText(Option<i32>),
    ShrinkText(i32, Option<i32>),
    SetContext(String),
    ShowWindow,
    HideWindow,
    UpdateCandidateView(CandidateView),
    SetInputMode(String),
}

/// The stand-in.
pub struct FakeIpc {
    /// The calls, in order.
    pub calls: Vec<IpcCall>,
    /// What the converting calls answer.
    pub scripted_candidates: Candidates,
    /// Whether the engine rejects every call.
    pub engine_fails: bool,
    /// Whether the engine is out of reach.
    pub engine_unavailable: bool,
    /// For how many further calls the engine is out of reach.
    pub engine_unavailable_for: u32,
}

impl FakeIpc {
    /// What the engine does with its next call: it is out of reach while its
    /// outage lasts, or for good, and rejects the call where it rejects all.
    pub open spec fn next_failure(self) -> Option<bool> {
        if self.engine_unavailable_for > 0 || self.engine_unavailable {
            Some(true)
        } else if self.engine_fails {
            Some(false)
        } else {
            None
        }
    }

    /// Whether a failure is what the engine answers its next call with, where
    /// it fails: that it is out of reach, for now or for good, or that it
    /// rejects the call.
    pub open spec fn fails_with(self, failure: Failure) -> bool {
        if self.engine_unavailable_for > 0 {
            lost_with_note(failure, "fake server is stalled"@)
        } else if self.engine_unavailable {
            lost_with_note(failure, "fake server unavailable"@)
        } else {
            failure.says("fake engine is down"@)
        }
    }

    /// The stand-in with one call of its outage spent.
    pub open spec fn spent(self) -> FakeIpc {
        FakeIpc {
            engine_unavailable_for: if self.engine_unavailable_for > 0 {
                (self.engine_unavailable_for - 1) as u32
            } else {
                0
            },
            ..self
        }
    }

    /// A stand-in that answers every conversion with the same candidates.
    pub fn new(scripted_candidates: Candidates) -> (fake: FakeIpc)
        ensures
            fake.calls@.len() == 0,
            fake.scripted_candidates == scripted_candidates,
            fake.next_failure() is None,
            fake.engine_unavailable_for == 0,
    {
        FakeIpc {
            calls: Vec::new(),
            scripted_candidates,
            engine_fails: false,
            engine_unavailable: false,
            engine_unavailable_for: 0,
        }
    }

    /// Whether the engine takes its next call.
    pub fn engine_outage(&mut self) -> (result: Result<(), Failure>)
        ensures
            match old(self).next_failure() {
                None => result is Ok,
                Some(unavailable) => {
                    &&& result is Err
                    &&& result->Err_0.is_unavailable() == unavailable
                    &&& old(self).fails_with(result->Err_0)
                },
            },
            *final(self) == old(self).spent(),
    {
        if self.engine_unavailable_for > 0 {
            self.engine_unavailable_for = self.engine_unavailable_for - 1;
            return Err(Failure::unavailable().context("fake server is stalled".to_string()));
        }
        if self.engine_unavailable {
            return Err(Failure::unavailable().context("fake server unavailable".to_string()));
        }
        if self.engine_fails {
            return Err(Failure::new("fake engine is down".to_string()));
        }
        Ok(())
    }

    /// Takes a converting call.
    pub fn engine_answer(&mut self, call: IpcCall) -> (result: Result<Candidates, Failure>)
        ensures
            match old(self).next_failure() {
                None => result is Ok && result->Ok_0@ == old(self).scripted_candidates@,
                Some(unavailable) => {
                    &&& result is Err
                    &&& result->Err_0.is_unavailable() == unavailable
                    &&& old(self).fails_with(result->Err_0)
                },
            },
            final(self).calls@ == old(self).calls@.push(call),
            *final(self) == (FakeIpc { calls: final(self).calls, ..old(self).spent() }),
    {
        self.calls.push(call);
        match self.engine_outage() {
            Ok(_) => Ok(self.scripted_candidates.copy()),
            Err(failure) => Err(failure),
        }
    }

    /// Takes a single call to clear the reading.
    pub fn clear_text_once(&mut self, candidate_index: Option<i32>) -> (result: Result<(), Failure>)
        ensures
            match old(self).next_failure() {
                None => result is Ok,
                Some(unavailable) => {
                    &&& result is Err
                    &&& result->Err_0.is_unavailable() == unavailable
                    &&& old(self).fails_with(result->Err_0)
                },
            },
            final(self).calls@ == old(self).calls@.push(IpcCall::ClearText(candidate_index)),
            *final(self) == (FakeIpc { calls: final(self).calls, ..old(self).spent() }),
    {
        self.calls.push(IpcCall::ClearText(candidate_index));
        self.engine_outage()
    }

    /// Takes a call to clear the reading, which is made once more where the
    /// engine was out of reach the first time.
    pub fn clear_text(&mut self, candidate_index: Option<i32>) -> (result: Result<(), Failure>)
        ensures
            ({
                let again = old(self).next_failure() == Some(true);
                let call = IpcCall::ClearText(candidate_index);
                let last = if again {
                    old(self).spent()
                } else {
                    *old(self)
                };
                &&& final(self).calls@ == if again {
                    old(self).calls@.push(call).push(call)
                } else {
                    old(self).calls@.push(call)
                }
                &&& *final(self) == (FakeIpc { calls: final(self).calls, ..last.spent() })
                &&& match last.next_failure() {
                    None => result is Ok,
                    Some(unavailable) => {
                        &&& result is Err
                        &&& result->Err_0.is_unavailable() == unavailable
                        &&& last.fails_with(result->Err_0)
                    },
                }
            }),
    {
        let first = self.clear_text_once(candidate_index);
        if is_worth_retrying(&first, 1) {
            self.clear_text_once(candidate_index)
        } else {
            first
        }
    }

    /// Takes a call to remove kana.
    pub fn remove_text(&mut self, count: u32) -> (result: Result<Candidates, Failure>)
        ensures
            match old(self).next_failure() {
                None => result is Ok && result->Ok_0@ == old(self).scripted_candidates@,
                Some(unavailable) => {
                    &&& result is Err
                    &&& result->Err_0.is_unavailable() == unavailable
                    &&& old(self).fails_with(result->Err_0)
                },
            },
            final(self).calls@ == old(self).calls@.push(
                IpcCall::RemoveText(
                    if count <= i32::MAX {
                        count as i32
                    } else {
                        i32::MAX
                    },
                ),
            ),
            *final(self) == (FakeIpc { calls: final(self).calls, ..old(self).spent() }),
    {
        self.engine_answer(IpcCall::RemoveText(removal_count(count)))
    }
}

/// A call to clear the reading comes through an outage of one call, and an
/// outage of two or more is what it reports.
pub proof fn clearing_outlasts_an_outage_of_one_call(fake: FakeIpc)
    requires
        !fake.engine_unavailable,
        !fake.engine_fails,
    ensures
        fake.engine_unavailable_for == 1 ==> fake.next_failure() == Some(true)
            && fake.spent().next_failure() is None,
        fake.engine_unavailable_for >= IDEMPOTENT_ATTEMPTS ==> fake.spent().next_failure() == Some(
            true,
        ),
{
}

} // verus!

//! Handing out the text service, and keeping account of what it is advised on.

use std::collections::HashMap;
use vstd::prelude::*;
use vstd::std_specs::hash::*;

use crate::globals::{E_INVALIDARG, GUID_TEXT_SERVICE};

verus! {

broadcast use vstd::std_specs::hash::group_hash_axioms;

pub const IID_UNKNOWN: u128 = 0x00000000_0000_0000_c000_000000000046;

pub const IID_CLASS_FACTORY: u128 = 0x00000001_0000_0000_c000_000000000046;

pub const IID_TEXT_INPUT_PROCESSOR: u128 = 0xaa80e7f7_2021_11d2_93e0_0060b067b86e;

pub const IID_TEXT_INPUT_PROCESSOR_EX: u128 = 0x6e4e2102_f9cd_433d_b496_303ce03a6507;

/// The code for an object that cannot be part of another.
pub const CLASS_E_NOAGGREGATION: u32 = 0x80040110;

/// The code for a class that is not here.
pub const CLASS_E_CLASSNOTAVAILABLE: u32 = 0x80040111;

/// The code for an interface that an object does not have.
pub const E_NOINTERFACE: u32 = 0x80004002;

/// The interface by which a new object is handed out.
#[derive(Debug, Clone, Copy, PartialEq, Eq, Structural)]
pub enum HandedOut {
    Unknown,
    TextInputProcessor,
    TextInputProcessorEx,
    ClassFactory,
}

/// What a request for a new text service gets: it can be no part of another
/// object, and has to be asked for by an interface that it has.
pub fn create_instance(aggregated: bool, iid: u128) -> (created: Result<HandedOut, u32>)
    ensures
        created == if aggregated {
            Err::<HandedOut, u32>(CLASS_E_NOAGGREGATION)
        } else if iid == IID_UNKNOWN {
            Ok::<HandedOut, u32>(HandedOut::Unknown)
        } else if iid == IID_TEXT_INPUT_PROCESSOR {
            Ok::<HandedOut, u32>(HandedOut::TextInputProcessor)
        } else if iid == IID_TEXT_INPUT_PROCESSOR_EX {
            Ok::<HandedOut, u32>(HandedOut::TextInputProcessorEx)
        } else {
            Err::<HandedOut, u32>(E_NOINTERFACE)
        },
{
    if aggregated {
        Err(CLASS_E_NOAGGREGATION)
    } else if iid == IID_UNKNOWN {
        Ok(HandedOut::Unknown)
    } else if iid == IID_TEXT_INPUT_PROCESSOR {
        Ok(HandedOut::TextInputProcessor)
    } else if iid == IID_TEXT_INPUT_PROCESSOR_EX {
        Ok(HandedOut::TextInputProcessorEx)
    } else {
        Err(E_NOINTERFACE)
    }
}

/// What a request for the class gets. `clsid` and `iid` are `None` where the
/// caller gave none.
pub fn class_object(clsid: Option<u128>, iid: Option<u128>, has_result: bool) -> (created: Result<
    HandedOut,
    u32,
>)
    ensures
        created == match (clsid, iid) {
            (Some(clsid), Some(iid)) => if !has_result {
                Err::<HandedOut, u32>(E_INVALIDARG)
            } else if clsid != GUID_TEXT_SERVICE {
                Err::<HandedOut, u32>(CLASS_E_CLASSNOTAVAILABLE)
            } else if iid == IID_UNKNOWN {
                Ok::<HandedOut, u32>(HandedOut::Unknown)
            } else if iid == IID_CLASS_FACTORY {
                Ok::<HandedOut, u32>(HandedOut::ClassFactory)
            } else {
                Err::<HandedOut, u32>(E_NOINTERFACE)
            },
            _ => Err::<HandedOut, u32>(E_INVALIDARG),
        },
{
    match (clsid, iid) {
        (Some(clsid), Some(iid)) => if !has_result {
            Err(E_INVALIDARG)
        } else if clsid != GUID_TEXT_SERVICE {
            Err(CLASS_E_CLASSNOTAVAILABLE)
        } else if iid == IID_UNKNOWN {
            Ok(HandedOut::Unknown)
        } else if iid == IID_CLASS_FACTORY {
            Ok(HandedOut::ClassFactory)
        } else {
            Err(E_NOINTERFACE)
        },
        _ => Err(E_INVALIDARG),
    }
}

/// The sinks that one activation is advised on: the cookie of each, by its
/// interface. Each activation has its own, so that none takes down another's.
pub struct SinkCookies {
    cookies: HashMap<u128, u32>,
}

impl View for SinkCookies {
    type V = Map<u128, u32>;

    closed spec fn view(&self) -> Map<u128, u32> {
        self.cookies@
    }
}

impl SinkCookies {
    /// No sinks.
    pub fn new() -> (cookies: SinkCookies)
        ensures
            cookies@ == Map::<u128, u32>::empty(),
    {
        SinkCookies { cookies: HashMap::new() }
    }

    /// Remembers the cookie of a sink that was advised.
    pub fn advise_sink(&mut self, iid: u128, cookie: u32)
        ensures
            final(self)@ == old(self)@.insert(iid, cookie),
    {
        self.cookies.insert(iid, cookie);
    }

    /// The cookie by which a sink is to be taken down, which is then
    /// forgotten; `None` where it was never advised, and there is nothing to
    /// do.
    pub fn unadvise_sink(&mut self, iid: u128) -> (cookie: Option<u32>)
        ensures
            cookie == if old(self)@.contains_key(iid) {
                Some(old(self)@[iid])
            } else {
                None
            },
            final(self)@ == old(self)@.remove(iid),
    {
        self.cookies.remove(&iid)
    }
}

/// A sink is taken down with the cookie that it was advised under, and only
/// once; the others are not touched by it.
pub proof fn a_sink_is_taken_down_once(cookies: Map<u128, u32>, iid: u128, cookie: u32, other: u128)
    requires
        other != iid,
    ensures
        ({
            let advised = cookies.insert(iid, cookie);
            let after = advised.remove(iid);
            &&& advised[iid] == cookie
            &&& !after.contains_key(iid)
            &&& after.contains_key(other) == cookies.contains_key(other)
            &&& cookies.contains_key(other) ==> after[other] == cookies[other]
        }),
{
}

} // verus!

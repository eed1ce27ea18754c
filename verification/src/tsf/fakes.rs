//! A stand-in for the host: how it answers is set beforehand, and it keeps
//! account of what it is asked.

use vstd::prelude::*;

#[allow(unused_imports)]
use super::edit_session::ES_READWRITE;
use super::edit_session::{Rect, ES_SYNC, TS_E_NOLAYOUT};

verus! {

/// How a host answers a request for an edit of the document.
#[derive(Debug, Clone, Copy, PartialEq, Eq, Structural)]
pub enum EditSessionBehavior {
    /// It makes the edit at once.
    RunSync,
    /// It accepts the request, does not make the edit, and says so only aside.
    DenyViaSessionResult,
    /// It accepts the request and puts the edit off.
    Async,
    /// It refuses the request.
    Reject,
    /// It refuses a request that has to be met at once, and meets any other at
    /// once.
    RejectSyncRequests,
}

/// What becomes of an edit that is requested.
#[derive(Debug, Clone, Copy, PartialEq, Eq, Structural)]
pub enum SessionAnswer {
    Made,
    /// Accepted, and not made.
    NotMade,
    Refused,
}

/// What becomes of an edit that is requested with these flags.
pub open spec fn answer_to(behavior: EditSessionBehavior, flags: u32) -> SessionAnswer {
    match behavior {
        EditSessionBehavior::RunSync => SessionAnswer::Made,
        EditSessionBehavior::DenyViaSessionResult => SessionAnswer::NotMade,
        EditSessionBehavior::Async => SessionAnswer::NotMade,
        EditSessionBehavior::Reject => SessionAnswer::Refused,
        EditSessionBehavior::RejectSyncRequests => if flags & ES_SYNC != 0 {
            SessionAnswer::Refused
        } else {
            SessionAnswer::Made
        },
    }
}

impl EditSessionBehavior {
    /// What becomes of an edit that is requested with these flags.
    pub fn request_edit_session(self, flags: u32) -> (answer: SessionAnswer)
        ensures
            answer == answer_to(self, flags),
    {
        match self {
            EditSessionBehavior::RunSync => SessionAnswer::Made,
            EditSessionBehavior::DenyViaSessionResult => SessionAnswer::NotMade,
            EditSessionBehavior::Async => SessionAnswer::NotMade,
            EditSessionBehavior::Reject => SessionAnswer::Refused,
            EditSessionBehavior::RejectSyncRequests => if flags & ES_SYNC != 0 {
                SessionAnswer::Refused
            } else {
                SessionAnswer::Made
            },
        }
    }
}

/// A host that refuses only what has to be made at once makes every edit: none
/// is requested so.
pub proof fn no_edit_has_to_be_made_at_once(flags: u32)
    requires
        flags == ES_READWRITE,
    ensures
        answer_to(EditSessionBehavior::RejectSyncRequests, flags) == SessionAnswer::Made,
{
    assert(6u32 & 1u32 == 0u32) by (bit_vector);
}

/// How a host answers when it is asked where text is.
#[derive(Debug, Clone, Copy, PartialEq, Eq, Structural)]
pub enum TextExtBehavior {
    Whole,
    NoLayout,
    Clipped,
}

/// The place where every text is.
pub const FAKE_LEFT: i32 = 10;

pub const FAKE_TOP: i32 = 20;

pub const FAKE_RIGHT: i32 = 110;

pub const FAKE_BOTTOM: i32 = 44;

/// A view of the document, and how often it was asked.
#[derive(Debug)]
pub struct ViewLog {
    pub get_text_ext_calls: usize,
    pub text_ext_behavior: TextExtBehavior,
}

impl ViewLog {
    /// Where text is: whether it could be measured, whether it is clipped, and
    /// the rectangle.
    pub fn get_text_ext(&mut self) -> (measured: (Result<(), u32>, bool, Rect))
        requires
            old(self).get_text_ext_calls < usize::MAX,
        ensures
            final(self).get_text_ext_calls == old(self).get_text_ext_calls + 1,
            final(self).text_ext_behavior == old(self).text_ext_behavior,
            measured.0 == if old(self).text_ext_behavior == TextExtBehavior::NoLayout {
                Err::<(), u32>(TS_E_NOLAYOUT)
            } else {
                Ok::<(), u32>(())
            },
            measured.1 == (old(self).text_ext_behavior == TextExtBehavior::Clipped),
            measured.2 == (Rect {
                left: FAKE_LEFT,
                top: FAKE_TOP,
                right: FAKE_RIGHT,
                bottom: FAKE_BOTTOM,
            }),
    {
        self.get_text_ext_calls = self.get_text_ext_calls + 1;
        let rect = Rect {
            left: FAKE_LEFT,
            top: FAKE_TOP,
            right: FAKE_RIGHT,
            bottom: FAKE_BOTTOM,
        };
        if self.text_ext_behavior == TextExtBehavior::NoLayout {
            return (Err(TS_E_NOLAYOUT), false, rect);
        }
        (Ok(()), self.text_ext_behavior == TextExtBehavior::Clipped, rect)
    }
}

/// A document, and what was asked of its ranges.
#[derive(Debug)]
pub struct RangeLog {
    pub shift_start_reqs: Vec<i32>,
    pub shift_end_reqs: Vec<i32>,
    /// What the document holds.
    pub text: Vec<u16>,
    /// What was written, in order.
    pub set_texts: Vec<Vec<u16>>,
    /// The ranges that are held.
    pub live: usize,
}

impl RangeLog {
    /// A document that holds a text.
    pub fn new(text: Vec<u16>) -> (log: RangeLog)
        ensures
            log.text == text,
            log.live == 0,
            log.set_texts@.len() == 0,
            log.shift_start_reqs@.len() == 0,
            log.shift_end_reqs@.len() == 0,
    {
        RangeLog {
            shift_start_reqs: Vec::new(),
            shift_end_reqs: Vec::new(),
            text,
            set_texts: Vec::new(),
            live: 0,
        }
    }

    /// The ranges that are held.
    pub fn live_ranges(&self) -> (live: usize)
        ensures
            live == self.live,
    {
        self.live
    }

    /// Reads the document into a buffer of `capacity` units, from its start: a
    /// buffer that comes back full may not hold all of it.
    pub fn get_text(&self, capacity: usize) -> (read: Vec<u16>)
        ensures
            read@ == if self.text@.len() <= capacity {
                self.text@
            } else {
                self.text@.take(capacity as int)
            },
    {
        let mut read: Vec<u16> = Vec::new();
        let mut i: usize = 0;
        while i < self.text.len() && i < capacity
            invariant
                i <= self.text.len(),
                i <= capacity,
                read@ == self.text@.take(i as int),
            decreases self.text.len() - i,
        {
            read.push(self.text[i]);
            i += 1;
            assert(self.text@.take(i as int) =~= self.text@.take(i - 1).push(self.text@[i - 1]));
        }
        assert(self.text@.take(self.text@.len() as int) =~= self.text@);
        read
    }
}

/// How a host deals with the candidate list, and what it was told of it.
#[derive(Debug)]
pub struct UiElementLog {
    /// Whether the host lets the window be shown.
    pub show: bool,
    pub begin_calls: usize,
    pub update_calls: usize,
    pub end_calls: usize,
    /// The numbers that were given out, and those that were given back.
    pub begun_ids: Vec<u32>,
    pub ended_ids: Vec<u32>,
    /// The number that was given out last.
    pub last_id: u32,
}

impl UiElementLog {
    /// No more numbers came back than were given out.
    pub open spec fn wf(&self) -> bool {
        self.ended_ids@.len() <= self.begun_ids@.len()
    }

    /// A host that lets the window be shown, or draws the candidates itself.
    pub fn new(show: bool) -> (log: UiElementLog)
        ensures
            log.show == show,
            log.wf(),
            log.begin_calls == 0,
            log.update_calls == 0,
            log.end_calls == 0,
            log.begun_ids@.len() == 0,
            log.ended_ids@.len() == 0,
            log.last_id == 0x4100,
    {
        UiElementLog {
            show,
            begin_calls: 0,
            update_calls: 0,
            end_calls: 0,
            begun_ids: Vec::new(),
            ended_ids: Vec::new(),
            last_id: 0x4100,
        }
    }

    /// A host that draws the candidates itself.
    pub fn suppressing() -> (log: UiElementLog)
        ensures
            !log.show,
            log.wf(),
            log.begin_calls == 0,
            log.update_calls == 0,
            log.end_calls == 0,
            log.begun_ids@.len() == 0,
            log.ended_ids@.len() == 0,
            log.last_id == 0x4100,
    {
        UiElementLog::new(false)
    }

    /// The lists that the host still knows of.
    pub fn live_elements(&self) -> (live: usize)
        requires
            self.wf(),
        ensures
            live == self.begun_ids@.len() - self.ended_ids@.len(),
    {
        self.begun_ids.len() - self.ended_ids.len()
    }

    /// Is told of a list: gives it a number and says whether the window may be
    /// shown.
    pub fn begin_ui_element(&mut self) -> (answer: (u32, bool))
        requires
            old(self).wf(),
            old(self).last_id < u32::MAX,
            old(self).begin_calls < usize::MAX,
        ensures
            final(self).wf(),
            answer == ((old(self).last_id + 1) as u32, old(self).show),
            final(self).last_id == old(self).last_id + 1,
            final(self).begin_calls == old(self).begin_calls + 1,
            final(self).begun_ids@ == old(self).begun_ids@.push(answer.0),
            final(self).ended_ids@ == old(self).ended_ids@,
            final(self).show == old(self).show,
            final(self).update_calls == old(self).update_calls,
            final(self).end_calls == old(self).end_calls,
    {
        self.begin_calls = self.begin_calls + 1;
        self.last_id = self.last_id + 1;
        self.begun_ids.push(self.last_id);
        (self.last_id, self.show)
    }

    /// Is told that a list has changed.
    pub fn update_ui_element(&mut self)
        requires
            old(self).update_calls < usize::MAX,
        ensures
            *final(self) == (UiElementLog {
                update_calls: (old(self).update_calls + 1) as usize,
                ..*old(self)
            }),
    {
        self.update_calls = self.update_calls + 1;
    }

    /// Is told that a list is over.
    pub fn end_ui_element(&mut self, id: u32)
        requires
            old(self).ended_ids@.len() < old(self).begun_ids@.len(),
            old(self).end_calls < usize::MAX,
        ensures
            final(self).wf(),
            final(self).ended_ids@ == old(self).ended_ids@.push(id),
            final(self).begun_ids@ == old(self).begun_ids@,
            final(self).end_calls == old(self).end_calls + 1,
            final(self).show == old(self).show,
            final(self).begin_calls == old(self).begin_calls,
            final(self).update_calls == old(self).update_calls,
            final(self).last_id == old(self).last_id,
    {
        self.end_calls = self.end_calls + 1;
        self.ended_ids.push(id);
    }
}

} // verus!

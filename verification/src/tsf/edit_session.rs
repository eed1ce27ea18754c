//! What is written into the document, and where the candidates go.

use vstd::prelude::*;

use super::text_service::{TextService, LAYOUT_CHANGE_SUPPRESSION};
#[allow(unused_imports)]
use super::text_service::UpdatePosState;
use crate::engine::composition::Composition;
use crate::engine::ipc_service::CandidateView;
#[allow(unused_imports)]
use crate::engine::ipc_service::WindowUpdate;
use crate::strings::encode_utf16;
#[allow(unused_imports)]
use crate::strings::{utf16, utf16_of_joined};

verus! {

/// What the host answers while it has not laid the text out yet.
pub const TS_E_NOLAYOUT: u32 = 0x80040206;

/// The flag of a request for an edit that has to be made at once. Some hosts
/// refuse every such request.
pub const ES_SYNC: u32 = 1;

/// The flags of a request to read and to write.
pub const ES_READWRITE: u32 = 6;

/// The flags that every edit is requested with. None has to be made at once.
pub fn session_flags() -> (flags: u32)
    ensures
        flags == ES_READWRITE,
        flags & ES_SYNC == 0,
{
    assert(6u32 & 1u32 == 0u32) by (bit_vector);
    ES_READWRITE
}

/// What a request for an edit comes to: a refusal is a failure, by its code,
/// and otherwise it is what the edit left behind. A host may put the edit off,
/// or not make it and say so only aside; then it has left nothing, and that is
/// no failure.
pub fn edit_session<T>(requested: Result<(), u32>, left: Option<T>) -> (result: Result<
    Option<T>,
    u32,
>)
    ensures
        result == match requested {
            Ok(_) => Ok::<Option<T>, u32>(left),
            Err(code) => Err::<Option<T>, u32>(code),
        },
{
    match requested {
        Ok(_) => Ok(left),
        Err(code) => Err(code),
    }
}

/// What an attempt to tell the caret's position came to. Only the first tells
/// it; the others leave the window where it is, for the host reports a change
/// of the layout when there is something new.
#[derive(Debug, Clone, Copy, PartialEq, Eq, Structural)]
pub enum PositionUpdate {
    Sent,
    PendingLayout,
    Clipped,
    NoIpc,
}

/// A rectangle on the screen.
#[derive(Debug, Clone, Copy, PartialEq, Eq, Structural)]
pub struct Rect {
    pub left: i32,
    pub top: i32,
    pub right: i32,
    pub bottom: i32,
}

/// What the host's measuring of the text comes to. A layout that is pending is
/// no failure; any other code is, and is handed on.
pub fn classify_text_ext(measured: Result<(), u32>, clipped: bool) -> (outcome: Result<
    PositionUpdate,
    u32,
>)
    ensures
        outcome == match measured {
            Err(code) => if code == TS_E_NOLAYOUT {
                Ok::<PositionUpdate, u32>(PositionUpdate::PendingLayout)
            } else {
                Err::<PositionUpdate, u32>(code)
            },
            Ok(_) => if clipped {
                Ok::<PositionUpdate, u32>(PositionUpdate::Clipped)
            } else {
                Ok::<PositionUpdate, u32>(PositionUpdate::Sent)
            },
        },
{
    match measured {
        Err(code) => if code == TS_E_NOLAYOUT {
            Ok(PositionUpdate::PendingLayout)
        } else {
            Err(code)
        },
        Ok(_) => if clipped {
            Ok(PositionUpdate::Clipped)
        } else {
            Ok(PositionUpdate::Sent)
        },
    }
}

/// What the window is told of a measured text: its rectangle, where it was
/// measured whole and there is a window to tell.
pub fn send_range_position(
    has_ipc: bool,
    measured: Result<(), u32>,
    clipped: bool,
    rect: Rect,
) -> (sent: Result<(PositionUpdate, Option<CandidateView>), u32>)
    ensures
        match sent {
            Ok((outcome, view)) => {
                &&& outcome == PositionUpdate::NoIpc <==> !has_ipc
                &&& outcome == PositionUpdate::PendingLayout <==> has_ipc && measured == Err::<
                    (),
                    u32,
                >(TS_E_NOLAYOUT)
                &&& outcome == PositionUpdate::Clipped <==> has_ipc && measured is Ok && clipped
                &&& outcome == PositionUpdate::Sent <==> has_ipc && measured is Ok && !clipped
                &&& match view {
                    Some(view) => outcome == PositionUpdate::Sent && view@ == (WindowUpdate {
                        candidates: None,
                        selection: None,
                        position: Some((rect.top, rect.left, rect.bottom, rect.right)),
                    }),
                    None => outcome != PositionUpdate::Sent,
                }
            },
            Err(code) => has_ipc && measured == Err::<(), u32>(code) && code != TS_E_NOLAYOUT,
        },
{
    if !has_ipc {
        return Ok((PositionUpdate::NoIpc, None));
    }
    match classify_text_ext(measured, clipped) {
        Ok(outcome) => if outcome == PositionUpdate::Sent {
            Ok((outcome, Some(CandidateView::at(rect.top, rect.left, rect.bottom, rect.right))))
        } else {
            Ok((outcome, None))
        },
        Err(code) => Err(code),
    }
}

/// What is to be measured to tell the caret's position.
#[derive(Debug, Clone, Copy, PartialEq, Eq, Structural)]
pub enum PositionSource {
    Nothing,
    Composition,
    Selection,
}

impl<H> TextService<H> {
    /// Sets out to tell where the composition is. `None` where this is being
    /// done already, as a host that reports a change of the layout in the
    /// middle of it would have it; then nothing is left to do. Otherwise, and
    /// whatever comes of the measuring, [`TextService::finish_update_pos`] is
    /// called at the end.
    pub fn update_pos(&mut self, now: u64) -> (source: Option<PositionSource>)
        requires
            now + LAYOUT_CHANGE_SUPPRESSION <= u64::MAX,
        ensures
            source == if old(self).update_pos_state is Updating {
                None
            } else if old(self).composition.spec_tip() is Some {
                Some(PositionSource::Composition)
            } else {
                Some(PositionSource::Nothing)
            },
            *final(self) == if source is Some {
                TextService {
                    update_pos_state: UpdatePosState::Updating {
                        suppress_layout_until: (now + LAYOUT_CHANGE_SUPPRESSION) as u64,
                    },
                    ..*old(self)
                }
            } else {
                *old(self)
            },
    {
        if !self.update_pos_state.try_begin_update(now) {
            return None;
        }
        if self.composition.has_tip() {
            Some(PositionSource::Composition)
        } else {
            Some(PositionSource::Nothing)
        }
    }

    /// Ends the telling of the position.
    pub fn finish_update_pos(&mut self, now: u64)
        ensures
            !(final(self).update_pos_state is Updating),
            *final(self) == (TextService {
                update_pos_state: final(self).update_pos_state,
                ..*old(self)
            }),
            final(self).update_pos_state == match old(self).update_pos_state {
                UpdatePosState::Updating { suppress_layout_until } => if now
                    <= suppress_layout_until {
                    UpdatePosState::SuppressingLayoutChange { until: suppress_layout_until }
                } else {
                    UpdatePosState::Idle
                },
                state => state,
            },
    {
        self.update_pos_state.finish_update(now);
    }

    /// What to measure to tell where the caret is when the mode is shown: the
    /// selection, unless there is no document yet or something is composed,
    /// whose place is told on its own.
    pub fn update_pos_from_selection(&self, has_context: bool) -> (source: PositionSource)
        ensures
            source == if has_context && self.composition.spec_tip() is None {
                PositionSource::Selection
            } else {
                PositionSource::Nothing
            },
    {
        if has_context && !self.composition.has_tip() {
            PositionSource::Selection
        } else {
            PositionSource::Nothing
        }
    }

    /// Whether a change of the layout is to make the position be told again.
    pub fn on_layout_change(&mut self, now: u64) -> (tell: bool)
        ensures
            tell == match old(self).update_pos_state {
                UpdatePosState::Idle => true,
                UpdatePosState::Updating { .. } => false,
                UpdatePosState::SuppressingLayoutChange { until } => now > until,
            },
            *final(self) == (TextService {
                update_pos_state: if tell {
                    UpdatePosState::Idle
                } else {
                    old(self).update_pos_state
                },
                ..*old(self)
            }),
    {
        !self.update_pos_state.should_skip_layout_change(now)
    }
}

/// What is written into a composition: all of the text, of which the first
/// `marked` units are drawn as converted.
#[derive(Debug)]
pub struct SetText {
    pub units: Vec<u16>,
    pub marked: i32,
}

/// What shows a text and the rest after it. The document counts in UTF-16
/// units, and so does this.
pub fn set_text(text: &str, subtext: &str) -> (write: SetText)
    ensures
        write.units@ == utf16(text@ + subtext@),
        write.units@ == utf16(text@) + utf16(subtext@),
        write.marked == utf16(text@).len() as i32,
{
    let mut units = encode_utf16(text);
    let marked: i32 = #[verifier::truncate] (units.len() as i32);
    let mut rest = encode_utf16(subtext);
    units.append(&mut rest);
    proof {
        utf16_of_joined(text@, subtext@);
    }
    SetText { units, marked }
}

/// What commits the front of a composition: its start moves on by `shift`
/// units, and the units are what is composed from there.
#[derive(Debug)]
pub struct ShiftStart {
    pub shift: i32,
    pub units: Vec<u16>,
}

/// What commits `text` at the front of a composition and goes on with
/// `subtext`.
pub fn shift_start(text: &str, subtext: &str) -> (write: ShiftStart)
    ensures
        write.shift == utf16(text@).len() as i32,
        write.units@ == utf16(subtext@),
{
    let committed = encode_utf16(text);
    ShiftStart {
        shift: #[verifier::truncate] (committed.len() as i32),
        units: encode_utf16(subtext),
    }
}

/// The part of a text that is drawn as converted ends where the text ends, and
/// so never inside a character.
pub proof fn the_mark_ends_with_the_text(text: Seq<char>, subtext: Seq<char>)
    requires
        utf16(text).len() <= i32::MAX,
    ensures
        utf16(text + subtext).take((utf16(text).len() as i32) as int) == utf16(text),
        utf16(text + subtext).skip((utf16(text).len() as i32) as int) == utf16(subtext),
{
    utf16_of_joined(text, subtext);
    assert(utf16(text + subtext).take(utf16(text).len() as int) =~= utf16(text));
    assert(utf16(text + subtext).skip(utf16(text).len() as int) =~= utf16(subtext));
}

/// The units that the text of a composition is first read with.
pub const FIRST_READ: usize = 1024;

/// The units that no composition is read beyond.
pub const MAX_COMPOSITION_UNITS: usize = 0x10_0000;

/// What reading the text of a composition came to.
#[derive(Debug, Clone, Copy, PartialEq, Eq, Structural)]
pub enum ReadStep {
    /// The text is the first so many units.
    Complete(usize),
    /// The buffer was full, so that there may be more: read with one of this
    /// size.
    Retry(usize),
    /// The text is longer than is ever read; it is cut after so many units.
    Truncated(usize),
}

/// What a read that gave `read` units into a buffer of `capacity` came to.
/// Only a buffer that is not full shows that there is no more.
pub fn read_range_text(read: usize, capacity: usize) -> (step: ReadStep)
    ensures
        step == if read < capacity {
            ReadStep::Complete(read)
        } else if capacity >= MAX_COMPOSITION_UNITS {
            ReadStep::Truncated(read)
        } else {
            ReadStep::Retry((capacity * 4) as usize)
        },
{
    if read < capacity {
        ReadStep::Complete(read)
    } else if capacity >= MAX_COMPOSITION_UNITS {
        ReadStep::Truncated(read)
    } else {
        ReadStep::Retry(capacity * 4)
    }
}

/// Whether a text of `len` units is read whole, where the reading starts with a
/// buffer of `capacity`.
pub open spec fn reads_whole(len: nat, capacity: nat) -> bool
    decreases
            (if capacity >= MAX_COMPOSITION_UNITS {
                0
            } else {
                MAX_COMPOSITION_UNITS - capacity
            }),
{
    if capacity == 0 || len < capacity {
        len < capacity
    } else if capacity >= MAX_COMPOSITION_UNITS {
        false
    } else {
        reads_whole(len, capacity * 4)
    }
}

/// Reading starts small and grows, and every text that is shorter than the
/// limit is read whole.
pub proof fn every_shorter_text_is_read_whole(len: nat)
    requires
        len < MAX_COMPOSITION_UNITS,
    ensures
        reads_whole(len, FIRST_READ as nat),
{
    reveal_with_fuel(reads_whole, 7);
}

/// A step of starting a composition.
#[derive(Debug, Clone, Copy, PartialEq, Eq, Structural)]
pub enum StartStep {
    /// End the composition that the handle is left over from. That it cannot
    /// be ended does not matter.
    EndStale,
    /// Have the host open one at the caret, and keep the handle that it gives.
    Open,
}

impl<H> Composition<H> {
    /// What starting a composition takes. A handle that is left over is given
    /// up first, and a fresh composition is opened all the same: what the old
    /// one stood for is most likely dead, and text would be lost in it.
    pub fn start_composition(&self) -> (steps: Vec<StartStep>)
        ensures
            steps@ == if self.spec_tip() is Some {
                seq![StartStep::EndStale, StartStep::Open]
            } else {
                seq![StartStep::Open]
            },
    {
        let mut steps: Vec<StartStep> = Vec::new();
        if self.has_tip() {
            steps.push(StartStep::EndStale);
        }
        steps.push(StartStep::Open);
        assert(steps@ =~= if self.spec_tip() is Some {
            seq![StartStep::EndStale, StartStep::Open]
        } else {
            seq![StartStep::Open]
        });
        steps
    }
}

} // verus!

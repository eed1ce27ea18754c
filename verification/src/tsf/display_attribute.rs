//! How the composition is drawn, as the host enumerates it.

use vstd::prelude::*;

use crate::globals::GUID_DISPLAY_ATTRIBUTE;

verus! {

/// A place in an enumeration of so many items.
#[derive(Debug, Clone, Copy, PartialEq, Eq, Structural)]
pub struct EnumDisplayAttributeInfo {
    pub index: usize,
    pub len: usize,
}

/// What asking for the next items came to.
#[derive(Debug, Clone, Copy, PartialEq, Eq, Structural)]
pub enum NextItems {
    /// There is nowhere to put them.
    NoBuffer,
    /// The items from this index on, so many of them; all that were asked for.
    All { from: usize, fetched: u32 },
    /// The items from this index on, so many of them; fewer than were asked
    /// for, since there are no more.
    Fewer { from: usize, fetched: u32 },
}

impl EnumDisplayAttributeInfo {
    /// The place is within the items, or after the last.
    pub open spec fn wf(self) -> bool {
        self.index <= self.len
    }

    /// The start of an enumeration.
    pub fn new(len: usize) -> (cursor: EnumDisplayAttributeInfo)
        ensures
            cursor == (EnumDisplayAttributeInfo { index: 0, len }),
            cursor.wf(),
    {
        EnumDisplayAttributeInfo { index: 0, len }
    }

    /// The next items, as many as were asked for and there are. A host that
    /// goes on while it gets all it asked for comes to an end by it.
    pub fn next(&mut self, count: u32, has_buffer: bool) -> (items: NextItems)
        requires
            old(self).wf(),
        ensures
            final(self).wf(),
            final(self).len == old(self).len,
            ({
                let left = old(self).len - old(self).index;
                let fetched = if count <= left {
                    count as int
                } else {
                    left
                };
                if count == 0 {
                    &&& items == NextItems::All { from: old(self).index, fetched: 0 }
                    &&& *final(self) == *old(self)
                } else if !has_buffer {
                    &&& items == NextItems::NoBuffer
                    &&& *final(self) == *old(self)
                } else {
                    &&& items == if count <= left {
                        NextItems::All { from: old(self).index, fetched: fetched as u32 }
                    } else {
                        NextItems::Fewer { from: old(self).index, fetched: fetched as u32 }
                    }
                    &&& final(self).index == old(self).index + fetched
                }
            }),
    {
        if count == 0 {
            return NextItems::All { from: self.index, fetched: 0 };
        }
        if !has_buffer {
            return NextItems::NoBuffer;
        }
        let from: usize = self.index;
        let left: usize = self.len - self.index;
        if count as usize <= left {
            self.index = from + count as usize;
            NextItems::All { from, fetched: count }
        } else {
            self.index = self.len;
            NextItems::Fewer { from, fetched: left as u32 }
        }
    }

    /// Back to the start.
    pub fn reset(&mut self)
        ensures
            *final(self) == (EnumDisplayAttributeInfo { index: 0, len: old(self).len }),
            final(self).wf(),
    {
        self.index = 0;
    }

    /// Passes over so many items, or all that there are.
    pub fn skip(&mut self, count: u32)
        requires
            old(self).wf(),
        ensures
            final(self).wf(),
            final(self).len == old(self).len,
            final(self).index == if old(self).index + count <= old(self).len {
                old(self).index + count
            } else {
                old(self).len as int
            },
    {
        if count as usize <= self.len - self.index {
            self.index = self.index + count as usize;
        } else {
            self.index = self.len;
        }
    }
}

/// Which of the attributes a host asks for; there is one.
pub fn get_display_attribute_info(guid: u128) -> (index: Option<usize>)
    ensures
        index == if guid == GUID_DISPLAY_ATTRIBUTE {
            Some(0usize)
        } else {
            None
        },
{
    if guid == GUID_DISPLAY_ATTRIBUTE {
        Some(0)
    } else {
        None
    }
}

} // verus!

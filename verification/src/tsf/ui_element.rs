//! The candidate list as an element that the host may draw itself.
//!
//! Whatever goes wrong with the host's side of it, the answer is that the
//! window is shown: candidates that nobody draws would be a fault without a
//! trace.

use vstd::prelude::*;

use super::text_service::{TextService, UiElementState};
use crate::engine::ipc_service::Candidates;
#[allow(unused_imports)]
use crate::engine::ipc_service::CandidatesView;
use crate::globals::E_INVALIDARG;
use crate::strings::same_text;

verus! {

/// The candidates of a page. The window scrolls by as many.
pub const CANDIDATE_PAGE_SIZE: u32 = 5;

/// Whether the environment asks for the window to be shown whatever the host
/// says: a value of `1` or `true` does.
pub fn forces_candidate_window(value: Option<&str>) -> (forced: bool)
    ensures
        forced == match value {
            Some(text) => text@ == "1"@ || text@ == "true"@,
            None => false,
        },
{
    match value {
        Some(text) => same_text(text, "1") || same_text(text, "true"),
        None => false,
    }
}

/// The pages that so many candidates take.
pub open spec fn pages(count: u32) -> int {
    (count + CANDIDATE_PAGE_SIZE - 1) / CANDIDATE_PAGE_SIZE as int
}

impl UiElementState {
    /// Whether the window may be shown: it may where it is forced, where the
    /// host does not know of the list, and where the host says so.
    pub open spec fn shows(self, forced: bool) -> bool {
        forced || self.id is None || self.show
    }

    /// The answer that the host has already given, where it knows of the list.
    pub fn known_answer(&self) -> (answer: Option<bool>)
        ensures
            answer == match self.id {
                Some(_) => Some(self.show),
                None => None,
            },
    {
        match self.id {
            Some(_) => Some(self.show),
            None => None,
        }
    }

    /// Takes in what the host answered when it was told of the list: the
    /// number that it gave it and whether the window may be shown. A host that
    /// gave no answer wants the window.
    pub fn ui_begin(&mut self, answer: Option<(u32, bool)>, forced: bool) -> (show: bool)
        ensures
            show == match answer {
                Some((_, shown)) => shown || forced,
                None => true,
            },
            *final(self) == match answer {
                Some((id, _)) => UiElementState { id: Some(id), show, ..*old(self) },
                None => *old(self),
            },
    {
        match answer {
            Some((id, shown)) => {
                let show = shown || forced;
                self.id = Some(id);
                self.show = show;
                show
            },
            None => true,
        }
    }

    /// Puts up a new list for the host to read, and says under which number
    /// the host is to be notified, where it knows of the list.
    pub fn ui_update(&mut self, candidates: Candidates, selection_index: i32, updated_flags: u32)
        -> (id: Option<u32>)
        ensures
            id == old(self).id,
            *final(self) == (UiElementState {
                candidates,
                selection_index,
                updated_flags,
                ..*old(self)
            }),
    {
        self.candidates = candidates;
        self.selection_index = selection_index;
        self.updated_flags = updated_flags;
        self.id
    }

    /// Takes the list down, and says under which number the host is to be told
    /// that it is over, where it knows of the list.
    pub fn ui_end(&mut self) -> (id: Option<u32>)
        ensures
            id == old(self).id,
            final(self).id is None,
            !final(self).show,
            final(self).updated_flags == 0,
            final(self).candidates@ == CandidatesView::empty(),
            final(self).selection_index == 0,
    {
        let id: Option<u32> = self.id;
        self.id = None;
        self.show = false;
        self.candidates = Candidates::none();
        self.selection_index = 0;
        self.updated_flags = 0;
        id
    }

    /// The candidates that there are.
    pub fn count(&self) -> (count: u32)
        ensures
            count == self.candidates@.texts.len() as u32,
    {
        #[verifier::truncate]
        (self.candidates.texts.len() as u32)
    }

    /// The candidate that is selected; the first where none is.
    pub fn selection(&self) -> (selection: u32)
        ensures
            selection == if self.selection_index < 0 {
                0
            } else {
                self.selection_index as int
            },
    {
        if self.selection_index < 0 {
            0
        } else {
            self.selection_index as u32
        }
    }

    /// The text of a candidate, where there is one at the index.
    pub fn string(&self, index: u32) -> (text: Option<String>)
        ensures
            match text {
                Some(text) => index < self.candidates@.texts.len() && text@
                    == self.candidates@.texts[index as int],
                None => index >= self.candidates@.texts.len(),
            },
    {
        if (index as usize) < self.candidates.texts.len() {
            Some(self.candidates.entry(index as usize).0)
        } else {
            None
        }
    }

    /// The pages that the candidates take.
    pub fn page_count(&self) -> (count: u32)
        ensures
            count == pages(self.candidates@.texts.len() as u32),
    {
        let count: u32 = self.count();
        if count == 0 {
            0
        } else {
            (count - 1) / CANDIDATE_PAGE_SIZE + 1
        }
    }

    /// Where each page starts, for as many pages as there is room for.
    pub fn page_starts(&self, room: u32) -> (starts: Vec<u32>)
        ensures
            starts@.len() == if pages(self.candidates@.texts.len() as u32) <= room {
                pages(self.candidates@.texts.len() as u32)
            } else {
                room as int
            },
            forall|i: int|
                0 <= i < starts@.len() ==> #[trigger] starts@[i] == i * CANDIDATE_PAGE_SIZE,
    {
        let total: u32 = self.page_count();
        let writable: u32 = if total <= room {
            total
        } else {
            room
        };
        let mut starts: Vec<u32> = Vec::new();
        let mut i: u32 = 0;
        while i < writable
            invariant
                i == starts.len(),
                i <= writable,
                writable <= total,
                total == pages(self.candidates@.texts.len() as u32),
                forall|j: int| 0 <= j < i ==> #[trigger] starts@[j] == j * CANDIDATE_PAGE_SIZE,
            decreases writable - i,
        {
            starts.push(i * CANDIDATE_PAGE_SIZE);
            i += 1;
        }
        starts
    }

    /// What a host gets that asks where the pages start: with no room given,
    /// only how many there are; otherwise the starts that there is room for,
    /// and how many of them. It has to say where the number goes.
    pub fn get_page_index(&self, room: Option<u32>, has_count: bool) -> (answer: Result<
        (Vec<u32>, u32),
        u32,
    >)
        ensures
            match answer {
                Err(code) => !has_count && code == E_INVALIDARG,
                Ok((starts, count)) => {
                    let total = pages(self.candidates@.texts.len() as u32);
                    &&& has_count
                    &&& forall|i: int|
                        0 <= i < starts@.len() ==> #[trigger] starts@[i] == i * CANDIDATE_PAGE_SIZE
                    &&& match room {
                        None => starts@.len() == 0 && count == total,
                        Some(room) => starts@.len() == count && count == if total <= room {
                            total
                        } else {
                            room as int
                        },
                    }
                },
            },
    {
        if !has_count {
            return Err(E_INVALIDARG);
        }
        match room {
            None => Ok((Vec::new(), self.page_count())),
            Some(room) => {
                let starts = self.page_starts(room);
                let total: u32 = self.page_count();
                let count: u32 = if total <= room {
                    total
                } else {
                    room
                };
                Ok((starts, count))
            },
        }
    }

    /// The page that the selected candidate is on.
    pub fn current_page(&self) -> (page: u32)
        ensures
            page == if self.selection_index < 0 {
                0
            } else {
                self.selection_index as int / CANDIDATE_PAGE_SIZE as int
            },
    {
        self.selection() / CANDIDATE_PAGE_SIZE
    }
}

impl<H> TextService<H> {
    /// Whether the window may be shown.
    pub fn ui_should_show(&self, forced: bool) -> (show: bool)
        ensures
            show == self.ui_element.shows(forced),
    {
        if forced {
            return true;
        }
        match self.ui_element.id {
            Some(_) => self.ui_element.show,
            None => true,
        }
    }
}

/// The page that the selected candidate is on is one of the pages, and starts
/// no later than the candidate.
pub proof fn the_current_page_holds_the_selection(count: u32, selection: int)
    requires
        0 <= selection < count,
    ensures
        0 <= selection / CANDIDATE_PAGE_SIZE as int,
        pages(count) > selection / CANDIDATE_PAGE_SIZE as int,
        (selection / CANDIDATE_PAGE_SIZE as int) * CANDIDATE_PAGE_SIZE <= selection
            < (selection / CANDIDATE_PAGE_SIZE as int + 1) * CANDIDATE_PAGE_SIZE,
{
}

/// The pages hold every candidate, and none of them is empty.
pub proof fn the_pages_hold_every_candidate(count: u32)
    ensures
        pages(count) * CANDIDATE_PAGE_SIZE >= count,
        (pages(count) - 1) * CANDIDATE_PAGE_SIZE < count,
        pages(count) == 0 <==> count == 0,
{
}

/// Whoever knows of the list decides whether the window may be shown; where
/// nobody does, and where it is forced, it may.
pub proof fn a_window_is_hidden_only_where_the_host_said_so(element: UiElementState)
    ensures
        element.shows(true),
        element.id is None ==> element.shows(false),
        element.id is Some ==> element.shows(false) == element.show,
{
}

} // verus!

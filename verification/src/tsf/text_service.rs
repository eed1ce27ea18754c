//! What is kept for one activation of the text service.

use vstd::prelude::*;

use crate::engine::composition::Composition;
#[allow(unused_imports)]
use crate::engine::composition::{CompositionState, EditView};
use crate::engine::input_mode::InputMode;
use crate::engine::ipc_service::Candidates;
#[allow(unused_imports)]
use crate::engine::ipc_service::CandidatesView;

verus! {

/// How long, in milliseconds, a change of the layout counts as caused by the
/// candidate window's own move.
pub const LAYOUT_CHANGE_SUPPRESSION: u64 = 200;

/// Where the telling of the caret's position stands. Moving the candidate
/// window makes the host report a change of the layout, which would move the
/// window again; this is what keeps the two from feeding each other. Times are
/// milliseconds of a clock that does not go back.
#[derive(Debug, Clone, Copy, PartialEq, Eq, Structural)]
pub enum UpdatePosState {
    Idle,
    Updating { suppress_layout_until: u64 },
    SuppressingLayoutChange { until: u64 },
}

impl Default for UpdatePosState {
    fn default() -> (state: UpdatePosState)
        ensures
            state == UpdatePosState::Idle,
    {
        UpdatePosState::Idle
    }
}

impl UpdatePosState {
    /// Begins an update, unless one is under way.
    pub fn try_begin_update(&mut self, now: u64) -> (begun: bool)
        requires
            now + LAYOUT_CHANGE_SUPPRESSION <= u64::MAX,
        ensures
            begun == !(*old(self) is Updating),
            *final(self) == if begun {
                UpdatePosState::Updating {
                    suppress_layout_until: (now + LAYOUT_CHANGE_SUPPRESSION) as u64,
                }
            } else {
                *old(self)
            },
    {
        if let UpdatePosState::Updating { .. } = *self {
            return false;
        }
        *self = UpdatePosState::Updating {
            suppress_layout_until: now + LAYOUT_CHANGE_SUPPRESSION,
        };
        true
    }

    /// Ends an update; what is left of its time goes on suppressing changes of
    /// the layout.
    pub fn finish_update(&mut self, now: u64)
        ensures
            *final(self) == match *old(self) {
                UpdatePosState::Updating { suppress_layout_until } => if now
                    <= suppress_layout_until {
                    UpdatePosState::SuppressingLayoutChange { until: suppress_layout_until }
                } else {
                    UpdatePosState::Idle
                },
                state => state,
            },
    {
        if let UpdatePosState::Updating { suppress_layout_until } = *self {
            if now <= suppress_layout_until {
                *self = UpdatePosState::SuppressingLayoutChange { until: suppress_layout_until };
            } else {
                *self = UpdatePosState::Idle;
            }
        }
    }

    /// Whether a change of the layout is to be passed over. Once the time of
    /// the last update is up, none is any more.
    pub fn should_skip_layout_change(&mut self, now: u64) -> (skip: bool)
        ensures
            skip == match *old(self) {
                UpdatePosState::Idle => false,
                UpdatePosState::Updating { .. } => true,
                UpdatePosState::SuppressingLayoutChange { until } => now <= until,
            },
            *final(self) == if skip {
                *old(self)
            } else {
                UpdatePosState::Idle
            },
    {
        match *self {
            UpdatePosState::Idle => false,
            UpdatePosState::Updating { .. } => true,
            UpdatePosState::SuppressingLayoutChange { until } => {
                if now <= until {
                    true
                } else {
                    *self = UpdatePosState::Idle;
                    false
                }
            },
        }
    }
}

/// A change of the layout is passed over from the start of an update until its
/// time is up, and no longer, wherever within that time the update ends.
pub proof fn layout_changes_are_suppressed_for_the_window(
    begun: u64,
    finished: u64,
    now: u64,
)
    requires
        begun + LAYOUT_CHANGE_SUPPRESSION <= u64::MAX,
        begun <= finished <= now,
    ensures
        ({
            let until = (begun + LAYOUT_CHANGE_SUPPRESSION) as u64;
            let after = if finished <= until {
                UpdatePosState::SuppressingLayoutChange { until }
            } else {
                UpdatePosState::Idle
            };
            skips(after, now) <==> now - begun <= LAYOUT_CHANGE_SUPPRESSION
        }),
{
}

/// Whether a change of the layout is passed over in a state.
pub open spec fn skips(state: UpdatePosState, now: u64) -> bool {
    match state {
        UpdatePosState::Idle => false,
        UpdatePosState::Updating { .. } => true,
        UpdatePosState::SuppressingLayoutChange { until } => now <= until,
    }
}

/// What the host is told of the candidate list and may read back. It is kept
/// apart from the composition, for the host reads it in the middle of a batch,
/// before the composition is written back.
pub struct UiElementState {
    /// The number that the host gave the list, once it knows of it.
    pub id: Option<u32>,
    /// The host's latest answer to whether a window of ours may be shown.
    pub show: bool,
    /// What changed last; the host asks for it after it was notified.
    pub updated_flags: u32,
    pub candidates: Candidates,
    pub selection_index: i32,
}

impl UiElementState {
    /// A list that the host does not know of.
    pub fn new() -> (element: UiElementState)
        ensures
            element.id is None,
            !element.show,
            element.updated_flags == 0,
            element.candidates@ == CandidatesView::empty(),
            element.selection_index == 0,
    {
        UiElementState {
            id: None,
            show: false,
            updated_flags: 0,
            candidates: Candidates::none(),
            selection_index: 0,
        }
    }
}

/// A key together with the modifiers that are held with it.
#[derive(Debug, Clone, Copy, PartialEq, Eq, Structural)]
pub struct PreservedKey {
    pub vk: u32,
    pub modifiers: u32,
}

/// What is kept for one activation. `H` is the handle by which the host holds
/// a composition open.
pub struct TextService<H> {
    pub composition: Composition<H>,
    pub input_mode: InputMode,
    pub update_pos_state: UpdatePosState,
    /// The keys that the host routes to this activation, and only those that
    /// it agreed to route.
    pub preserved_keys: Vec<(u128, PreservedKey)>,
    /// When the mode was last switched, in milliseconds.
    pub last_mode_toggle: Option<u64>,
    /// Set while the mode is being published, so that the notice of it is not
    /// taken for a change.
    pub suppress_compartment_echo: bool,
    /// Set when a Backspace ended the composition, so that what is left of the
    /// same press does not delete the text that was just committed.
    pub discard_backspace_repeat: bool,
    pub ui_element: UiElementState,
}

impl<H> TextService<H> {
    /// The state at activation.
    pub fn new() -> (service: TextService<H>)
        ensures
            service.composition.wf(),
            service.composition.spec_state() == CompositionState::Idle,
            service.composition.spec_tip() is None,
            service.composition.edit_view(CompositionState::Idle) == EditView::blank(
                CompositionState::Idle,
            ),
            service.input_mode == InputMode::Latin,
            service.update_pos_state == UpdatePosState::Idle,
            service.preserved_keys@.len() == 0,
            service.last_mode_toggle is None,
            !service.suppress_compartment_echo,
            !service.discard_backspace_repeat,
            service.ui_element.id is None,
            !service.ui_element.show,
            service.ui_element.updated_flags == 0,
            service.ui_element.candidates@ == CandidatesView::empty(),
            service.ui_element.selection_index == 0,
    {
        TextService {
            composition: Composition::new(),
            input_mode: InputMode::Latin,
            update_pos_state: UpdatePosState::Idle,
            preserved_keys: Vec::new(),
            last_mode_toggle: None,
            suppress_compartment_echo: false,
            discard_backspace_repeat: false,
            ui_element: UiElementState::new(),
        }
    }
}

} // verus!

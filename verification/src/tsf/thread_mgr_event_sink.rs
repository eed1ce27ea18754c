//! What a change of the focus does.

use vstd::prelude::*;

use super::text_service::TextService;
use crate::engine::actions::Batch;
#[allow(unused_imports)]
use crate::engine::actions::started;
use crate::engine::client_action::ClientAction;
use crate::engine::composition::CompositionState;

verus! {

/// What a change of the focus does, in order.
#[derive(Debug, Clone, Copy, PartialEq, Eq, Structural)]
pub enum FocusStep {
    /// End what is composed in the document that is left. This is what the
    /// whole reports.
    EndComposition,
    /// Show the mode anew. Advisory.
    UpdateLanguageBar,
    /// Watch the layout of the document that is entered. Advisory.
    AdviseLayoutSink,
}

/// The steps of a change of the focus. Ending the composition comes first, so
/// that nothing that is merely advisory can keep it from happening.
pub fn focus_steps(has_focus: bool) -> (steps: Vec<FocusStep>)
    ensures
        steps@ == if has_focus {
            seq![FocusStep::EndComposition, FocusStep::UpdateLanguageBar, FocusStep::AdviseLayoutSink]
        } else {
            seq![FocusStep::EndComposition, FocusStep::UpdateLanguageBar]
        },
{
    let mut steps: Vec<FocusStep> = Vec::new();
    steps.push(FocusStep::EndComposition);
    steps.push(FocusStep::UpdateLanguageBar);
    if has_focus {
        steps.push(FocusStep::AdviseLayoutSink);
    }
    steps
}

impl<H> TextService<H> {
    /// What ends the composition of the document that the focus leaves.
    pub fn on_set_focus(&self) -> (batch: Batch)
        ensures
            batch.wf(),
            batch@ == started(
                self.composition.edit_view(self.composition.spec_state()),
                self.input_mode,
                seq![ClientAction::EndCompositionAtFocusLoss],
                CompositionState::Idle,
            ),
    {
        let mut actions: Vec<ClientAction> = Vec::new();
        actions.push(ClientAction::EndCompositionAtFocusLoss);
        assert(actions@ =~= seq![ClientAction::EndCompositionAtFocusLoss]);
        self.handle_action(actions, CompositionState::Idle)
    }

    /// What tears down a composition that the host has ended.
    pub fn on_composition_terminated(&self) -> (batch: Batch)
        ensures
            batch.wf(),
            batch@ == started(
                self.composition.edit_view(self.composition.spec_state()),
                self.input_mode,
                seq![ClientAction::CompositionTerminated],
                CompositionState::Idle,
            ),
    {
        let mut actions: Vec<ClientAction> = Vec::new();
        actions.push(ClientAction::CompositionTerminated);
        assert(actions@ =~= seq![ClientAction::CompositionTerminated]);
        self.handle_action(actions, CompositionState::Idle)
    }
}

} // verus!

//! Activating the text service and taking it down again.

use vstd::prelude::*;

use super::text_service::TextService;
use crate::engine::composition::Composition;
#[allow(unused_imports)]
use crate::engine::composition::{CompositionState, EditView};
use crate::engine::input_mode::InputMode;

verus! {

/// Keeps the first failure of steps that are all carried out.
pub fn record<E>(slot: &mut Result<(), E>, result: Result<(), E>)
    ensures
        *final(slot) == match *old(slot) {
            Err(first) => Err::<(), E>(first),
            Ok(_) => result,
        },
{
    if slot.is_ok() {
        *slot = result;
    }
}

/// A step of activation.
#[derive(Debug, Clone, Copy, PartialEq, Eq, Structural)]
pub enum ActivationStep {
    /// Keep the module loaded.
    AddModuleRef,
    /// Get ready to call the engine, and call it once to find out whether it
    /// answers. Whether it does is no failure of the step.
    ConnectEngine,
    /// Take the thread manager that the host gave.
    ResolveThreadManager,
    /// Remember the thread manager and the client number.
    RememberThread,
    /// Ask for the keys. Every keystroke comes this way.
    AdviseKeySink,
    /// Ask for the keys that switch the mode.
    PreserveKeys,
    AdviseThreadManagerSink,
    AdviseLayoutSink,
    RegisterDisplayAttribute,
    AddLanguageBarItem,
    InitCompartments,
    /// Show the mode that the system already had.
    ApplyAdoptedMode,
    /// Undo [`ActivationStep::RememberThread`].
    ForgetThread,
    /// Undo [`ActivationStep::AddModuleRef`].
    ReleaseModuleRef,
}

/// Where an activation stands.
#[derive(Debug, Clone, Copy, PartialEq, Eq, Structural)]
pub struct Activation {
    /// The step to carry out; `None` at the end.
    pub step: Option<ActivationStep>,
    /// Whether the activation fails.
    pub failed: bool,
}

impl Activation {
    /// The activation after its step. Only two steps can make it fail: where
    /// there is no thread manager, and where the keys cannot be had. An
    /// engine that cannot be called ends it early and quietly, for a host that
    /// is told of a failure goes on showing the input method before. All that
    /// comes after the keys is advisory.
    pub open spec fn after(self, ok: bool) -> Activation {
        match self.step {
            None => self,
            Some(step) => match step {
                ActivationStep::AddModuleRef => self.at(ActivationStep::ConnectEngine),
                ActivationStep::ConnectEngine => if ok {
                    self.at(ActivationStep::ResolveThreadManager)
                } else {
                    Activation { step: None, ..self }
                },
                ActivationStep::ResolveThreadManager => if ok {
                    self.at(ActivationStep::RememberThread)
                } else {
                    Activation { step: Some(ActivationStep::ReleaseModuleRef), failed: true }
                },
                ActivationStep::RememberThread => self.at(ActivationStep::AdviseKeySink),
                ActivationStep::AdviseKeySink => if ok {
                    self.at(ActivationStep::PreserveKeys)
                } else {
                    Activation { step: Some(ActivationStep::ForgetThread), failed: true }
                },
                ActivationStep::PreserveKeys => self.at(ActivationStep::AdviseThreadManagerSink),
                ActivationStep::AdviseThreadManagerSink => self.at(
                    ActivationStep::AdviseLayoutSink,
                ),
                ActivationStep::AdviseLayoutSink => self.at(
                    ActivationStep::RegisterDisplayAttribute,
                ),
                ActivationStep::RegisterDisplayAttribute => self.at(
                    ActivationStep::AddLanguageBarItem,
                ),
                ActivationStep::AddLanguageBarItem => self.at(ActivationStep::InitCompartments),
                ActivationStep::InitCompartments => self.at(ActivationStep::ApplyAdoptedMode),
                ActivationStep::ApplyAdoptedMode => Activation { step: None, ..self },
                ActivationStep::ForgetThread => self.at(ActivationStep::ReleaseModuleRef),
                ActivationStep::ReleaseModuleRef => Activation { step: None, ..self },
            },
        }
    }

    /// The same activation at another step.
    pub open spec fn at(self, step: ActivationStep) -> Activation {
        Activation { step: Some(step), ..self }
    }

    /// An activation that sets out.
    pub fn begin() -> (activation: Activation)
        ensures
            activation == (Activation { step: Some(ActivationStep::AddModuleRef), failed: false }),
    {
        Activation { step: Some(ActivationStep::AddModuleRef), failed: false }
    }

    /// Takes in whether the step succeeded, and goes on to the next.
    pub fn advance(&mut self, ok: bool)
        ensures
            *final(self) == old(self).after(ok),
    {
        let next = match self.step {
            None => {
                return ;
            },
            Some(step) => match step {
                ActivationStep::AddModuleRef => Some(ActivationStep::ConnectEngine),
                ActivationStep::ConnectEngine => if ok {
                    Some(ActivationStep::ResolveThreadManager)
                } else {
                    None
                },
                ActivationStep::ResolveThreadManager => if ok {
                    Some(ActivationStep::RememberThread)
                } else {
                    self.failed = true;
                    Some(ActivationStep::ReleaseModuleRef)
                },
                ActivationStep::RememberThread => Some(ActivationStep::AdviseKeySink),
                ActivationStep::AdviseKeySink => if ok {
                    Some(ActivationStep::PreserveKeys)
                } else {
                    self.failed = true;
                    Some(ActivationStep::ForgetThread)
                },
                ActivationStep::PreserveKeys => Some(ActivationStep::AdviseThreadManagerSink),
                ActivationStep::AdviseThreadManagerSink => Some(ActivationStep::AdviseLayoutSink),
                ActivationStep::AdviseLayoutSink => Some(ActivationStep::RegisterDisplayAttribute),
                ActivationStep::RegisterDisplayAttribute => Some(
                    ActivationStep::AddLanguageBarItem,
                ),
                ActivationStep::AddLanguageBarItem => Some(ActivationStep::InitCompartments),
                ActivationStep::InitCompartments => Some(ActivationStep::ApplyAdoptedMode),
                ActivationStep::ApplyAdoptedMode => None,
                ActivationStep::ForgetThread => Some(ActivationStep::ReleaseModuleRef),
                ActivationStep::ReleaseModuleRef => None,
            },
        };
        self.step = next;
    }
}

/// The steps that an activation takes while it is told how each went.
pub open spec fn steps_taken(activation: Activation, outcomes: Seq<bool>) -> Seq<ActivationStep>
    decreases outcomes.len(),
{
    if outcomes.len() == 0 || activation.step is None {
        Seq::empty()
    } else {
        seq![activation.step->0] + steps_taken(
            activation.after(outcomes[0]),
            outcomes.drop_first(),
        )
    }
}

/// The activation once it was told how its steps went.
pub open spec fn activated(activation: Activation, outcomes: Seq<bool>) -> Activation
    decreases outcomes.len(),
{
    if outcomes.len() == 0 {
        activation
    } else {
        activated(activation.after(outcomes[0]), outcomes.drop_first())
    }
}

/// How far an activation is from its end.
pub open spec fn steps_left(activation: Activation) -> nat {
    match activation.step {
        None => 0,
        Some(step) => match step {
            ActivationStep::AddModuleRef => 12,
            ActivationStep::ConnectEngine => 11,
            ActivationStep::ResolveThreadManager => 10,
            ActivationStep::RememberThread => 9,
            ActivationStep::AdviseKeySink => 8,
            ActivationStep::PreserveKeys => 7,
            ActivationStep::AdviseThreadManagerSink => 6,
            ActivationStep::AdviseLayoutSink => 5,
            ActivationStep::RegisterDisplayAttribute => 4,
            ActivationStep::AddLanguageBarItem => 3,
            ActivationStep::InitCompartments => 2,
            ActivationStep::ApplyAdoptedMode => 1,
            ActivationStep::ForgetThread => 2,
            ActivationStep::ReleaseModuleRef => 1,
        },
    }
}

/// Once the keys are had, nothing makes an activation fail or gives them up:
/// every step that is left is carried out, however each goes.
pub proof fn activation_succeeds_once_the_keys_are_had(
    outcomes: Seq<bool>,
)
    requires
        outcomes.len() == 7,
    ensures
        ({
            let activation = Activation {
                step: Some(ActivationStep::PreserveKeys),
                failed: false,
            };
            &&& steps_taken(activation, outcomes) == seq![
                ActivationStep::PreserveKeys,
                ActivationStep::AdviseThreadManagerSink,
                ActivationStep::AdviseLayoutSink,
                ActivationStep::RegisterDisplayAttribute,
                ActivationStep::AddLanguageBarItem,
                ActivationStep::InitCompartments,
                ActivationStep::ApplyAdoptedMode,
            ]
            &&& activated(activation, outcomes) == (Activation { step: None, failed: false })
        }),
{
    reveal_with_fuel(steps_taken, 8);
    reveal_with_fuel(activated, 8);
    let activation = Activation { step: Some(ActivationStep::PreserveKeys), failed: false };
    assert(steps_taken(activation, outcomes) =~= seq![
        ActivationStep::PreserveKeys,
        ActivationStep::AdviseThreadManagerSink,
        ActivationStep::AdviseLayoutSink,
        ActivationStep::RegisterDisplayAttribute,
        ActivationStep::AddLanguageBarItem,
        ActivationStep::InitCompartments,
        ActivationStep::ApplyAdoptedMode,
    ]);
}

/// Every activation comes to its end, and one that fails has let go of the
/// module by then.
pub proof fn a_failed_activation_lets_the_module_go(activation: Activation, outcomes: Seq<bool>)
    requires
        activation.failed ==> activation.step == Some(ActivationStep::ForgetThread)
            || activation.step == Some(ActivationStep::ReleaseModuleRef),
        activation.step == Some(ActivationStep::ForgetThread) || activation.step == Some(
            ActivationStep::ReleaseModuleRef,
        ) ==> activation.failed,
        outcomes.len() >= steps_left(activation),
    ensures
        activated(activation, outcomes).step is None,
        activated(activation, outcomes).failed <==> steps_taken(activation, outcomes).contains(
            ActivationStep::ReleaseModuleRef,
        ),
    decreases steps_left(activation),
{
    if activation.step is None {
        finished_stays(activation, outcomes);
    } else {
        let next = activation.after(outcomes[0]);
        let rest = outcomes.drop_first();
        let first = seq![activation.step->0];
        if activation.step == Some(ActivationStep::ReleaseModuleRef) {
            finished_stays(next, rest);
            assert((first + steps_taken(next, rest))[0] == ActivationStep::ReleaseModuleRef);
        } else {
            a_failed_activation_lets_the_module_go(next, rest);
            let later = steps_taken(next, rest);
            if later.contains(ActivationStep::ReleaseModuleRef) {
                let i = choose|i: int|
                    0 <= i < later.len() && later[i] == ActivationStep::ReleaseModuleRef;
                assert((first + later)[i + 1] == ActivationStep::ReleaseModuleRef);
            }
            if (first + later).contains(ActivationStep::ReleaseModuleRef) {
                let i = choose|i: int|
                    0 <= i < (first + later).len() && (first + later)[i]
                        == ActivationStep::ReleaseModuleRef;
                assert(later[i - 1] == ActivationStep::ReleaseModuleRef);
            }
        }
    }
}

proof fn finished_stays(activation: Activation, outcomes: Seq<bool>)
    requires
        activation.step is None,
    ensures
        activated(activation, outcomes) == activation,
        steps_taken(activation, outcomes).len() == 0,
    decreases outcomes.len(),
{
    if outcomes.len() > 0 {
        finished_stays(activation.after(outcomes[0]), outcomes.drop_first());
    }
}

/// A step of taking the text service down. Each is carried out, however the
/// others go.
#[derive(Debug, Clone, Copy, PartialEq, Eq, Structural)]
pub enum DeactivationStep {
    ReleaseModuleRef,
    EndComposition,
    /// Tell the host that the candidate list is over. A host that is not told
    /// would hold on to the text service for good.
    EndUiElement,
    /// Say that there is no thread manager to give anything back to.
    ReportNoThreadManager,
    UnadviseKeySink,
    UnpreserveKeys,
    RemoveLanguageBarItem,
    UnadviseThreadManagerSink,
    UnadviseLayoutSink,
    UnadviseCompartmentSinks,
    /// Forget what belongs to this activation.
    ResetService,
}

/// The steps of taking the text service down, in order. Without a thread
/// manager the steps that need one are left out, and what it would have given
/// back stays on record.
pub fn deactivation_steps(has_thread_manager: bool) -> (steps: Vec<DeactivationStep>)
    ensures
        steps@ == if has_thread_manager {
            seq![
                DeactivationStep::ReleaseModuleRef,
                DeactivationStep::EndComposition,
                DeactivationStep::EndUiElement,
                DeactivationStep::UnadviseKeySink,
                DeactivationStep::UnpreserveKeys,
                DeactivationStep::RemoveLanguageBarItem,
                DeactivationStep::UnadviseThreadManagerSink,
                DeactivationStep::UnadviseLayoutSink,
                DeactivationStep::UnadviseCompartmentSinks,
                DeactivationStep::ResetService,
            ]
        } else {
            seq![
                DeactivationStep::ReleaseModuleRef,
                DeactivationStep::EndComposition,
                DeactivationStep::EndUiElement,
                DeactivationStep::ReportNoThreadManager,
                DeactivationStep::UnadviseLayoutSink,
                DeactivationStep::UnadviseCompartmentSinks,
                DeactivationStep::ResetService,
            ]
        },
{
    let mut steps: Vec<DeactivationStep> = Vec::new();
    steps.push(DeactivationStep::ReleaseModuleRef);
    steps.push(DeactivationStep::EndComposition);
    steps.push(DeactivationStep::EndUiElement);
    if has_thread_manager {
        steps.push(DeactivationStep::UnadviseKeySink);
        steps.push(DeactivationStep::UnpreserveKeys);
        steps.push(DeactivationStep::RemoveLanguageBarItem);
        steps.push(DeactivationStep::UnadviseThreadManagerSink);
    } else {
        steps.push(DeactivationStep::ReportNoThreadManager);
    }
    steps.push(DeactivationStep::UnadviseLayoutSink);
    steps.push(DeactivationStep::UnadviseCompartmentSinks);
    steps.push(DeactivationStep::ResetService);
    steps
}

impl<H> TextService<H> {
    /// Forgets what belongs to one activation, so that the next finds nothing
    /// of it: the mode, which the system keeps, and the composition, which
    /// would otherwise go on without a handle.
    pub fn teardown_instance_state(&mut self)
        ensures
            final(self).composition.wf(),
            final(self).composition.spec_state() == CompositionState::Idle,
            final(self).composition.spec_tip() is None,
            final(self).composition.edit_view(CompositionState::Idle) == EditView::blank(
                CompositionState::Idle,
            ),
            final(self).input_mode == InputMode::Latin,
            !final(self).suppress_compartment_echo,
            *final(self) == (TextService {
                composition: final(self).composition,
                input_mode: InputMode::Latin,
                suppress_compartment_echo: false,
                ..*old(self)
            }),
    {
        self.input_mode = InputMode::Latin;
        self.suppress_compartment_echo = false;
        self.composition = Composition::new();
    }
}

/// An activation takes its steps in their order, and where the engine can be
/// called, there is a thread manager and the keys are had, it takes all of them
/// and succeeds, whatever becomes of the others.
pub proof fn an_activation_takes_every_step(outcomes: Seq<bool>)
    requires
        outcomes.len() == 12,
        outcomes[1],
        outcomes[2],
        outcomes[4],
    ensures
        ({
            let activation = Activation { step: Some(ActivationStep::AddModuleRef), failed: false };
            &&& steps_taken(activation, outcomes) == seq![
                ActivationStep::AddModuleRef,
                ActivationStep::ConnectEngine,
                ActivationStep::ResolveThreadManager,
                ActivationStep::RememberThread,
                ActivationStep::AdviseKeySink,
                ActivationStep::PreserveKeys,
                ActivationStep::AdviseThreadManagerSink,
                ActivationStep::AdviseLayoutSink,
                ActivationStep::RegisterDisplayAttribute,
                ActivationStep::AddLanguageBarItem,
                ActivationStep::InitCompartments,
                ActivationStep::ApplyAdoptedMode,
            ]
            &&& activated(activation, outcomes) == (Activation { step: None, failed: false })
        }),
{
    reveal_with_fuel(steps_taken, 13);
    reveal_with_fuel(activated, 13);
    let activation = Activation { step: Some(ActivationStep::AddModuleRef), failed: false };
    assert(steps_taken(activation, outcomes) =~= seq![
        ActivationStep::AddModuleRef,
        ActivationStep::ConnectEngine,
        ActivationStep::ResolveThreadManager,
        ActivationStep::RememberThread,
        ActivationStep::AdviseKeySink,
        ActivationStep::PreserveKeys,
        ActivationStep::AdviseThreadManagerSink,
        ActivationStep::AdviseLayoutSink,
        ActivationStep::RegisterDisplayAttribute,
        ActivationStep::AddLanguageBarItem,
        ActivationStep::InitCompartments,
        ActivationStep::ApplyAdoptedMode,
    ]);
}

/// An activation that cannot go on undoes what it did, in the reverse order, and
/// fails: without a thread manager it lets go of the module, and without the
/// keys it forgets the thread first. An engine that cannot be called ends it
/// without a failure.
pub proof fn an_activation_that_cannot_go_on_is_undone(outcomes: Seq<bool>)
    requires
        outcomes.len() == 7,
    ensures
        ({
            let activation = Activation { step: Some(ActivationStep::AddModuleRef), failed: false };
            let taken = steps_taken(activation, outcomes);
            let ended = activated(activation, outcomes);
            &&& !outcomes[1] ==> taken == seq![
                ActivationStep::AddModuleRef,
                ActivationStep::ConnectEngine,
            ] && ended == (Activation { step: None, failed: false })
            &&& outcomes[1] && !outcomes[2] ==> taken == seq![
                ActivationStep::AddModuleRef,
                ActivationStep::ConnectEngine,
                ActivationStep::ResolveThreadManager,
                ActivationStep::ReleaseModuleRef,
            ] && ended == (Activation { step: None, failed: true })
            &&& outcomes[1] && outcomes[2] && !outcomes[4] ==> taken == seq![
                ActivationStep::AddModuleRef,
                ActivationStep::ConnectEngine,
                ActivationStep::ResolveThreadManager,
                ActivationStep::RememberThread,
                ActivationStep::AdviseKeySink,
                ActivationStep::ForgetThread,
                ActivationStep::ReleaseModuleRef,
            ] && ended == (Activation { step: None, failed: true })
        }),
{
    reveal_with_fuel(steps_taken, 8);
    reveal_with_fuel(activated, 8);
    let activation = Activation { step: Some(ActivationStep::AddModuleRef), failed: false };
    let taken = steps_taken(activation, outcomes);
    if !outcomes[1] {
        assert(taken =~= seq![ActivationStep::AddModuleRef, ActivationStep::ConnectEngine]);
    } else if !outcomes[2] {
        assert(taken =~= seq![
            ActivationStep::AddModuleRef,
            ActivationStep::ConnectEngine,
            ActivationStep::ResolveThreadManager,
            ActivationStep::ReleaseModuleRef,
        ]);
    } else if !outcomes[4] {
        assert(taken =~= seq![
            ActivationStep::AddModuleRef,
            ActivationStep::ConnectEngine,
            ActivationStep::ResolveThreadManager,
            ActivationStep::RememberThread,
            ActivationStep::AdviseKeySink,
            ActivationStep::ForgetThread,
            ActivationStep::ReleaseModuleRef,
        ]);
    }
}

} // verus!

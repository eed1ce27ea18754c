//! Making the text service the default, and undoing it.

use vstd::prelude::*;

use crate::globals::{GUID_PROFILE, GUID_TEXT_SERVICE};

verus! {

/// An input method: its text service and its profile.
pub type InputMethod = (u128, u128);

/// The default that was there before.
#[derive(Debug)]
pub struct DefaultProfile {
    pub previous: Option<InputMethod>,
}

impl DefaultProfile {
    /// What is made the default for a run.
    pub fn azookey() -> (method: InputMethod)
        ensures
            method == (GUID_TEXT_SERVICE, GUID_PROFILE),
    {
        (GUID_TEXT_SERVICE, GUID_PROFILE)
    }

    /// Whether there was another default.
    pub fn has_previous(&self) -> (had: bool)
        ensures
            had == (self.previous is Some),
    {
        self.previous.is_some()
    }

    /// What is made the default, in order, to switch away and back. Without
    /// another default there is nothing to switch to.
    pub open spec fn spec_cycle(self) -> Seq<InputMethod> {
        match self.previous {
            Some(previous) => seq![previous, (GUID_TEXT_SERVICE, GUID_PROFILE)],
            None => Seq::empty(),
        }
    }

    /// What is made the default, in order, to switch away and back.
    pub fn cycle(&self) -> (methods: Vec<InputMethod>)
        ensures
            methods@ == self.spec_cycle(),
    {
        let mut methods: Vec<InputMethod> = Vec::new();
        match self.previous {
            Some(previous) => {
                methods.push(previous);
                methods.push((GUID_TEXT_SERVICE, GUID_PROFILE));
            },
            None => {},
        }
        methods
    }

    /// What is made the default once the run is over.
    pub fn restored(&self) -> (method: Option<InputMethod>)
        ensures
            method == self.previous,
    {
        self.previous
    }
}

/// What is the default after some were made it in turn.
pub open spec fn default_after(default: InputMethod, methods: Seq<InputMethod>) -> InputMethod {
    if methods.len() == 0 {
        default
    } else {
        methods.last()
    }
}

/// Switching away and back leaves the text service the default.
pub proof fn a_cycle_ends_where_it_began(profile: DefaultProfile)
    ensures
        default_after((GUID_TEXT_SERVICE, GUID_PROFILE), profile.spec_cycle()) == (
            GUID_TEXT_SERVICE,
            GUID_PROFILE,
        ),
{
}

} // verus!

//! The mode that keystrokes are read in.

use vstd::prelude::*;

use crate::tsf::text_service::TextService;

verus! {

/// Whether keystrokes compose Japanese or go to the application as they are.
#[derive(Debug, Clone, Copy, PartialEq, Eq, Structural)]
pub enum InputMode {
    Latin,
    Kana,
}

impl Default for InputMode {
    fn default() -> (mode: InputMode)
        ensures
            mode == InputMode::Latin,
    {
        InputMode::Latin
    }
}

impl InputMode {
    /// The other mode.
    pub open spec fn flipped(self) -> InputMode {
        match self {
            InputMode::Kana => InputMode::Latin,
            InputMode::Latin => InputMode::Kana,
        }
    }

    /// The other mode.
    pub fn flip(self) -> (other: InputMode)
        ensures
            other == self.flipped(),
    {
        match self {
            InputMode::Kana => InputMode::Latin,
            InputMode::Latin => InputMode::Kana,
        }
    }

    /// What the mode indicator shows.
    pub fn indicator(self) -> (text: &'static str)
        ensures
            text@ == match self {
                InputMode::Latin => "A"@,
                InputMode::Kana => "あ"@,
            },
    {
        match self {
            InputMode::Latin => "A",
            InputMode::Kana => "あ",
        }
    }
}

/// A step of making a mode the current one. A step that fails leaves the ones
/// after it out.
#[derive(Debug, Clone, Copy, PartialEq, Eq, Structural)]
pub enum ModeStep {
    /// Show the mode's icon: the button is taken out and put in again.
    UpdateLanguageBar,
    /// Have the window show the mode, where there is one to ask.
    ShowIndicator(InputMode),
    /// Let the system know of the mode.
    Publish(InputMode),
}

impl<H> TextService<H> {
    /// Makes a mode the current one, and says what is to be done about it, in
    /// order. A mode that came from the system is not published to it.
    pub fn apply_input_mode(&mut self, mode: InputMode, write_compartments: bool) -> (steps: Vec<
        ModeStep,
    >)
        ensures
            *final(self) == (TextService { input_mode: mode, ..*old(self) }),
            steps@ == if write_compartments {
                seq![
                    ModeStep::UpdateLanguageBar,
                    ModeStep::ShowIndicator(mode),
                    ModeStep::Publish(mode),
                ]
            } else {
                seq![ModeStep::UpdateLanguageBar, ModeStep::ShowIndicator(mode)]
            },
    {
        self.input_mode = mode;
        let mut steps: Vec<ModeStep> = Vec::new();
        steps.push(ModeStep::UpdateLanguageBar);
        steps.push(ModeStep::ShowIndicator(mode));
        if write_compartments {
            steps.push(ModeStep::Publish(mode));
        }
        steps
    }
}

/// There are two modes, and each is the other's other.
pub proof fn the_other_mode_is_another(mode: InputMode)
    ensures
        mode.flipped() != mode,
        mode.flipped().flipped() == mode,
{
}

} // verus!

//! The button in the language bar.

use vstd::prelude::*;

use super::text_service::TextService;
use crate::engine::actions::Batch;
#[allow(unused_imports)]
use crate::engine::actions::started;
use crate::engine::client_action::ClientAction;
use crate::engine::composition::CompositionState;
use crate::engine::engine_health::{tooltip, EngineHealth};
#[allow(unused_imports)]
use crate::engine::engine_health::tooltip_of;
use crate::engine::input_mode::InputMode;
use crate::globals::{E_INVALIDARG, GUID_TEXT_SERVICE, TEXTSERVICE_LANGBARITEMSINK_COOKIE};

verus! {

/// The interface of a sink of the language bar.
pub const IID_LANGBARITEMSINK: u128 = 0x57dbe1a0_de25_11d2_afdd_00105a2799b5;

/// The code for a sink that is not there.
pub const CONNECT_E_CANNOTCONNECT: u32 = 0x80040202;

/// The button that shows the mode.
pub const GUID_LBI_INPUTMODE: u128 = 0x2c77a81e_41cc_4178_a3a7_5f8a987568e6;

/// The style of a button.
pub const LBI_STYLE_BTN_BUTTON: u32 = 0x10000;

/// What the button says of itself. It has no description.
#[derive(Debug, Clone, Copy, PartialEq, Eq, Structural)]
pub struct LangBarItemInfo {
    pub service: u128,
    pub item: u128,
    pub style: u32,
    pub sort: u32,
}

/// What the button says of itself, where there is somewhere to put it.
pub fn get_info(has_buffer: bool) -> (info: Result<LangBarItemInfo, u32>)
    ensures
        info == if has_buffer {
            Ok::<LangBarItemInfo, u32>(
                LangBarItemInfo {
                    service: GUID_TEXT_SERVICE,
                    item: GUID_LBI_INPUTMODE,
                    style: LBI_STYLE_BTN_BUTTON,
                    sort: 0,
                },
            )
        } else {
            Err::<LangBarItemInfo, u32>(E_INVALIDARG)
        },
{
    if !has_buffer {
        return Err(E_INVALIDARG);
    }
    Ok(
        LangBarItemInfo {
            service: GUID_TEXT_SERVICE,
            item: GUID_LBI_INPUTMODE,
            style: LBI_STYLE_BTN_BUTTON,
            sort: 0,
        },
    )
}

/// The status of the button: none of the flags is set.
pub fn get_status() -> (status: u32)
    ensures
        status == 0,
{
    0
}

/// What is shown over the button: a word where the server is out of reach,
/// and nothing otherwise.
pub fn get_tooltip_string(health: EngineHealth) -> (text: String)
    ensures
        match tooltip_of(health) {
            Some(word) => text@ == word,
            None => text@.len() == 0,
        },
{
    match tooltip(health) {
        Some(word) => word.to_string(),
        None => String::new(),
    }
}

/// The icon of a mode: black on a light theme, white on a dark one.
pub open spec fn icon_of(mode: InputMode, light_theme: bool) -> u32 {
    match (mode, light_theme) {
        (InputMode::Kana, true) => 102,
        (InputMode::Latin, true) => 103,
        (InputMode::Kana, false) => 104,
        (InputMode::Latin, false) => 105,
    }
}

/// The icon of a mode.
pub fn langbar_icon_id(input_mode: InputMode, light_theme: bool) -> (icon: u32)
    ensures
        icon == icon_of(input_mode, light_theme),
{
    match (input_mode, light_theme) {
        (InputMode::Kana, true) => 102,
        (InputMode::Latin, true) => 103,
        (InputMode::Kana, false) => 104,
        (InputMode::Latin, false) => 105,
    }
}

/// Every mode has an icon of its own on every theme.
pub proof fn icons_tell_modes_apart(a: InputMode, b: InputMode, light_a: bool, light_b: bool)
    ensures
        icon_of(a, light_a) == icon_of(b, light_b) <==> a == b && light_a == light_b,
{
}

/// The cookie of a sink that is given to the button, which takes one kind.
pub fn advise_sink(iid: Option<u128>, has_sink: bool) -> (cookie: Result<u32, u32>)
    ensures
        cookie == if iid == Some(IID_LANGBARITEMSINK) && has_sink {
            Ok::<u32, u32>(TEXTSERVICE_LANGBARITEMSINK_COOKIE)
        } else {
            Err::<u32, u32>(E_INVALIDARG)
        },
{
    match iid {
        Some(iid) => if iid == IID_LANGBARITEMSINK && has_sink {
            Ok(TEXTSERVICE_LANGBARITEMSINK_COOKIE)
        } else {
            Err(E_INVALIDARG)
        },
        None => Err(E_INVALIDARG),
    }
}

/// Takes a sink away, where the cookie is the one that was given.
pub fn unadvise_sink(cookie: u32) -> (result: Result<(), u32>)
    ensures
        result == if cookie == TEXTSERVICE_LANGBARITEMSINK_COOKIE {
            Ok::<(), u32>(())
        } else {
            Err::<(), u32>(CONNECT_E_CANNOTCONNECT)
        },
{
    if cookie == TEXTSERVICE_LANGBARITEMSINK_COOKIE {
        Ok(())
    } else {
        Err(CONNECT_E_CANNOTCONNECT)
    }
}

impl<H> TextService<H> {
    /// What a click on the button does: it switches the mode.
    pub fn on_click(&self) -> (batch: Batch)
        ensures
            batch.wf(),
            batch@ == started(
                self.composition.edit_view(self.composition.spec_state()),
                self.input_mode,
                seq![ClientAction::SetIMEMode(self.input_mode.flipped())],
                CompositionState::Idle,
            ),
    {
        let mut actions: Vec<ClientAction> = Vec::new();
        actions.push(ClientAction::SetIMEMode(self.input_mode.flip()));
        assert(actions@ =~= seq![ClientAction::SetIMEMode(self.input_mode.flipped())]);
        self.handle_action(actions, CompositionState::Idle)
    }
}

/// The icons are those of the resources from 102 on: kana before direct input, and
/// those for a light theme before those for a dark one.
pub proof fn the_icons_stand_in_their_order(mode: InputMode, light_theme: bool)
    ensures
        icon_of(mode, light_theme) == 102 + (if mode == InputMode::Latin {
            1int
        } else {
            0
        }) + (if light_theme {
            0int
        } else {
            2
        }),
{
}

} // verus!

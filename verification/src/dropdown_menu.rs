//! What the trigger of a dropdown menu does on a pointer press and on a key
//! press.

use vstd::prelude::*;
use vstd::string::*;
use crate::text::same_text;

verus! {

/// What a trigger asks for in answer to an event.
#[derive(Clone, Copy, Debug, PartialEq, Eq, Structural)]
pub struct TriggerResponse {
    /// Toggle the menu.
    pub toggle: bool,
    /// Open the menu, whatever it was.
    pub open: bool,
    /// Keep the platform from handling the event itself.
    pub prevent_default: bool,
}

impl TriggerResponse {
    /// Nothing to do.
    pub open spec fn nothing() -> TriggerResponse {
        TriggerResponse { toggle: false, open: false, prevent_default: false }
    }

    /// Whether the menu is open once the response has been carried out.
    pub open spec fn open_after(self, was_open: bool) -> bool {
        self.open || (self.toggle != was_open)
    }
}

/// The primary button of a pointer.
pub const PRIMARY_BUTTON: i16 = 0;

/// The response to a pointer press: an enabled trigger toggles on the primary
/// button without Ctrl, and keeps the press from the platform when that
/// closes the menu.
pub open spec fn pointer_down_response(
    disabled: bool,
    button: i16,
    ctrl_key: bool,
    was_open: bool,
) -> TriggerResponse {
    if !disabled && button == PRIMARY_BUTTON && !ctrl_key {
        TriggerResponse { toggle: true, open: false, prevent_default: was_open }
    } else {
        TriggerResponse::nothing()
    }
}

/// The response to a key press: on an enabled trigger Enter and the space bar
/// toggle, the down arrow opens, and each is kept from the platform.
pub open spec fn key_down_response(disabled: bool, key: Seq<char>) -> TriggerResponse {
    if disabled {
        TriggerResponse::nothing()
    } else {
        let toggle = key == "Enter"@ || key == " "@;
        let open = key == "ArrowDown"@;
        TriggerResponse { toggle, open, prevent_default: toggle || open }
    }
}

/// Decides what a pointer press on the trigger does. A trigger is enabled
/// unless said otherwise.
pub fn on_trigger_pointer_down(
    disabled: Option<bool>,
    button: i16,
    ctrl_key: bool,
    was_open: bool,
) -> (response: TriggerResponse)
    ensures
        response == pointer_down_response(disabled == Some(true), button, ctrl_key, was_open),
{
    let disabled = match disabled {
        Some(flag) => flag,
        None => false,
    };
    if !disabled && button == PRIMARY_BUTTON && !ctrl_key {
        TriggerResponse { toggle: true, open: false, prevent_default: was_open }
    } else {
        TriggerResponse { toggle: false, open: false, prevent_default: false }
    }
}

/// Decides what a key press on the trigger does.
pub fn on_trigger_key_down(disabled: Option<bool>, key: &str) -> (response: TriggerResponse)
    ensures
        response == key_down_response(disabled == Some(true), key@),
{
    let disabled = match disabled {
        Some(flag) => flag,
        None => false,
    };
    if disabled {
        return TriggerResponse { toggle: false, open: false, prevent_default: false };
    }
    let toggle = same_text(key, "Enter") || same_text(key, " ");
    let open = same_text(key, "ArrowDown");
    TriggerResponse { toggle, open, prevent_default: toggle || open }
}

/// A pointer press that toggles leaves the menu in the other state, and is
/// kept from the platform exactly when the menu ends up closed.
pub proof fn lemma_pointer_press_toggles(button: i16, ctrl_key: bool, was_open: bool)
    requires
        button == PRIMARY_BUTTON,
        !ctrl_key,
    ensures
        ({
            let response = pointer_down_response(false, button, ctrl_key, was_open);
            &&& response.open_after(was_open) == !was_open
            &&& response.prevent_default == !response.open_after(was_open)
        }),
{
}

/// A disabled trigger does nothing, whatever the event.
pub proof fn lemma_disabled_trigger_is_inert(
    button: i16,
    ctrl_key: bool,
    was_open: bool,
    key: Seq<char>,
)
    ensures
        pointer_down_response(true, button, ctrl_key, was_open) == TriggerResponse::nothing(),
        key_down_response(true, key) == TriggerResponse::nothing(),
{
}

} // verus!

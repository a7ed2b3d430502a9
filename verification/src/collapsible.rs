//! The open state of a collapsible region.

use vstd::prelude::*;
use vstd::string::*;

verus! {

/// What the parts of a collapsible region share.
pub struct CollapsibleContext {
    /// Whether the region is open.
    pub open: bool,
    /// The identifier of the content, for the trigger to point at.
    pub content_id: String,
    /// A disabled region's trigger is inert.
    pub disabled: bool,
    /// An open state was given from outside; only then does a toggle change
    /// the state kept here.
    pub follows_toggle: bool,
}

impl CollapsibleContext {
    /// The name of the open state.
    pub open spec fn state_name(self) -> Seq<char> {
        if self.open {
            "open"@
        } else {
            "closed"@
        }
    }

    /// A region that starts from the given open state, or else from the
    /// default, or else closed; enabled unless said otherwise.
    pub fn new(
        default_open: Option<bool>,
        open: Option<bool>,
        disabled: Option<bool>,
        content_id: String,
    ) -> (context: CollapsibleContext)
        ensures
            context.open == match open {
                Some(given) => given,
                None => default_open == Some(true),
            },
            context.content_id == content_id,
            context.disabled == (disabled == Some(true)),
            context.follows_toggle == open is Some,
    {
        let start = match open {
            Some(given) => given,
            None => match default_open {
                Some(given) => given,
                None => false,
            },
        };
        let disabled = match disabled {
            Some(flag) => flag,
            None => false,
        };
        CollapsibleContext { open: start, content_id, disabled, follows_toggle: open.is_some() }
    }

    /// Toggles the region and returns the state to call the change handler
    /// with: the opposite of the current one.
    pub fn on_open_toggle(&mut self) -> (new_state: bool)
        ensures
            new_state == !old(self).open,
            final(self).open == if old(self).follows_toggle {
                !old(self).open
            } else {
                old(self).open
            },
            final(self).content_id == old(self).content_id,
            final(self).disabled == old(self).disabled,
            final(self).follows_toggle == old(self).follows_toggle,
    {
        let new_state = !self.open;
        if self.follows_toggle {
            self.open = new_state;
        }
        new_state
    }

    pub fn data_state(&self) -> (name: &'static str)
        ensures
            name@ == self.state_name(),
    {
        if self.open {
            "open"
        } else {
            "closed"
        }
    }
}

/// The width, in pixels, from which a screen no longer counts as small.
pub const MOBILE_BREAKPOINT: u32 = 768;

/// Tells whether a screen of the given width counts as small.
pub fn is_mobile_width(width: u32) -> (mobile: bool)
    ensures
        mobile == (width < MOBILE_BREAKPOINT),
{
    width < MOBILE_BREAKPOINT
}

} // verus!

//! The open state of a sidebar: controlled from outside or kept here, with a
//! separate state for small screens.

use vstd::prelude::*;

verus! {

/// The key that toggles the sidebar together with Ctrl.
pub const SIDEBAR_KEYBOARD_SHORTCUT: char = 'b';

/// Whether the sidebar shows in full.
#[derive(Clone, Copy, Debug, PartialEq, Eq, Structural)]
pub enum SidebarState {
    Expanded,
    Collapsed,
}

impl SidebarState {
    pub open spec fn name(self) -> Seq<char> {
        match self {
            SidebarState::Expanded => "expanded"@,
            SidebarState::Collapsed => "collapsed"@,
        }
    }

    pub fn as_str(&self) -> (name: &'static str)
        ensures
            name@ == self.name(),
    {
        match self {
            SidebarState::Expanded => "expanded",
            SidebarState::Collapsed => "collapsed",
        }
    }
}

/// What has to happen outside when the sidebar is opened or closed.
#[derive(Clone, Copy, Debug, PartialEq, Eq, Structural)]
pub struct OpenChange {
    /// The value to call the owner's change handler with, if the owner has
    /// one.
    pub notify: Option<bool>,
    /// The value to remember across visits.
    pub remember: bool,
}

/// The open state of a sidebar.
#[derive(Clone, Copy, Debug, PartialEq, Eq, Structural)]
pub struct SidebarModel {
    /// The owner's open state, while the owner controls it.
    pub external_open: Option<bool>,
    /// The open state kept here.
    pub internal_open: bool,
    /// The open state on a small screen.
    pub open_mobile: bool,
    /// The owner takes changes through a handler of its own.
    pub has_change_handler: bool,
}

impl SidebarModel {
    /// The open state in force: the owner's, or else the one kept here.
    pub open spec fn effective_open(self) -> bool {
        match self.external_open {
            Some(open) => open,
            None => self.internal_open,
        }
    }

    pub open spec fn state_spec(self) -> SidebarState {
        if self.effective_open() {
            SidebarState::Expanded
        } else {
            SidebarState::Collapsed
        }
    }

    /// The model after `value` has been set: kept here only when the owner
    /// has no handler.
    pub open spec fn after_set_open(self, value: bool) -> SidebarModel {
        if self.has_change_handler {
            self
        } else {
            SidebarModel { internal_open: value, ..self }
        }
    }

    /// The model after a toggle: on a small screen only the small-screen state
    /// flips, otherwise the open state in force is set to its opposite.
    pub open spec fn after_toggle(self, is_mobile: bool) -> SidebarModel {
        if is_mobile {
            SidebarModel { open_mobile: !self.open_mobile, ..self }
        } else {
            self.after_set_open(!self.effective_open())
        }
    }

    /// A sidebar that starts from the remembered state, or else from the
    /// default; closed on a small screen.
    pub fn new(
        remembered: Option<bool>,
        default_open: bool,
        external_open: Option<bool>,
        has_change_handler: bool,
    ) -> (model: SidebarModel)
        ensures
            model == (SidebarModel {
                external_open,
                internal_open: match remembered {
                    Some(open) => open,
                    None => default_open,
                },
                open_mobile: false,
                has_change_handler,
            }),
    {
        let internal_open = match remembered {
            Some(open) => open,
            None => default_open,
        };
        SidebarModel { external_open, internal_open, open_mobile: false, has_change_handler }
    }

    pub fn open(&self) -> (open: bool)
        ensures
            open == self.effective_open(),
    {
        match self.external_open {
            Some(open) => open,
            None => self.internal_open,
        }
    }

    pub fn state(&self) -> (state: SidebarState)
        ensures
            state == self.state_spec(),
    {
        if self.open() {
            SidebarState::Expanded
        } else {
            SidebarState::Collapsed
        }
    }

    /// Opens or closes the sidebar, and says what to tell the owner and what
    /// to remember.
    pub fn set_open(&mut self, value: bool) -> (change: OpenChange)
        ensures
            *final(self) == old(self).after_set_open(value),
            change.remember == value,
            change.notify == if old(self).has_change_handler {
                Some(value)
            } else {
                None
            },
    {
        if self.has_change_handler {
            OpenChange { notify: Some(value), remember: value }
        } else {
            self.internal_open = value;
            OpenChange { notify: None, remember: value }
        }
    }

    /// Sets the small-screen state.
    pub fn set_open_mobile(&mut self, value: bool)
        ensures
            *final(self) == (SidebarModel { open_mobile: value, ..*old(self) }),
    {
        self.open_mobile = value;
    }

    /// Toggles the sidebar. On a small screen nothing is told or remembered.
    pub fn toggle_sidebar(&mut self, is_mobile: bool) -> (change: Option<OpenChange>)
        ensures
            *final(self) == old(self).after_toggle(is_mobile),
            is_mobile ==> change is None,
            !is_mobile ==> change == Some(
                OpenChange {
                    notify: if old(self).has_change_handler {
                        Some(!old(self).effective_open())
                    } else {
                        None
                    },
                    remember: !old(self).effective_open(),
                },
            ),
    {
        if is_mobile {
            self.open_mobile = !self.open_mobile;
            None
        } else {
            let value = !self.open();
            Some(self.set_open(value))
        }
    }
}

/// Toggling twice on a sidebar that keeps its own state brings it back.
pub proof fn lemma_toggle_twice_restores(model: SidebarModel, is_mobile: bool)
    requires
        model.external_open is None,
        !model.has_change_handler,
    ensures
        model.after_toggle(is_mobile).after_toggle(is_mobile) == model,
{
}

} // verus!

//! The three states of a checkbox.

use vstd::prelude::*;
use vstd::std_specs::convert::FromSpecImpl;
use vstd::string::*;
use crate::text::same_text;

verus! {

/// Whether a checkbox is checked, unchecked, or neither.
#[derive(Clone, Copy, Debug, PartialEq, Eq, Hash, Structural)]
pub enum CheckedState {
    False,
    True,
    Indeterminate,
}

impl Default for CheckedState {
    fn default() -> (state: CheckedState)
        ensures
            state == CheckedState::False,
    {
        CheckedState::False
    }
}

impl CheckedState {
    /// The name of the state as the element carries it.
    pub open spec fn name(self) -> Seq<char> {
        match self {
            CheckedState::True => "checked"@,
            CheckedState::False => "unchecked"@,
            CheckedState::Indeterminate => "indeterminate"@,
        }
    }

    /// The state after a click: an unchecked or indeterminate box becomes
    /// checked, a checked one unchecked.
    pub fn toggled(&self) -> (next: CheckedState)
        ensures
            next == if *self == CheckedState::True {
                CheckedState::False
            } else {
                CheckedState::True
            },
    {
        match self {
            CheckedState::False => CheckedState::True,
            CheckedState::True => CheckedState::False,
            CheckedState::Indeterminate => CheckedState::True,
        }
    }

    pub fn is_indeterminate(&self) -> (indeterminate: bool)
        ensures
            indeterminate == (*self == CheckedState::Indeterminate),
    {
        is_indeterminate(*self)
    }

    pub fn get_state(&self) -> (name: &'static str)
        ensures
            name@ == self.name(),
    {
        get_state(*self)
    }

    /// The state as a checked flag, absent while indeterminate.
    pub fn as_option(self) -> (checked: Option<bool>)
        ensures
            checked == match self {
                CheckedState::False => Some(false),
                CheckedState::True => Some(true),
                CheckedState::Indeterminate => None::<bool>,
            },
    {
        match self {
            CheckedState::False => Some(false),
            CheckedState::True => Some(true),
            CheckedState::Indeterminate => None,
        }
    }

    /// The state as a checked flag; an indeterminate box counts as unchecked.
    pub fn as_bool(self) -> (checked: bool)
        ensures
            checked == (self == CheckedState::True),
    {
        match self {
            CheckedState::True => true,
            _ => false,
        }
    }
}

impl From<bool> for CheckedState {
    fn from(value: bool) -> (state: CheckedState) {
        if value {
            CheckedState::True
        } else {
            CheckedState::False
        }
    }
}

impl FromSpecImpl<bool> for CheckedState {
    open spec fn obeys_from_spec() -> bool {
        true
    }

    open spec fn from_spec(value: bool) -> CheckedState {
        if value {
            CheckedState::True
        } else {
            CheckedState::False
        }
    }
}

/// The name of a state as the element carries it.
pub fn get_state(checked: CheckedState) -> (name: &'static str)
    ensures
        name@ == checked.name(),
{
    match checked {
        CheckedState::True => "checked",
        CheckedState::False => "unchecked",
        CheckedState::Indeterminate => "indeterminate",
    }
}

pub fn is_indeterminate(checked: CheckedState) -> (indeterminate: bool)
    ensures
        indeterminate == (checked == CheckedState::Indeterminate),
{
    match checked {
        CheckedState::Indeterminate => true,
        _ => false,
    }
}

/// What the hidden form input has to show.
#[derive(Clone, Copy, Debug, PartialEq, Eq, Structural)]
pub struct InputMarks {
    pub indeterminate: bool,
    pub checked: bool,
}

/// The marks of a state on the hidden form input.
pub open spec fn marks_of(state: CheckedState) -> InputMarks {
    InputMarks {
        indeterminate: state == CheckedState::Indeterminate,
        checked: state == CheckedState::True,
    }
}

/// Tells what to put on the hidden form input, and so whether to send a click
/// up to the form, when the state goes from `old` to `new`: nothing while it
/// has not changed.
pub fn bubble_update(old: CheckedState, new: CheckedState) -> (update: Option<InputMarks>)
    ensures
        update == if old == new {
            None
        } else {
            Some(marks_of(new))
        },
{
    if old == new {
        None
    } else {
        Some(InputMarks { indeterminate: is_indeterminate(new), checked: new.as_bool() })
    }
}

/// Tells whether a key press on a checkbox is to be swallowed: Enter must not
/// toggle it.
pub fn swallows_key(key: &str) -> (swallowed: bool)
    ensures
        swallowed == (key@ == "Enter"@),
{
    same_text(key, "Enter")
}

/// The value a checkbox submits: the given one, or `on`.
pub fn submitted_value(value: Option<String>) -> (submitted: String)
    ensures
        submitted@ == match value {
            Some(given) => given@,
            None => "on"@,
        },
{
    match value {
        Some(given) => given,
        None => "on".to_owned(),
    }
}

} // verus!

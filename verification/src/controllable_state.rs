//! State that is either controlled by its owner, through a property, or kept
//! here. Setting a value says what the owner has to be told.

use vstd::prelude::*;
use vstd::std_specs::cmp::PartialEqSpec;

verus! {

/// What a controllable value is made from.
pub struct UseControllableStateParams<T> {
    /// The owner's value; while it is there, the state is controlled.
    pub prop: Option<T>,
    /// The value to start from when the state is not controlled.
    pub default_prop: Option<T>,
}

/// What a controllable value that may be absent is made from.
pub struct UseControllableOptionalStateParams<T> {
    pub prop: Option<Option<T>>,
    pub default_prop: Option<Option<T>>,
}

/// What an uncontrolled value is made from.
pub struct UseUncontrollableStateParams<T> {
    pub default_prop: Option<T>,
}

/// What an uncontrolled value that may be absent is made from.
pub struct UseUncontrollableOptionalStateParams<T> {
    pub default_prop: Option<Option<T>>,
}

/// Two optional values are the same: both absent, or both present and equal.
pub open spec fn same_option<T: PartialEq>(left: Option<T>, right: Option<T>) -> bool {
    match (left, right) {
        (Some(a), Some(b)) => a.eq_spec(&b),
        (None, None) => true,
        _ => false,
    }
}

/// An optional value of optional values, taken as absent unless both layers
/// are present.
pub open spec fn flattened<T>(value: Option<Option<T>>) -> Option<T> {
    match value {
        Some(inner) => inner,
        None => None,
    }
}

fn is_same<T: Copy + PartialEq>(left: Option<T>, right: Option<T>) -> (same: bool)
    ensures
        T::obeys_eq_spec() ==> same == same_option(left, right),
{
    match (left, right) {
        (Some(a), Some(b)) => a == b,
        (None, None) => true,
        _ => false,
    }
}

fn flatten<T: Copy>(value: Option<Option<T>>) -> (flat: Option<T>)
    ensures
        flat == flattened(value),
{
    match value {
        Some(inner) => inner,
        None => None,
    }
}

/// A value kept here, with the value that the owner was last told of.
pub struct Uncontrolled<T> {
    pub value: Option<T>,
    pub reported: Option<T>,
}

impl<T: Copy + PartialEq> Uncontrolled<T> {
    /// Storing `next` has to be reported: it differs from what was reported
    /// last.
    pub open spec fn must_report(self, next: Option<T>) -> bool {
        !same_option(self.reported, next)
    }

    /// The state after `next` has been stored.
    pub open spec fn after_set(self, next: Option<T>) -> Uncontrolled<T> {
        Uncontrolled {
            value: next,
            reported: if self.must_report(next) {
                next
            } else {
                self.reported
            },
        }
    }

    /// Stores `next` and tells whether the owner has to be told of it.
    pub fn set(&mut self, next: Option<T>) -> (report: bool)
        ensures
            T::obeys_eq_spec() ==> *final(self) == old(self).after_set(next),
            T::obeys_eq_spec() ==> report == old(self).must_report(next),
            final(self).value == next,
    {
        self.value = next;
        if is_same(self.reported, next) {
            false
        } else {
            self.reported = next;
            true
        }
    }
}

/// Starts an uncontrolled value from its default, or from the type's default
/// where none is given; nothing has to be reported yet.
pub fn use_uncontrolled_state<T: Copy + PartialEq + Default>(
    params: UseUncontrollableStateParams<T>,
) -> (state: Uncontrolled<T>)
    ensures
        state.value is Some,
        state.reported == state.value,
        params.default_prop is Some ==> state.value == params.default_prop,
        params.default_prop is None ==> call_ensures(T::default, (), state.value->Some_0),
{
    let start = match params.default_prop {
        Some(value) => value,
        None => T::default(),
    };
    Uncontrolled { value: Some(start), reported: Some(start) }
}

/// Starts an uncontrolled value that may be absent: absent unless a default
/// is given.
pub fn use_uncontrolled_optional_state<T: Copy + PartialEq>(
    params: UseUncontrollableOptionalStateParams<T>,
) -> (state: Uncontrolled<T>)
    ensures
        state.value == flattened(params.default_prop),
        state.reported == state.value,
{
    let start = flatten(params.default_prop);
    Uncontrolled { value: start, reported: start }
}

/// A value that its owner may control.
pub struct ControllableState<T> {
    /// The owner's value, if the owner controls the state.
    pub prop: Option<T>,
    /// The value kept here while the owner does not.
    pub uncontrolled: Uncontrolled<T>,
    /// The value to fall back on when none is kept.
    pub fallback: T,
}

impl<T: Copy + PartialEq> ControllableState<T> {
    pub open spec fn is_controlled_spec(self) -> bool {
        self.prop is Some
    }

    /// The value in force: the owner's while controlled, else the one kept
    /// here, else the fallback.
    pub open spec fn value_spec(self) -> T {
        match self.prop {
            Some(value) => value,
            None => match self.uncontrolled.value {
                Some(value) => value,
                None => self.fallback,
            },
        }
    }

    /// What the owner has to be told when `next` is set: a controlled state
    /// reports a value that differs from the owner's, an uncontrolled one a
    /// value that differs from the last reported.
    pub open spec fn change_for(self, next: T) -> Option<T> {
        let differs = match self.prop {
            Some(_) => !same_option(Some(next), self.prop),
            None => self.uncontrolled.must_report(Some(next)),
        };
        if differs {
            Some(next)
        } else {
            None
        }
    }

    /// The state after `next` has been set: unchanged while controlled.
    pub open spec fn after_set_value(self, next: T) -> ControllableState<T> {
        match self.prop {
            Some(_) => self,
            None => ControllableState {
                uncontrolled: self.uncontrolled.after_set(Some(next)),
                ..self
            },
        }
    }

    pub fn is_controlled(&self) -> (controlled: bool)
        ensures
            controlled == self.is_controlled_spec(),
    {
        self.prop.is_some()
    }

    pub fn value(&self) -> (value: T)
        ensures
            value == self.value_spec(),
    {
        match self.prop {
            Some(value) => value,
            None => match self.uncontrolled.value {
                Some(value) => value,
                None => self.fallback,
            },
        }
    }

    /// Takes a new value of the owner's property.
    pub fn set_prop(&mut self, prop: Option<T>)
        ensures
            *final(self) == (ControllableState { prop, ..*old(self) }),
    {
        self.prop = prop;
    }

    /// Sets a value and returns what the owner's change handler has to be
    /// called with, if anything.
    pub fn set_value(&mut self, next: T) -> (change: Option<T>)
        ensures
            T::obeys_eq_spec() ==> *final(self) == old(self).after_set_value(next),
            T::obeys_eq_spec() ==> change == old(self).change_for(next),
            old(self).prop is Some ==> *final(self) == *old(self),
    {
        if self.prop.is_some() {
            if is_same(Some(next), self.prop) {
                None
            } else {
                Some(next)
            }
        } else if self.uncontrolled.set(Some(next)) {
            Some(next)
        } else {
            None
        }
    }
}

/// Makes a controllable value: controlled exactly while a property is given,
/// and started from the default, or the type's default, otherwise.
pub fn use_controllable_state<T: Copy + PartialEq + Default>(
    params: UseControllableStateParams<T>,
) -> (state: ControllableState<T>)
    ensures
        state.prop == params.prop,
        state.uncontrolled.value == Some(state.fallback),
        state.uncontrolled.reported == Some(state.fallback),
        params.default_prop is Some ==> Some(state.fallback) == params.default_prop,
        params.default_prop is None ==> call_ensures(T::default, (), state.fallback),
        params.prop is Some ==> Some(state.value_spec()) == params.prop,
        params.prop is None ==> state.value_spec() == state.fallback,
{
    let uncontrolled = use_uncontrolled_state(
        UseUncontrollableStateParams { default_prop: params.default_prop },
    );
    let fallback = uncontrolled.value.unwrap();
    ControllableState { prop: params.prop, uncontrolled, fallback }
}

/// A value that may be absent and that its owner may control.
pub struct ControllableOptionalState<T> {
    /// The owner's value; the state is controlled while it is present.
    pub prop: Option<T>,
    /// The value kept here while the owner does not control.
    pub uncontrolled: Uncontrolled<T>,
}

impl<T: Copy + PartialEq> ControllableOptionalState<T> {
    /// The value in force: the owner's while controlled, else the one kept
    /// here.
    pub open spec fn value_spec(self) -> Option<T> {
        match self.prop {
            Some(_) => self.prop,
            None => self.uncontrolled.value,
        }
    }

    /// What the owner has to be told when `next` is set.
    pub open spec fn change_for(self, next: Option<T>) -> Option<Option<T>> {
        let differs = match self.prop {
            Some(_) => !same_option(next, self.prop),
            None => self.uncontrolled.must_report(next),
        };
        if differs {
            Some(next)
        } else {
            None
        }
    }

    /// The state after `next` has been set: unchanged while controlled.
    pub open spec fn after_set_value(self, next: Option<T>) -> ControllableOptionalState<T> {
        match self.prop {
            Some(_) => self,
            None => ControllableOptionalState {
                uncontrolled: self.uncontrolled.after_set(next),
                ..self
            },
        }
    }

    pub fn is_controlled(&self) -> (controlled: bool)
        ensures
            controlled == self.prop is Some,
    {
        self.prop.is_some()
    }

    pub fn value(&self) -> (value: Option<T>)
        ensures
            value == self.value_spec(),
    {
        match self.prop {
            Some(_) => self.prop,
            None => self.uncontrolled.value,
        }
    }

    /// Takes a new value of the owner's property.
    pub fn set_prop(&mut self, prop: Option<Option<T>>)
        ensures
            *final(self) == (ControllableOptionalState { prop: flattened(prop), ..*old(self) }),
    {
        self.prop = flatten(prop);
    }

    /// Sets a value and returns what the owner's change handler has to be
    /// called with, if anything.
    pub fn set_value(&mut self, next: Option<T>) -> (change: Option<Option<T>>)
        ensures
            T::obeys_eq_spec() ==> *final(self) == old(self).after_set_value(next),
            T::obeys_eq_spec() ==> change == old(self).change_for(next),
            old(self).prop is Some ==> *final(self) == *old(self),
    {
        if self.prop.is_some() {
            if is_same(next, self.prop) {
                None
            } else {
                Some(next)
            }
        } else if self.uncontrolled.set(next) {
            Some(next)
        } else {
            None
        }
    }
}

/// Makes a controllable value that may be absent: controlled exactly while
/// the property holds a value, and started from the default otherwise.
pub fn use_controllable_optional_state<T: Copy + PartialEq>(
    params: UseControllableOptionalStateParams<T>,
) -> (state: ControllableOptionalState<T>)
    ensures
        state.prop == flattened(params.prop),
        state.uncontrolled.value == flattened(params.default_prop),
        state.uncontrolled.reported == flattened(params.default_prop),
{
    let uncontrolled = use_uncontrolled_optional_state(
        UseUncontrollableOptionalStateParams { default_prop: params.default_prop },
    );
    ControllableOptionalState { prop: flatten(params.prop), uncontrolled }
}

} // verus!

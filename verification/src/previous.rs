//! Remembers the value that a changing input had before its current one.

use vstd::prelude::*;
use vstd::std_specs::cmp::PartialEqSpec;

verus! {

/// The current value of an input and the one before it.
pub struct Previous<T> {
    pub current: T,
    pub previous: T,
}

impl<T: Copy + PartialEq> Previous<T> {
    /// The tracker after the input has been read as `value`: a value that
    /// differs from the current one pushes the current one back.
    pub open spec fn after(self, value: T) -> Previous<T> {
        if self.current.eq_spec(&value) {
            self
        } else {
            Previous { current: value, previous: self.current }
        }
    }

    /// Reads the input and returns the value before the current one; until
    /// the input changes for the first time that is the initial value.
    pub fn update(&mut self, value: T) -> (previous: T)
        ensures
            T::obeys_eq_spec() ==> *final(self) == old(self).after(value),
            T::obeys_eq_spec() ==> previous == old(self).after(value).previous,
    {
        if !(self.current == value) {
            self.previous = self.current;
            self.current = value;
        }
        self.previous
    }
}

/// Starts tracking an input whose value is `value` now.
pub fn use_previous<T: Copy + PartialEq>(value: T) -> (tracker: Previous<T>)
    ensures
        tracker.current == value,
        tracker.previous == value,
{
    Previous { current: value, previous: value }
}

} // verus!

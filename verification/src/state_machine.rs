//! A state machine driven by a lookup table: states and events are numbers,
//! and an event without an entry for the current state changes nothing.

use std::collections::HashMap;
use vstd::prelude::*;

verus! {

broadcast use vstd::std_specs::hash::group_hash_axioms;

/// The table's entry for a state and an event, if it has one.
pub open spec fn table_entry(table: Map<u64, HashMap<u64, u64>>, state: u64, event: u64) -> Option<
    u64,
> {
    if table.contains_key(state) && table[state]@.contains_key(event) {
        Some(table[state]@[event])
    } else {
        None
    }
}

/// The state after an event: the table's entry, or the state itself.
pub open spec fn state_after(table: Map<u64, HashMap<u64, u64>>, state: u64, event: u64) -> u64 {
    match table_entry(table, state, event) {
        Some(next) => next,
        None => state,
    }
}

/// A current state together with the table that moves it.
pub struct StateMachine {
    state: u64,
    machine: HashMap<u64, HashMap<u64, u64>>,
}

impl StateMachine {
    /// The current state.
    pub closed spec fn current(&self) -> u64 {
        self.state
    }

    /// The table, by state and then by event.
    pub closed spec fn table(&self) -> Map<u64, HashMap<u64, u64>> {
        self.machine@
    }

    /// The current state.
    pub fn state(&self) -> (state: u64)
        ensures
            state == self.current(),
    {
        self.state
    }

    /// Looks up what the table holds for the current state and `event`.
    pub fn next_state(&self, event: u64) -> (next: Option<u64>)
        ensures
            next == table_entry(self.table(), self.current(), event),
    {
        match self.machine.get(&self.state) {
            Some(events) => match events.get(&event) {
                Some(next) => Some(*next),
                None => None,
            },
            None => None,
        }
    }

    /// Sends an event: the state moves to the table's entry, or stays where
    /// the table has none. Returns whether there was an entry.
    pub fn send(&mut self, event: u64) -> (moved: bool)
        ensures
            final(self).table() == old(self).table(),
            final(self).current() == state_after(old(self).table(), old(self).current(), event),
            moved == table_entry(old(self).table(), old(self).current(), event).is_some(),
    {
        match self.next_state(event) {
            Some(next) => {
                self.state = next;
                true
            },
            None => false,
        }
    }
}

/// Starts a machine in `initial_state` over the table `machine`.
pub fn use_state_machine(initial_state: u64, machine: HashMap<u64, HashMap<u64, u64>>) -> (started:
    StateMachine)
    ensures
        started.current() == initial_state,
        started.table() == machine@,
{
    StateMachine { state: initial_state, machine }
}

} // verus!

use headless_primitives::controllable_state::{
    use_controllable_optional_state, use_controllable_state, use_uncontrolled_optional_state,
    use_uncontrolled_state, UseControllableOptionalStateParams, UseControllableStateParams,
    UseUncontrollableOptionalStateParams, UseUncontrollableStateParams,
};
use headless_primitives::id::{use_id, use_id_with_deterministic_id, IdSequence};
use headless_primitives::previous::use_previous;
use headless_primitives::state_machine::use_state_machine;
use std::collections::HashMap;

#[test]
fn ids_count_up_from_zero() {
    let mut ids = IdSequence::new();
    assert_eq!(use_id(&mut ids), "radix-0");
    assert_eq!(use_id(&mut ids), "radix-1");
    assert_eq!(use_id_with_deterministic_id(&mut ids, None), "radix-2");
    for _ in 3..10 {
        use_id(&mut ids);
    }
    assert_eq!(use_id(&mut ids), "radix-10");
}

#[test]
fn deterministic_id_is_kept_and_uses_no_number() {
    let mut ids = IdSequence::new();
    assert_eq!(
        use_id_with_deterministic_id(&mut ids, Some("custom-id".to_string())),
        "custom-id"
    );
    assert_eq!(use_id(&mut ids), "radix-0");
}

#[test]
fn id_prefix_can_be_chosen() {
    let mut ids = IdSequence::with_prefix("menu".to_string());
    assert_eq!(ids.next_id(), "menu-0");
    assert_eq!(ids.next_id(), "menu-1");
}

#[test]
fn state_machine_follows_its_table() {
    const IDLE: u64 = 0;
    const RUNNING: u64 = 1;
    const DONE: u64 = 2;
    const START: u64 = 10;
    const FINISH: u64 = 11;
    let mut table = HashMap::new();
    table.insert(IDLE, HashMap::from([(START, RUNNING)]));
    table.insert(RUNNING, HashMap::from([(FINISH, DONE), (START, RUNNING)]));
    let mut machine = use_state_machine(IDLE, table);
    assert_eq!(machine.state(), IDLE);
    assert_eq!(machine.next_state(FINISH), None);
    assert!(!machine.send(FINISH));
    assert_eq!(machine.state(), IDLE);
    assert_eq!(machine.next_state(START), Some(RUNNING));
    assert!(machine.send(START));
    assert_eq!(machine.state(), RUNNING);
    assert!(machine.send(FINISH));
    assert_eq!(machine.state(), DONE);
    assert!(!machine.send(START));
    assert_eq!(machine.state(), DONE);
}

#[test]
fn previous_lags_one_change_behind() {
    let mut tracker = use_previous(1);
    assert_eq!(tracker.current, 1);
    assert_eq!(tracker.previous, 1);
    assert_eq!(tracker.update(1), 1);
    assert_eq!(tracker.update(2), 1);
    assert_eq!(tracker.update(2), 1);
    assert_eq!(tracker.update(5), 2);
    assert_eq!(tracker.current, 5);
}

#[test]
fn uncontrolled_state_reports_changes() {
    let mut state = use_controllable_state(UseControllableStateParams {
        prop: None,
        default_prop: Some(false),
    });
    assert!(!state.is_controlled());
    assert_eq!(state.value(), false);
    assert_eq!(state.set_value(false), None);
    assert_eq!(state.set_value(true), Some(true));
    assert_eq!(state.value(), true);
    assert_eq!(state.set_value(true), None);
    assert_eq!(state.set_value(false), Some(false));
    assert_eq!(state.value(), false);
}

#[test]
fn uncontrolled_state_starts_from_the_type_default() {
    let state = use_controllable_state::<u32>(UseControllableStateParams {
        prop: None,
        default_prop: None,
    });
    assert_eq!(state.value(), 0);
    let state = use_uncontrolled_state::<bool>(UseUncontrollableStateParams { default_prop: None });
    assert_eq!(state.value, Some(false));
    let state = use_uncontrolled_state(UseUncontrollableStateParams { default_prop: Some(7u8) });
    assert_eq!(state.value, Some(7));
    assert_eq!(state.reported, Some(7));
}

#[test]
fn controlled_state_keeps_the_owners_value() {
    let mut state = use_controllable_state(UseControllableStateParams {
        prop: Some(3),
        default_prop: Some(9),
    });
    assert!(state.is_controlled());
    assert_eq!(state.value(), 3);
    assert_eq!(state.set_value(3), None);
    assert_eq!(state.set_value(4), Some(4));
    assert_eq!(state.value(), 3);
    state.set_prop(Some(4));
    assert_eq!(state.value(), 4);
    state.set_prop(None);
    assert_eq!(state.value(), 9);
}

#[test]
fn optional_state_flattens_its_property() {
    let mut state = use_controllable_optional_state(UseControllableOptionalStateParams {
        prop: Some(None),
        default_prop: Some(Some(2)),
    });
    assert!(!state.is_controlled());
    assert_eq!(state.value(), Some(2));
    assert_eq!(state.set_value(Some(2)), None);
    assert_eq!(state.set_value(None), Some(None));
    assert_eq!(state.value(), None);
    assert_eq!(state.set_value(Some(5)), Some(Some(5)));
    state.set_prop(Some(Some(8)));
    assert!(state.is_controlled());
    assert_eq!(state.value(), Some(8));
    assert_eq!(state.set_value(Some(8)), None);
    assert_eq!(state.set_value(None), Some(None));
    assert_eq!(state.value(), Some(8));
}

#[test]
fn optional_uncontrolled_state_starts_absent() {
    let state = use_uncontrolled_optional_state::<i32>(UseUncontrollableOptionalStateParams {
        default_prop: None,
    });
    assert_eq!(state.value, None);
    let state = use_uncontrolled_optional_state(UseUncontrollableOptionalStateParams {
        default_prop: Some(Some(4)),
    });
    assert_eq!(state.value, Some(4));
}

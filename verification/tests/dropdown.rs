use headless_primitives::collapsible::{is_mobile_width, CollapsibleContext, MOBILE_BREAKPOINT};
use headless_primitives::checkbox::{bubble_update, submitted_value, swallows_key, CheckedState, InputMarks};
use headless_primitives::dropdown_menu::{
    on_trigger_key_down, on_trigger_pointer_down, TriggerResponse,
};
use headless_primitives::menu::is_mouse_pointer;
use headless_primitives::sidebar::{OpenChange, SidebarModel, SidebarState};

const NOTHING: TriggerResponse = TriggerResponse { toggle: false, open: false, prevent_default: false };

#[test]
fn trigger_toggles_on_primary_button() {
    assert_eq!(
        on_trigger_pointer_down(None, 0, false, false),
        TriggerResponse { toggle: true, open: false, prevent_default: false }
    );
    assert_eq!(
        on_trigger_pointer_down(Some(false), 0, false, true),
        TriggerResponse { toggle: true, open: false, prevent_default: true }
    );
    assert_eq!(on_trigger_pointer_down(None, 2, false, false), NOTHING);
    assert_eq!(on_trigger_pointer_down(None, 0, true, false), NOTHING);
    assert_eq!(on_trigger_pointer_down(Some(true), 0, false, false), NOTHING);
}

#[test]
fn trigger_keys() {
    let toggle = TriggerResponse { toggle: true, open: false, prevent_default: true };
    assert_eq!(on_trigger_key_down(None, "Enter"), toggle);
    assert_eq!(on_trigger_key_down(None, " "), toggle);
    assert_eq!(
        on_trigger_key_down(None, "ArrowDown"),
        TriggerResponse { toggle: false, open: true, prevent_default: true }
    );
    assert_eq!(on_trigger_key_down(None, "ArrowUp"), NOTHING);
    assert_eq!(on_trigger_key_down(Some(true), "Enter"), NOTHING);
}

#[test]
fn only_a_mouse_hovers() {
    assert!(is_mouse_pointer("mouse"));
    assert!(!is_mouse_pointer("touch"));
    assert!(!is_mouse_pointer("pen"));
    assert!(!is_mouse_pointer(""));
}

#[test]
fn checkbox_form_input_follows_changes() {
    assert_eq!(bubble_update(CheckedState::True, CheckedState::True), None);
    assert_eq!(
        bubble_update(CheckedState::False, CheckedState::True),
        Some(InputMarks { indeterminate: false, checked: true })
    );
    assert_eq!(
        bubble_update(CheckedState::True, CheckedState::Indeterminate),
        Some(InputMarks { indeterminate: true, checked: false })
    );
    assert_eq!(
        bubble_update(CheckedState::Indeterminate, CheckedState::False),
        Some(InputMarks { indeterminate: false, checked: false })
    );
    assert!(swallows_key("Enter"));
    assert!(!swallows_key(" "));
    assert_eq!(submitted_value(None), "on");
    assert_eq!(submitted_value(Some("yes".to_string())), "yes");
}

#[test]
fn sidebar_keeps_its_own_state() {
    let mut sidebar = SidebarModel::new(None, true, None, false);
    assert!(sidebar.open());
    assert_eq!(sidebar.state(), SidebarState::Expanded);
    assert_eq!(sidebar.state().as_str(), "expanded");
    assert_eq!(sidebar.toggle_sidebar(false), Some(OpenChange { notify: None, remember: false }));
    assert!(!sidebar.open());
    assert_eq!(sidebar.state().as_str(), "collapsed");
    assert_eq!(sidebar.set_open(true), OpenChange { notify: None, remember: true });
    assert!(sidebar.open());
    let remembered = SidebarModel::new(Some(false), true, None, false);
    assert!(!remembered.open());
}

#[test]
fn sidebar_on_a_small_screen_flips_only_the_mobile_state() {
    let mut sidebar = SidebarModel::new(None, true, None, false);
    assert!(!sidebar.open_mobile);
    assert_eq!(sidebar.toggle_sidebar(true), None);
    assert!(sidebar.open_mobile);
    assert!(sidebar.open());
    sidebar.set_open_mobile(false);
    assert!(!sidebar.open_mobile);
}

#[test]
fn controlled_sidebar_only_notifies() {
    let mut sidebar = SidebarModel::new(Some(true), true, Some(false), true);
    assert!(!sidebar.open());
    assert_eq!(
        sidebar.toggle_sidebar(false),
        Some(OpenChange { notify: Some(true), remember: true })
    );
    assert!(!sidebar.open());
    assert!(sidebar.internal_open);
}

#[test]
fn collapsible_starts_closed_and_toggles() {
    let mut region = CollapsibleContext::new(None, Some(false), None, "radix-0".to_string());
    assert!(!region.open);
    assert!(!region.disabled);
    assert_eq!(region.data_state(), "closed");
    assert!(region.on_open_toggle());
    assert!(region.open);
    assert_eq!(region.data_state(), "open");
    assert!(!region.on_open_toggle());
    assert!(!region.open);
    assert_eq!(region.content_id, "radix-0");
}

#[test]
fn collapsible_without_given_state_only_reports() {
    let mut region = CollapsibleContext::new(Some(true), None, Some(true), "c".to_string());
    assert!(region.open);
    assert!(region.disabled);
    assert!(!region.on_open_toggle());
    assert!(region.open);
    let closed = CollapsibleContext::new(None, None, None, "c".to_string());
    assert!(!closed.open);
}

#[test]
fn small_screens_end_below_the_breakpoint() {
    assert_eq!(MOBILE_BREAKPOINT, 768);
    assert!(is_mobile_width(0));
    assert!(is_mobile_width(767));
    assert!(!is_mobile_width(768));
    assert!(!is_mobile_width(1920));
}

use headless_primitives::animation::{
    get_animation_name, get_animation_name_recursive, named_animation,
};
use headless_primitives::menu::{
    get_next_match, get_open_state, is_first_key, is_first_last_key, is_last_key,
    is_selection_key, is_sub_close_key, is_sub_open_key, item_key_activates,
    sub_trigger_key_opens, text_starts_with, Direction,
};

fn values(items: &[&str]) -> Vec<String> {
    items.iter().map(|item| item.to_string()).collect()
}

fn some(text: &str) -> Option<String> {
    Some(text.to_string())
}

#[test]
fn open_state_names() {
    assert_eq!(get_open_state(true), "open");
    assert_eq!(get_open_state(false), "closed");
}

#[test]
fn menu_keys_are_told_apart() {
    assert!(is_selection_key("Enter"));
    assert!(is_selection_key(" "));
    assert!(!is_selection_key("Tab"));
    for key in ["ArrowDown", "PageUp", "Home"] {
        assert!(is_first_key(key));
        assert!(!is_last_key(key));
        assert!(is_first_last_key(key));
    }
    for key in ["ArrowUp", "PageDown", "End"] {
        assert!(is_last_key(key));
        assert!(!is_first_key(key));
        assert!(is_first_last_key(key));
    }
    assert!(!is_first_last_key("Enter"));
    assert!(is_sub_open_key(Direction::Ltr, "ArrowRight"));
    assert!(!is_sub_open_key(Direction::Ltr, "ArrowLeft"));
    assert!(is_sub_open_key(Direction::Rtl, "ArrowLeft"));
    assert!(is_sub_close_key(Direction::Ltr, "ArrowLeft"));
    assert!(is_sub_close_key(Direction::Rtl, "ArrowRight"));
    assert!(!is_sub_close_key(Direction::Rtl, "ArrowLeft"));
}

#[test]
fn space_types_ahead_instead_of_selecting() {
    assert!(item_key_activates(false, "", "Enter"));
    assert!(item_key_activates(false, "", " "));
    assert!(!item_key_activates(false, "ab", " "));
    assert!(item_key_activates(false, "ab", "Enter"));
    assert!(!item_key_activates(true, "", "Enter"));
    assert!(!item_key_activates(false, "", "a"));
    assert!(sub_trigger_key_opens(Direction::Ltr, false, "", "ArrowRight"));
    assert!(!sub_trigger_key_opens(Direction::Ltr, true, "", "ArrowRight"));
    assert!(!sub_trigger_key_opens(Direction::Rtl, false, "", "ArrowRight"));
    assert!(sub_trigger_key_opens(Direction::Rtl, false, "x", "ArrowLeft"));
}

#[test]
fn prefix_test() {
    assert!(text_starts_with("banana", "ban"));
    assert!(text_starts_with("banana", ""));
    assert!(text_starts_with("banana", "banana"));
    assert!(!text_starts_with("banana", "bananas"));
    assert!(!text_starts_with("banana", "nan"));
    assert!(text_starts_with("été", "ét"));
}

#[test]
fn type_ahead_finds_the_first_match() {
    let items = values(&["Apple", "Banana", "Blueberry", "Cherry"]);
    assert_eq!(get_next_match(&items, "b", None), some("Banana"));
    assert_eq!(get_next_match(&items, "BL", None), some("Blueberry"));
    assert_eq!(get_next_match(&items, "ch", some("Apple")), some("Cherry"));
    assert_eq!(get_next_match(&items, "z", None), None);
    assert_eq!(get_next_match(&vec![], "a", None), None);
}

#[test]
fn type_ahead_keeps_a_current_match_that_still_matches() {
    let items = values(&["Apple", "Banana", "Blueberry", "Cherry"]);
    assert_eq!(get_next_match(&items, "ban", some("Banana")), None);
    assert_eq!(get_next_match(&items, "bl", some("Blueberry")), None);
}

#[test]
fn type_ahead_wraps_around_the_current_match() {
    // With the current match at index 2, the last two items come first:
    // Banana, Cherry, Apple, Avocado.
    let items = values(&["Apple", "Avocado", "Banana", "Cherry"]);
    assert_eq!(get_next_match(&items, "a", some("Banana")), some("Apple"));
    assert_eq!(get_next_match(&items, "c", some("Banana")), some("Cherry"));
    let items = values(&["Apple", "Banana", "Apricot", "Avocado"]);
    assert_eq!(get_next_match(&items, "a", some("Banana")), some("Avocado"));
    // With the current match at index 3, the order is Banana, Apricot, Avocado, Apple.
    assert_eq!(get_next_match(&items, "a", some("Avocado")), some("Apricot"));
    assert_eq!(get_next_match(&items, "ap", some("Avocado")), some("Apricot"));
    assert_eq!(get_next_match(&items, "app", some("Avocado")), some("Apple"));
}

#[test]
fn repeated_character_cycles() {
    let items = values(&["Apple", "Avocado", "Banana"]);
    assert_eq!(get_next_match(&items, "aaa", some("Apple")), some("Avocado"));
    assert_eq!(get_next_match(&items, "aa", None), some("Apple"));
    assert_eq!(get_next_match(&items, "ab", None), None);
    assert_eq!(get_next_match(&items, "bb", some("Banana")), None);
    assert_eq!(get_next_match(&items, "", some("Banana")), some("Avocado"));
}

#[test]
fn animation_names_are_trimmed() {
    assert_eq!(get_animation_name("fade-out"), some("fade-out"));
    assert_eq!(get_animation_name("  fade-out \n"), some("fade-out"));
    assert_eq!(get_animation_name("none"), None);
    assert_eq!(get_animation_name(" none "), None);
    assert_eq!(get_animation_name(""), None);
    assert_eq!(get_animation_name("   "), None);
    assert_eq!(get_animation_name("None"), some("None"));
    assert_eq!(named_animation(" none "), some(" none "));
}

#[test]
fn first_named_animation_in_document_order() {
    assert_eq!(get_animation_name_recursive(&values(&[])), None);
    assert_eq!(get_animation_name_recursive(&values(&["none", "", " "])), None);
    assert_eq!(
        get_animation_name_recursive(&values(&["none", " slide-exit ", "fade"])),
        some("slide-exit")
    );
    assert_eq!(get_animation_name_recursive(&values(&["spin", "none"])), some("spin"));
}

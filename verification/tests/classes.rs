use headless_primitives::classes::{cn, compose_classes, is_mergeable, try_cn, ClassValue};
use std::collections::HashMap;

fn text(class: &str) -> ClassValue {
    ClassValue::Text(class.to_string())
}

fn when(flag: bool, class: &str) -> ClassValue {
    ClassValue::When(flag, class.to_string())
}

fn many(classes: &[&str]) -> ClassValue {
    ClassValue::Many(classes.iter().map(|class| class.to_string()).collect())
}

fn maybe(class: Option<&str>) -> ClassValue {
    ClassValue::Maybe(class.map(|class| class.to_string()))
}

fn toggles(map: HashMap<String, bool>) -> ClassValue {
    ClassValue::Toggles(map.into_iter().collect())
}

#[test]
fn test_empty() {
    assert_eq!(cn(&vec![]), "");
}

#[test]
fn test_basic_strings() {
    assert_eq!(cn(&vec![text("flex"), text("p-2")]), "flex p-2");
    assert_eq!(cn(&vec![text("")]), "");
    // Leading and trailing spaces are dropped by the merge.
    assert_eq!(cn(&vec![text("  p-2  ")]), "p-2");
}

#[test]
fn merge_condenses_white_space() {
    assert_eq!(cn(&vec![text("flex    p-2")]), "flex p-2");
    assert_eq!(cn(&vec![text("   ")]), "");
}

#[test]
fn test_conditional_tuples() {
    assert_eq!(cn(&vec![when(true, "active"), when(false, "inactive")]), "active");
    assert_eq!(cn(&vec![text("base"), when(true, "active")]), "base active");
    assert_eq!(cn(&vec![text("base"), when(false, "active")]), "base");
}

#[test]
fn test_arrays_and_vecs() {
    assert_eq!(cn(&vec![many(&["flex", "p-2"])]), "flex p-2");
    assert_eq!(cn(&vec![ClassValue::Many(vec!["flex".to_string(), "p-2".to_string()])]), "flex p-2");
    assert_eq!(cn(&vec![text("base"), many(&["flex", "p-2"])]), "base flex p-2");
}

#[test]
fn test_hashmap() {
    let mut classes = HashMap::new();
    classes.insert("flex".to_string(), true);
    classes.insert("hidden".to_string(), false);
    assert_eq!(cn(&vec![toggles(classes)]), "flex");
}

#[test]
fn test_option_types() {
    assert_eq!(cn(&vec![maybe(Some("flex"))]), "flex");
    assert_eq!(cn(&vec![maybe(None::<&str>)]), "");
    assert_eq!(cn(&vec![maybe(Some("flex")), maybe(None::<&str>), text("p-2")]), "flex p-2");
}

#[test]
fn test_numeric_types() {
    let z_index = 50;
    let spacing = 0;
    assert_eq!(
        cn(&vec![text("absolute"), ClassValue::Number(z_index), ClassValue::Number(spacing)]),
        "absolute 50 0"
    );
}

#[test]
fn test_closures() {
    let is_active = true;
    let active = || if is_active { "active" } else { "" };
    assert_eq!(cn(&vec![text("base"), text(active())]), "base active");
    let not_active = false;
    let inactive = || if not_active { "active" } else { "" };
    assert_eq!(cn(&vec![text("base"), text(inactive())]), "base");
}

#[test]
fn test_complex_composition() {
    let is_active = true;
    let size = Some("lg");
    let mut map = HashMap::new();
    map.insert("bg-red-500".to_string(), false);
    map.insert("shadow".to_string(), true);

    let out = cn(&vec![
        text("btn"),
        when(is_active, "btn-active"),
        toggles(map),
        ClassValue::Maybe(size.map(|s| format!("btn-{}", s))),
        many(&["p-2", "rounded"]),
    ]);
    assert_eq!(out, "btn btn-active shadow btn-lg p-2 rounded");
}

#[test]
fn test_tailwind_merge_basics() {
    assert_eq!(cn(&vec![text("p-2"), text("p-4")]), "p-4");
    assert_eq!(cn(&vec![text("p-2"), text("px-4")]), "p-2 px-4");
}

#[test]
fn test_tailwind_merge_with_modifiers() {
    assert_eq!(cn(&vec![text("hover:p-2"), text("hover:p-4")]), "hover:p-4");
    assert_eq!(cn(&vec![text("sm:p-2"), text("sm:p-4"), text("md:p-6")]), "sm:p-4 md:p-6");
}

#[test]
fn test_tailwind_arbitrary_values() {
    assert_eq!(cn(&vec![text("p-[2px]"), text("p-[4px]")]), "p-[4px]");
    assert_eq!(
        cn(&vec![text("grid-cols-[1fr,2fr]"), text("grid-cols-[1fr,1fr]")]),
        "grid-cols-[1fr,1fr]"
    );
}

#[test]
fn test_complex_tailwind_scenarios() {
    let is_active = true;
    let is_large = true;
    assert_eq!(
        cn(&vec![
            text("p-2"),
            when(is_active, "hover:bg-blue-500"),
            many(&["rounded-lg", "shadow-sm"]),
            when(is_large, "lg:p-4"),
            text("dark:bg-gray-800"),
        ]),
        "p-2 hover:bg-blue-500 rounded-lg shadow-sm lg:p-4 dark:bg-gray-800"
    );
}

#[test]
fn test_edge_cases() {
    assert_eq!(cn(&vec![text(""), text("p-2")]), "p-2");
    assert_eq!(cn(&vec![text("p-2"), text("")]), "p-2");

    assert_eq!(cn(&vec![text("  p-2  "), text("  p-4  ")]), "p-4");
    assert_eq!(cn(&vec![text("p-2    p-4")]), "p-4");

    assert_eq!(cn(&vec![text("p-2 p-2"), text("p-2")]), "p-2");
}

#[test]
fn compose_joins_with_single_spaces() {
    assert_eq!(compose_classes(&vec![]), "");
    assert_eq!(
        compose_classes(&vec![text("a"), text(""), when(true, "b"), when(false, "c"), many(&["d", "", "e"])]),
        "a b d e"
    );
    assert_eq!(compose_classes(&vec![text("  p-2  "), text("x")]), "  p-2   x");
}

#[test]
fn compose_writes_numbers_in_decimal() {
    assert_eq!(compose_classes(&vec![ClassValue::Number(0)]), "0");
    assert_eq!(compose_classes(&vec![ClassValue::Number(-17), ClassValue::Number(1024)]), "-17 1024");
    assert_eq!(
        compose_classes(&vec![text("z"), ClassValue::Number(i64::MIN)]),
        "z -9223372036854775808"
    );
}

#[test]
fn compose_keeps_toggle_order() {
    let pairs = vec![
        ("one".to_string(), true),
        ("two".to_string(), false),
        ("three".to_string(), true),
        ("".to_string(), true),
    ];
    assert_eq!(compose_classes(&vec![ClassValue::Toggles(pairs)]), "one three");
}

#[test]
fn merge_is_not_the_identity() {
    assert_eq!(cn(&vec![text("p-2 p-4")]), "p-4");
    assert_ne!(cn(&vec![text("p-2 p-4")]), "p-2 p-4");
}

#[test]
fn backslash_is_not_merged() {
    assert!(is_mergeable("p-2 hover:p-4"));
    assert!(is_mergeable(""));
    assert!(!is_mergeable("p-[\\"));
    assert!(!is_mergeable("é\\é"));
    assert_eq!(try_cn(&vec![text("p-2"), text("p-4")]), Some("p-4".to_string()));
    assert_eq!(try_cn(&vec![text("p-2"), text("p-[\\")]), None);
    assert_eq!(try_cn(&vec![]), Some(String::new()));
}

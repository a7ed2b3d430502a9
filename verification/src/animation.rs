//! Finding out whether an element, or anything below it, has a named
//! animation: the question the presence machine asks before it suspends an
//! unmount.

use vstd::prelude::*;
use vstd::string::*;
use crate::text::{same_text, trim, trimmed};

verus! {

/// A trimmed `animation-name` value names an animation: it is neither empty
/// nor `none`.
pub open spec fn names_animation(name: Seq<char>) -> bool {
    name.len() > 0 && name != "none"@
}

/// The animation that a computed `animation-name` value names, if any.
pub open spec fn animation_named(value: Seq<char>) -> Option<Seq<char>> {
    if names_animation(trimmed(value)) {
        Some(trimmed(value))
    } else {
        None
    }
}

/// The first animation named by the values at or after `from`.
pub open spec fn first_animation(values: Seq<String>, from: int) -> Option<Seq<char>>
    decreases values.len() - from,
{
    if from < 0 || from >= values.len() {
        None
    } else if animation_named(values[from]@) is Some {
        animation_named(values[from]@)
    } else {
        first_animation(values, from + 1)
    }
}

/// A text, if there is one, as a mathematical value.
pub open spec fn text_of(name: Option<String>) -> Option<Seq<char>> {
    match name {
        Some(name) => Some(name@),
        None => None,
    }
}

/// Takes an `animation-name` value that is already trimmed, and gives the
/// name back unless it is empty or `none`.
pub fn named_animation(name: &str) -> (found: Option<String>)
    ensures
        text_of(found) == if names_animation(name@) {
            Some(name@)
        } else {
            None
        },
{
    if name.is_empty() || same_text(name, "none") {
        None
    } else {
        Some(name.to_owned())
    }
}

/// Reads the animation's name from a computed `animation-name` value.
pub fn get_animation_name(value: &str) -> (found: Option<String>)
    ensures
        text_of(found) == animation_named(value@),
{
    named_animation(trim(value))
}

/// Reads the first animation name among the computed `animation-name` values
/// of an element and of everything below it, in document order.
pub fn get_animation_name_recursive(values: &Vec<String>) -> (found: Option<String>)
    ensures
        text_of(found) == first_animation(values@, 0),
{
    let mut i: usize = 0;
    while i < values.len()
        invariant
            i <= values@.len(),
            first_animation(values@, 0) == first_animation(values@, i as int),
        decreases values@.len() - i,
    {
        let found = get_animation_name(values[i].as_str());
        if found.is_some() {
            return found;
        }
        i += 1;
    }
    None
}

} // verus!

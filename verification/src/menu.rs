//! Keyboard decisions of a menu, and the type-ahead search that picks the
//! next item by the characters typed.

use vstd::prelude::*;
use vstd::string::*;
use crate::text::{lowercase, lowercased, same_text};

verus! {

/// The reading direction of a menu.
#[derive(Clone, Copy, Debug, PartialEq, Eq, Hash, Structural)]
pub enum Direction {
    Ltr,
    Rtl,
}

/// The key selects the focused item: Enter or the space bar.
pub open spec fn selection_key(key: Seq<char>) -> bool {
    key == "Enter"@ || key == " "@
}

/// The key moves focus to the first item.
pub open spec fn first_key(key: Seq<char>) -> bool {
    key == "ArrowDown"@ || key == "PageUp"@ || key == "Home"@
}

/// The key moves focus to the last item.
pub open spec fn last_key(key: Seq<char>) -> bool {
    key == "ArrowUp"@ || key == "PageDown"@ || key == "End"@
}

/// The key opens a submenu from its trigger: the arrow that points away from
/// the menu in its reading direction.
pub open spec fn sub_open_key(dir: Direction, key: Seq<char>) -> bool {
    match dir {
        Direction::Ltr => key == "ArrowRight"@,
        Direction::Rtl => key == "ArrowLeft"@,
    }
}

/// The key closes a submenu: the arrow that points back to the menu.
pub open spec fn sub_close_key(dir: Direction, key: Seq<char>) -> bool {
    match dir {
        Direction::Ltr => key == "ArrowLeft"@,
        Direction::Rtl => key == "ArrowRight"@,
    }
}

pub fn is_selection_key(key: &str) -> (selects: bool)
    ensures
        selects == selection_key(key@),
{
    same_text(key, "Enter") || same_text(key, " ")
}

pub fn is_first_key(key: &str) -> (first: bool)
    ensures
        first == first_key(key@),
{
    same_text(key, "ArrowDown") || same_text(key, "PageUp") || same_text(key, "Home")
}

pub fn is_last_key(key: &str) -> (last: bool)
    ensures
        last == last_key(key@),
{
    same_text(key, "ArrowUp") || same_text(key, "PageDown") || same_text(key, "End")
}

/// Tells whether the key moves focus to the first or the last item.
pub fn is_first_last_key(key: &str) -> (moves: bool)
    ensures
        moves == (first_key(key@) || last_key(key@)),
{
    is_first_key(key) || is_last_key(key)
}

pub fn is_sub_open_key(dir: Direction, key: &str) -> (opens: bool)
    ensures
        opens == sub_open_key(dir, key@),
{
    match dir {
        Direction::Ltr => same_text(key, "ArrowRight"),
        Direction::Rtl => same_text(key, "ArrowLeft"),
    }
}

pub fn is_sub_close_key(dir: Direction, key: &str) -> (closes: bool)
    ensures
        closes == sub_close_key(dir, key@),
{
    match dir {
        Direction::Ltr => same_text(key, "ArrowLeft"),
        Direction::Rtl => same_text(key, "ArrowRight"),
    }
}

/// A key press is handled at all: the item is enabled, and the key is not a
/// space typed into a running type-ahead search.
pub open spec fn key_is_handled(disabled: bool, search: Seq<char>, key: Seq<char>) -> bool {
    !disabled && !(search.len() > 0 && key == " "@)
}

/// Tells whether a key press on an item activates it.
pub fn item_key_activates(disabled: bool, search: &str, key: &str) -> (activates: bool)
    ensures
        activates == (key_is_handled(disabled, search@, key@) && selection_key(key@)),
{
    let is_typing_ahead = !search.is_empty();
    if disabled || (is_typing_ahead && same_text(key, " ")) {
        return false;
    }
    is_selection_key(key)
}

/// Tells whether a key press on a submenu trigger opens the submenu.
pub fn sub_trigger_key_opens(dir: Direction, disabled: bool, search: &str, key: &str) -> (opens:
    bool)
    ensures
        opens == (key_is_handled(disabled, search@, key@) && sub_open_key(dir, key@)),
{
    let is_typing_ahead = !search.is_empty();
    if disabled || (is_typing_ahead && same_text(key, " ")) {
        return false;
    }
    is_sub_open_key(dir, key)
}

/// Tells whether a pointer is a mouse: only a mouse has hover intent.
pub fn is_mouse_pointer(pointer_type: &str) -> (mouse: bool)
    ensures
        mouse == (pointer_type@ == "mouse"@),
{
    same_text(pointer_type, "mouse")
}

/// The state name of something that is open or closed.
pub fn get_open_state(open: bool) -> (state: &'static str)
    ensures
        state@ == if open {
            "open"@
        } else {
            "closed"@
        },
{
    if open {
        "open"
    } else {
        "closed"
    }
}

/// The search is one character typed again and again.
pub open spec fn is_repeated(search: Seq<char>) -> bool {
    search.len() > 1 && {
        let first = search[0];
        forall|i: int| 0 <= i < search.len() ==> #[trigger] search[i] == first
    }
}

/// The search as it is matched: a repeated character counts once.
pub open spec fn normalized_search(search: Seq<char>) -> Seq<char> {
    if is_repeated(search) {
        search.subrange(0, 1)
    } else {
        search
    }
}

/// The first index at or after `from` at which `values` holds `target`.
pub open spec fn index_from(values: Seq<String>, target: Seq<char>, from: int) -> Option<int>
    decreases values.len() - from,
{
    if from < 0 || from >= values.len() {
        None
    } else if values[from]@ == target {
        Some(from)
    } else {
        index_from(values, target, from + 1)
    }
}

/// Where the look-ahead starts: at the current match, or at the front.
pub open spec fn start_index(values: Seq<String>, current: Option<Seq<char>>) -> int {
    match current {
        Some(target) => match index_from(values, target, 0) {
            Some(index) => index,
            None => 0,
        },
        None => 0,
    }
}

/// The index in `values` of the item that stands at `position` once the last
/// `start` items have been moved to the front.
pub open spec fn wrapped_index(len: int, start: int, position: int) -> int {
    if position < start {
        len - start + position
    } else {
        position - start
    }
}

/// The values wrapped around at `start`: the last `start` of them first, then
/// the others, each group in order.
pub open spec fn wrapped(values: Seq<String>, start: int) -> Seq<String> {
    Seq::new(values.len(), |position: int| values[wrapped_index(values.len() as int, start, position)])
}

/// `text` begins with `prefix`.
pub open spec fn starts_with(text: Seq<char>, prefix: Seq<char>) -> bool {
    prefix.len() <= text.len() && text.subrange(0, prefix.len() as int) == prefix
}

/// The value can be the next match: it begins with the search, case set
/// aside, and it is not the current match when the search is one character.
pub open spec fn is_candidate(value: Seq<char>, search: Seq<char>, current: Option<Seq<char>>) -> bool {
    &&& search.len() == 1 ==> current != Some(value)
    &&& starts_with(lowercased(value), lowercased(search))
}

/// The first candidate at or after `from`.
pub open spec fn first_candidate(
    values: Seq<String>,
    from: int,
    search: Seq<char>,
    current: Option<Seq<char>>,
) -> Option<Seq<char>>
    decreases values.len() - from,
{
    if from < 0 || from >= values.len() {
        None
    } else if is_candidate(values[from]@, search, current) {
        Some(values[from]@)
    } else {
        first_candidate(values, from + 1, search, current)
    }
}

/// The item to move to: the first candidate among the values wrapped around
/// at the current match, unless that is the current match itself.
pub open spec fn next_match(values: Seq<String>, search: Seq<char>, current: Option<Seq<char>>) -> Option<
    Seq<char>,
> {
    let found = first_candidate(
        wrapped(values, start_index(values, current)),
        0,
        normalized_search(search),
        current,
    );
    if found == current {
        None
    } else {
        found
    }
}

fn has_repeated_character(search: &str) -> (repeated: bool)
    ensures
        repeated == is_repeated(search@),
{
    let len: usize = search.unicode_len();
    if len <= 1 {
        return false;
    }
    let first = search.get_char(0);
    let mut i: usize = 1;
    while i < len
        invariant
            len == search@.len(),
            1 <= i <= len,
            first == search@[0],
            forall|k: int| 0 <= k < i ==> #[trigger] search@[k] == first,
        decreases len - i,
    {
        if search.get_char(i) != first {
            return false;
        }
        i += 1;
    }
    true
}

/// Tells whether `text` begins with `prefix`.
pub fn text_starts_with(text: &str, prefix: &str) -> (starts: bool)
    ensures
        starts == starts_with(text@, prefix@),
{
    let text_len: usize = text.unicode_len();
    let prefix_len: usize = prefix.unicode_len();
    if prefix_len > text_len {
        return false;
    }
    let mut i: usize = 0;
    while i < prefix_len
        invariant
            text_len == text@.len(),
            prefix_len == prefix@.len(),
            prefix_len <= text_len,
            i <= prefix_len,
            forall|k: int| 0 <= k < i ==> text@[k] == prefix@[k],
        decreases prefix_len - i,
    {
        if text.get_char(i) != prefix.get_char(i) {
            assert(text@.subrange(0, prefix_len as int)[i as int] != prefix@[i as int]);
            return false;
        }
        i += 1;
    }
    assert(text@.subrange(0, prefix_len as int) =~= prefix@);
    true
}

fn position_of(values: &Vec<String>, target: &str) -> (index: Option<usize>)
    ensures
        match index {
            Some(found) => index_from(values@, target@, 0) == Some(found as int) && found
                < values@.len(),
            None => index_from(values@, target@, 0) is None,
        },
{
    let mut i: usize = 0;
    while i < values.len()
        invariant
            i <= values@.len(),
            index_from(values@, target@, 0) == index_from(values@, target@, i as int),
        decreases values@.len() - i,
    {
        if same_text(values[i].as_str(), target) {
            return Some(i);
        }
        i += 1;
    }
    None
}

fn is_current(value: &str, current: &Option<String>) -> (same: bool)
    ensures
        same == match *current {
            Some(target) => target@ == value@,
            None => false,
        },
{
    match current {
        Some(target) => same_text(target.as_str(), value),
        None => false,
    }
}

/// The current match as a mathematical value.
pub open spec fn current_text(current: Option<String>) -> Option<Seq<char>> {
    match current {
        Some(target) => Some(target@),
        None => None,
    }
}

/// Picks the item that a type-ahead search moves to. The values are looked
/// through from the current match on, wrapping around; a search of one
/// character, typed once or repeatedly, skips the current match, so that
/// typing it again walks through the items that begin with it. Nothing is
/// picked when no value begins with the search, or when the pick is the
/// current match.
pub fn get_next_match(values: &Vec<String>, search: &str, current_match: Option<String>) -> (picked:
    Option<String>)
    ensures
        current_text(picked) == next_match(values@, search@, current_text(current_match)),
{
    let is_repeated = has_repeated_character(search);
    let normalized: &str = if is_repeated {
        search.substring_char(0, 1)
    } else {
        search
    };
    let start: usize = match &current_match {
        Some(target) => match position_of(values, target.as_str()) {
            Some(index) => index,
            None => 0,
        },
        None => 0,
    };
    let exclude_current_match: bool = normalized.unicode_len() == 1;
    let lower_search = lowercase(normalized);
    let len: usize = values.len();
    let ghost wrapped_values = wrapped(values@, start as int);
    let ghost current = current_text(current_match);
    let mut position: usize = 0;
    while position < len
        invariant
            len == values@.len(),
            position <= len,
            start < len || start == 0,
            start as int == start_index(values@, current),
            wrapped_values == wrapped(values@, start as int),
            current == current_text(current_match),
            normalized@ == normalized_search(search@),
            exclude_current_match == (normalized@.len() == 1),
            lower_search@ == lowercased(normalized@),
            first_candidate(wrapped_values, 0, normalized@, current) == first_candidate(
                wrapped_values,
                position as int,
                normalized@,
                current,
            ),
        decreases len - position,
    {
        let index: usize = if position < start {
            len - start + position
        } else {
            position - start
        };
        assert(wrapped_values[position as int] == values@[index as int]);
        let value = &values[index];
        let excluded = exclude_current_match && is_current(value.as_str(), &current_match);
        if !excluded {
            let lower_value = lowercase(value.as_str());
            if text_starts_with(lower_value.as_str(), lower_search.as_str()) {
                assert(is_candidate(value@, normalized@, current));
                if is_current(value.as_str(), &current_match) {
                    return None;
                }
                return Some(value.clone());
            }
        }
        assert(!is_candidate(wrapped_values[position as int]@, normalized@, current));
        position += 1;
    }
    None
}

} // verus!

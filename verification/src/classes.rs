//! Class-name composition: values that may or may not contribute a class are
//! joined into one space-separated list, and then conflicting Tailwind classes
//! are merged so that the later one wins.

use vstd::prelude::*;
use vstd::string::*;
use crate::decimal::decimal_text;

verus! {

/// One argument of a class list.
#[derive(Clone, Debug)]
pub enum ClassValue {
    /// A class, or several separated by spaces; the empty text adds nothing.
    Text(String),
    /// A class that counts only when the flag is set.
    When(bool, String),
    /// A class that may be absent.
    Maybe(Option<String>),
    /// Classes in order.
    Many(Vec<String>),
    /// Classes in order, each with the flag that switches it on.
    Toggles(Vec<(String, bool)>),
    /// A number, written in decimal.
    Number(i64),
}

/// `out` with `class` added: nothing for the empty class, otherwise the class
/// after a single space, or alone when `out` is empty.
pub open spec fn joined(out: Seq<char>, class: Seq<char>) -> Seq<char> {
    if class.len() == 0 {
        out
    } else if out.len() == 0 {
        class
    } else {
        out + seq![' '] + class
    }
}

/// `out` after the first `upto` classes of `list` have been added in order.
pub open spec fn joined_many(out: Seq<char>, list: Seq<String>, upto: nat) -> Seq<char>
    decreases upto,
{
    if upto == 0 {
        out
    } else {
        joined(joined_many(out, list, (upto - 1) as nat), list[upto - 1]@)
    }
}

/// `out` after the first `upto` toggles have been added in order, each only if
/// switched on.
pub open spec fn joined_toggles(out: Seq<char>, pairs: Seq<(String, bool)>, upto: nat) -> Seq<
    char,
>
    decreases upto,
{
    if upto == 0 {
        out
    } else {
        let before = joined_toggles(out, pairs, (upto - 1) as nat);
        if pairs[upto - 1].1 {
            joined(before, pairs[upto - 1].0@)
        } else {
            before
        }
    }
}

/// `out` after one argument has been added.
pub open spec fn joined_value(out: Seq<char>, value: ClassValue) -> Seq<char> {
    match value {
        ClassValue::Text(class) => joined(out, class@),
        ClassValue::When(flag, class) => if flag {
            joined(out, class@)
        } else {
            out
        },
        ClassValue::Maybe(class) => match class {
            Some(class) => joined(out, class@),
            None => out,
        },
        ClassValue::Many(list) => joined_many(out, list@, list@.len()),
        ClassValue::Toggles(pairs) => joined_toggles(out, pairs@, pairs@.len()),
        ClassValue::Number(n) => joined(out, decimal_text(n as int)),
    }
}

/// The class list made of the first `upto` arguments.
pub open spec fn composed(values: Seq<ClassValue>, upto: nat) -> Seq<char>
    decreases upto,
{
    if upto == 0 {
        Seq::<char>::empty()
    } else {
        joined_value(composed(values, (upto - 1) as nat), values[upto - 1])
    }
}

/// Calls `clsx::ClsxArg::append_to` on a string slice: a non-empty class is
/// pushed onto `out`, after one space when `out` already holds something; an
/// empty class leaves `out` as it was.
#[verifier::external_body]
fn append_text(out: &mut String, class: &str)
    ensures
        final(out)@ == joined(old(out)@, class@),
{
    clsx::ClsxArg::append_to(&class, out);
}

/// Calls `clsx::ClsxArg::append_to` on a pair of a flag and a string slice:
/// the class is added as a plain one when the flag is set, and not at all
/// otherwise.
#[verifier::external_body]
fn append_when(out: &mut String, flag: bool, class: &str)
    ensures
        final(out)@ == if flag {
            joined(old(out)@, class@)
        } else {
            old(out)@
        },
{
    clsx::ClsxArg::append_to(&(flag, class), out);
}

/// Calls `clsx::ClsxArg::append_to` on an `i64`: the number is written in
/// decimal, as `Display` writes it, after one space when `out` already holds
/// something.
#[verifier::external_body]
fn append_number(out: &mut String, n: i64)
    ensures
        final(out)@ == joined(old(out)@, decimal_text(n as int)),
{
    clsx::ClsxArg::append_to(&n, out);
}

/// The class list that Tailwind merging makes of `classes`, with the default
/// options: no prefix, `:` as separator.
pub uninterp spec fn merged_classes(classes: Seq<char>) -> Seq<char>;

/// The text can be merged: it holds no backslash. Inside brackets the merge
/// skips the character after a backslash, and panics where there is none.
pub open spec fn mergeable(classes: Seq<char>) -> bool {
    !classes.contains('\\')
}

/// Calls `tailwind_fuse::merge::tw_merge_options` with the crate's default
/// options written out, so that the result depends on the text alone and not
/// on options set elsewhere in the process. The merge splits its input on
/// white space itself; what it keeps of conflicting classes is named, not
/// described. Texts with a backslash are left out: the call panics on a
/// bracketed class that ends in one.
#[verifier::external_body]
fn tw_merge(classes: &str) -> (merged: String)
    requires
        mergeable(classes@),
    ensures
        merged@ == merged_classes(classes@),
{
    tailwind_fuse::merge::tw_merge_options(
        classes,
        tailwind_fuse::merge::MergeOptions { prefix: "", separator: ":" },
    )
}

/// Tells whether a class list can be merged.
pub fn is_mergeable(classes: &str) -> (ok: bool)
    ensures
        ok == mergeable(classes@),
{
    let len: usize = classes.unicode_len();
    let mut i: usize = 0;
    while i < len
        invariant
            len == classes@.len(),
            i <= len,
            forall|k: int| 0 <= k < i ==> classes@[k] != '\\',
        decreases len - i,
    {
        if classes.get_char(i) == '\\' {
            return false;
        }
        i += 1;
    }
    true
}

fn append_many(out: &mut String, list: &Vec<String>)
    ensures
        final(out)@ == joined_many(old(out)@, list@, list@.len()),
{
    let mut i: usize = 0;
    while i < list.len()
        invariant
            i <= list@.len(),
            out@ == joined_many(old(out)@, list@, i as nat),
        decreases list@.len() - i,
    {
        append_text(out, list[i].as_str());
        i += 1;
    }
}

fn append_toggles(out: &mut String, pairs: &Vec<(String, bool)>)
    ensures
        final(out)@ == joined_toggles(old(out)@, pairs@, pairs@.len()),
{
    let mut i: usize = 0;
    while i < pairs.len()
        invariant
            i <= pairs@.len(),
            out@ == joined_toggles(old(out)@, pairs@, i as nat),
        decreases pairs@.len() - i,
    {
        append_when(out, pairs[i].1, pairs[i].0.as_str());
        i += 1;
    }
}

/// Adds one argument to a class list.
pub fn append_value(out: &mut String, value: &ClassValue)
    ensures
        final(out)@ == joined_value(old(out)@, *value),
{
    match value {
        ClassValue::Text(class) => append_text(out, class.as_str()),
        ClassValue::When(flag, class) => append_when(out, *flag, class.as_str()),
        ClassValue::Maybe(class) => match class {
            Some(class) => append_text(out, class.as_str()),
            None => {},
        },
        ClassValue::Many(list) => append_many(out, list),
        ClassValue::Toggles(pairs) => append_toggles(out, pairs),
        ClassValue::Number(n) => append_number(out, *n),
    }
}

/// Joins the arguments, in order, into one space-separated class list.
pub fn compose_classes(values: &Vec<ClassValue>) -> (classes: String)
    ensures
        classes@ == composed(values@, values@.len()),
{
    let mut classes = String::new();
    let mut i: usize = 0;
    while i < values.len()
        invariant
            i <= values@.len(),
            classes@ == composed(values@, i as nat),
        decreases values@.len() - i,
    {
        append_value(&mut classes, &values[i]);
        i += 1;
    }
    classes
}

/// Joins the arguments into one class list and merges conflicting Tailwind
/// classes in it, the later class winning.
pub fn cn(values: &Vec<ClassValue>) -> (classes: String)
    requires
        mergeable(composed(values@, values@.len())),
    ensures
        classes@ == merged_classes(composed(values@, values@.len())),
{
    let composed = compose_classes(values);
    tw_merge(composed.as_str())
}

/// Joins and merges as `cn` does, for any arguments: a class list that cannot
/// be merged gives `None`.
pub fn try_cn(values: &Vec<ClassValue>) -> (classes: Option<String>)
    ensures
        classes is Some <==> mergeable(composed(values@, values@.len())),
        classes matches Some(merged) ==> merged@ == merged_classes(
            composed(values@, values@.len()),
        ),
{
    let composed = compose_classes(values);
    if is_mergeable(composed.as_str()) {
        Some(tw_merge(composed.as_str()))
    } else {
        None
    }
}

} // verus!

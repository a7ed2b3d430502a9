//! Identifiers for elements: the caller's own, or the next of a numbered
//! sequence.

use vstd::prelude::*;
use vstd::string::*;
use crate::decimal::decimal_text;

verus! {

/// The prefix of numbered identifiers when no other is chosen.
pub const DEFAULT_PREFIX: &'static str = "radix";

/// A source of numbered identifiers, owned by whoever creates components.
pub struct IdSequence {
    prefix: String,
    next: usize,
}

/// A sequence as a mathematical value.
pub struct IdSequenceModel {
    pub prefix: Seq<char>,
    pub next: nat,
}

impl View for IdSequence {
    type V = IdSequenceModel;

    closed spec fn view(&self) -> IdSequenceModel {
        IdSequenceModel { prefix: self.prefix@, next: self.next as nat }
    }
}

/// The identifier with the given prefix and number: the two joined by a
/// hyphen.
pub open spec fn numbered_id(prefix: Seq<char>, number: nat) -> Seq<char> {
    prefix + seq!['-'] + decimal_text(number as int)
}

/// The number after `number`; the count starts again at zero after the
/// largest one.
pub open spec fn number_after(number: nat) -> nat {
    if number == usize::MAX {
        0
    } else {
        number + 1
    }
}

/// Formats the prefix, a hyphen and the number, with `format!`; `Display`
/// writes the number in decimal.
#[verifier::external_body]
fn format_id(prefix: &str, number: usize) -> (id: String)
    ensures
        id@ == numbered_id(prefix@, number as nat),
{
    format!("{}-{}", prefix, number)
}

impl IdSequence {
    /// A sequence that starts at zero with the default prefix.
    pub fn new() -> (ids: IdSequence)
        ensures
            ids@.prefix == DEFAULT_PREFIX@,
            ids@.next == 0,
    {
        IdSequence { prefix: DEFAULT_PREFIX.to_owned(), next: 0 }
    }

    /// A sequence that starts at zero with a prefix of the caller's.
    pub fn with_prefix(prefix: String) -> (ids: IdSequence)
        ensures
            ids@.prefix == prefix@,
            ids@.next == 0,
    {
        IdSequence { prefix, next: 0 }
    }

    /// Hands out the next numbered identifier.
    pub fn next_id(&mut self) -> (id: String)
        ensures
            id@ == numbered_id(old(self)@.prefix, old(self)@.next),
            final(self)@.prefix == old(self)@.prefix,
            final(self)@.next == number_after(old(self)@.next),
    {
        let id = format_id(self.prefix.as_str(), self.next);
        self.next = self.next.wrapping_add(1);
        id
    }
}

/// Gives an element its identifier: the predefined one where there is one,
/// and otherwise the next of the sequence, which only then moves on.
pub fn use_id_with_deterministic_id(ids: &mut IdSequence, deterministic_id: Option<String>) -> (id:
    String)
    ensures
        match deterministic_id {
            Some(chosen) => id@ == chosen@ && final(ids)@ == old(ids)@,
            None => {
                &&& id@ == numbered_id(old(ids)@.prefix, old(ids)@.next)
                &&& final(ids)@.prefix == old(ids)@.prefix
                &&& final(ids)@.next == number_after(old(ids)@.next)
            },
        },
{
    match deterministic_id {
        Some(chosen) => chosen,
        None => ids.next_id(),
    }
}

/// Gives an element the next identifier of the sequence.
pub fn use_id(ids: &mut IdSequence) -> (id: String)
    ensures
        id@ == numbered_id(old(ids)@.prefix, old(ids)@.next),
        final(ids)@.prefix == old(ids)@.prefix,
        final(ids)@.next == number_after(old(ids)@.next),
{
    use_id_with_deterministic_id(ids, None)
}

} // verus!

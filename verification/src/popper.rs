//! How a floating element is aligned to its anchor.

use vstd::prelude::*;
use vstd::std_specs::convert::FromSpecImpl;

verus! {

/// Where along the anchor's side the floating element sits.
#[derive(Clone, Copy, Debug, PartialEq, Eq, Hash, Structural)]
pub enum Align {
    Start,
    Center,
    End,
}

/// An alignment as a placement carries it: a placement without one is centred.
#[derive(Clone, Copy, Debug, PartialEq, Eq, Hash, Structural)]
pub enum Alignment {
    Start,
    End,
}

/// Whether the floating element stays attached when the anchor scrolls away.
#[derive(Clone, Copy, Debug, PartialEq, Eq, Hash, Structural)]
pub enum Sticky {
    Partial,
    Always,
}

/// When the position is computed again.
#[derive(Clone, Copy, Debug, PartialEq, Eq, Hash, Structural)]
pub enum UpdatePositionStrategy {
    Optimized,
    Always,
}

impl Align {
    /// The alignment to put into a placement.
    pub open spec fn alignment_spec(self) -> Option<Alignment> {
        match self {
            Align::Start => Some(Alignment::Start),
            Align::Center => None,
            Align::End => Some(Alignment::End),
        }
    }

    /// The offset of the transform origin along the side when no arrow is
    /// shown.
    pub open spec fn origin_spec(self) -> Seq<char> {
        match self {
            Align::Start => "0%"@,
            Align::Center => "50%"@,
            Align::End => "100%"@,
        }
    }

    /// The alignment that a placement's alignment stands for.
    pub open spec fn of(alignment: Option<Alignment>) -> Align {
        match alignment {
            Some(Alignment::Start) => Align::Start,
            Some(Alignment::End) => Align::End,
            None => Align::Center,
        }
    }

    pub fn alignment(self) -> (alignment: Option<Alignment>)
        ensures
            alignment == self.alignment_spec(),
    {
        match self {
            Align::Start => Some(Alignment::Start),
            Align::Center => None,
            Align::End => Some(Alignment::End),
        }
    }

    /// The offset of the transform origin along the side when no arrow is
    /// shown.
    pub fn origin(self) -> (offset: &'static str)
        ensures
            offset@ == self.origin_spec(),
    {
        match self {
            Align::Start => "0%",
            Align::Center => "50%",
            Align::End => "100%",
        }
    }
}

impl From<Option<Alignment>> for Align {
    fn from(value: Option<Alignment>) -> (align: Align) {
        match value {
            Some(Alignment::Start) => Align::Start,
            Some(Alignment::End) => Align::End,
            None => Align::Center,
        }
    }
}

impl FromSpecImpl<Option<Alignment>> for Align {
    open spec fn obeys_from_spec() -> bool {
        true
    }

    open spec fn from_spec(value: Option<Alignment>) -> Align {
        Align::of(value)
    }
}

/// Reading an alignment back from a placement gives the alignment that was
/// put in.
pub proof fn lemma_alignment_round_trip(align: Align, alignment: Option<Alignment>)
    ensures
        Align::of(align.alignment_spec()) == align,
        Align::of(alignment).alignment_spec() == alignment,
{
}

} // verus!

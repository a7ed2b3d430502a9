//! The orientation of a separator and what follows from it.

use vstd::prelude::*;
use vstd::string::*;
use crate::text::{lowercase, lowercased, same_text};

verus! {

#[derive(Clone, Copy, Debug, PartialEq, Eq, Structural)]
pub enum SeparatorOrientation {
    Horizontal,
    Vertical,
}

impl Default for SeparatorOrientation {
    fn default() -> (orientation: SeparatorOrientation)
        ensures
            orientation == SeparatorOrientation::Horizontal,
    {
        SeparatorOrientation::Horizontal
    }
}

impl SeparatorOrientation {
    /// The orientation's name.
    pub open spec fn name(self) -> Seq<char> {
        match self {
            SeparatorOrientation::Horizontal => "horizontal"@,
            SeparatorOrientation::Vertical => "vertical"@,
        }
    }

    /// The orientation that a name stands for: vertical for `vertical` in any
    /// case, horizontal for everything else.
    pub open spec fn named(lower: Seq<char>) -> SeparatorOrientation {
        if lower == "vertical"@ {
            SeparatorOrientation::Vertical
        } else {
            SeparatorOrientation::Horizontal
        }
    }

    pub fn as_str(&self) -> (name: &'static str)
        ensures
            name@ == self.name(),
    {
        match self {
            SeparatorOrientation::Horizontal => "horizontal",
            SeparatorOrientation::Vertical => "vertical",
        }
    }

    pub fn to_string(&self) -> (name: String)
        ensures
            name@ == self.name(),
    {
        self.as_str().to_owned()
    }

    /// Reads an orientation from a name already in lower case.
    pub fn from_lowercase(lower: &str) -> (orientation: SeparatorOrientation)
        ensures
            orientation == Self::named(lower@),
    {
        if same_text(lower, "vertical") {
            SeparatorOrientation::Vertical
        } else {
            SeparatorOrientation::Horizontal
        }
    }

    /// Reads an orientation from a name, whatever its case.
    pub fn from_name(name: &str) -> (orientation: SeparatorOrientation)
        ensures
            orientation == Self::named(lowercased(name@)),
    {
        let lower = lowercase(name);
        Self::from_lowercase(lower.as_str())
    }
}

/// The role of a separator: none while it is decorative, which it is unless
/// said otherwise.
pub fn separator_role(decorative: Option<bool>) -> (role: &'static str)
    ensures
        role@ == if decorative == Some(false) {
            "separator"@
        } else {
            "none"@
        },
{
    let decorative = match decorative {
        Some(flag) => flag,
        None => true,
    };
    if decorative {
        "none"
    } else {
        "separator"
    }
}

} // verus!

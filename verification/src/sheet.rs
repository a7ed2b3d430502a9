//! The side from which a sheet slides in.

use vstd::prelude::*;
use vstd::string::*;
use crate::text::{lowercase, lowercased, same_text};

verus! {

#[derive(Clone, Copy, Debug, PartialEq, Eq, Hash, Structural)]
pub enum SheetSide {
    Top,
    Bottom,
    Left,
    Right,
}

impl Default for SheetSide {
    fn default() -> (side: SheetSide)
        ensures
            side == SheetSide::Right,
    {
        SheetSide::Right
    }
}

/// The classes that every sheet carries.
pub const BASE_SHEET_CLASSES: &'static str =
    "fixed z-50 gap-4 bg-background p-6 shadow-lg transition ease-in-out data-[state=closed]:duration-300 data-[state=open]:duration-500 data-[state=open]:animate-in data-[state=closed]:animate-out";

impl SheetSide {
    /// The side's name.
    pub open spec fn name(self) -> Seq<char> {
        match self {
            SheetSide::Top => "top"@,
            SheetSide::Bottom => "bottom"@,
            SheetSide::Left => "left"@,
            SheetSide::Right => "right"@,
        }
    }

    /// The side that a lower-case name stands for, if any.
    pub open spec fn named(lower: Seq<char>) -> Option<SheetSide> {
        if lower == "top"@ {
            Some(SheetSide::Top)
        } else if lower == "bottom"@ {
            Some(SheetSide::Bottom)
        } else if lower == "left"@ {
            Some(SheetSide::Left)
        } else if lower == "right"@ {
            Some(SheetSide::Right)
        } else {
            None
        }
    }

    /// What is said of a name that stands for no side.
    pub open spec fn refusal(name: Seq<char>) -> Seq<char> {
        "Invalid sheet side: "@ + name
    }

    /// The classes that place a sheet at its side and slide it in and out.
    pub open spec fn classes(self) -> Seq<char> {
        match self {
            SheetSide::Top => "inset-x-0 top-0 border-b data-[state=closed]:slide-out-to-top data-[state=open]:slide-in-from-top"@,
            SheetSide::Bottom => "inset-x-0 bottom-0 border-t data-[state=closed]:slide-out-to-bottom data-[state=open]:slide-in-from-bottom"@,
            SheetSide::Left => "inset-y-0 left-0 h-full w-3/4 border-r data-[state=closed]:slide-out-to-left data-[state=open]:slide-in-from-left sm:max-w-sm"@,
            SheetSide::Right => "inset-y-0 right-0 h-full w-3/4 border-l data-[state=closed]:slide-out-to-right data-[state=open]:slide-in-from-right sm:max-w-sm"@,
        }
    }

    pub fn as_str(&self) -> (name: &'static str)
        ensures
            name@ == self.name(),
    {
        match self {
            SheetSide::Top => "top",
            SheetSide::Bottom => "bottom",
            SheetSide::Left => "left",
            SheetSide::Right => "right",
        }
    }

    pub fn to_string(&self) -> (name: String)
        ensures
            name@ == self.name(),
    {
        self.as_str().to_owned()
    }

    /// Reads a side from a name already in lower case.
    pub fn from_lowercase(lower: &str) -> (side: Option<SheetSide>)
        ensures
            side == Self::named(lower@),
    {
        if same_text(lower, "top") {
            Some(SheetSide::Top)
        } else if same_text(lower, "bottom") {
            Some(SheetSide::Bottom)
        } else if same_text(lower, "left") {
            Some(SheetSide::Left)
        } else if same_text(lower, "right") {
            Some(SheetSide::Right)
        } else {
            None
        }
    }

    /// Reads a side from its name, whatever its case; any other text is
    /// refused, with the text in the message.
    pub fn from_str(s: &str) -> (result: Result<SheetSide, String>)
        ensures
            match result {
                Ok(side) => Self::named(lowercased(s@)) == Some(side),
                Err(message) => Self::named(lowercased(s@)) is None && message@ == Self::refusal(
                    s@,
                ),
            },
    {
        let lower = lowercase(s);
        match Self::from_lowercase(lower.as_str()) {
            Some(side) => Ok(side),
            None => {
                let mut message = String::from_str("Invalid sheet side: ");
                message.append(s);
                Err(message)
            },
        }
    }
}

/// The classes that place a sheet at its side.
pub fn get_side_classes(side: &SheetSide) -> (classes: &'static str)
    ensures
        classes@ == side.classes(),
{
    match side {
        SheetSide::Top => "inset-x-0 top-0 border-b data-[state=closed]:slide-out-to-top data-[state=open]:slide-in-from-top",
        SheetSide::Bottom => "inset-x-0 bottom-0 border-t data-[state=closed]:slide-out-to-bottom data-[state=open]:slide-in-from-bottom",
        SheetSide::Left => "inset-y-0 left-0 h-full w-3/4 border-r data-[state=closed]:slide-out-to-left data-[state=open]:slide-in-from-left sm:max-w-sm",
        SheetSide::Right => "inset-y-0 right-0 h-full w-3/4 border-l data-[state=closed]:slide-out-to-right data-[state=open]:slide-in-from-right sm:max-w-sm",
    }
}

} // verus!

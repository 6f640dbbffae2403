//! The failures that the library itself reports.

use vstd::prelude::*;

verus! {

/// A field that a single label cannot do without.
#[derive(Clone, Copy, Debug, PartialEq, Eq, Structural)]
pub enum Field {
    Title,
    Artist,
    Cover,
}

/// Why no label could be produced.
#[derive(Clone, Copy, Debug, PartialEq, Eq, Structural)]
pub enum LabelError {
    /// A required field of a single label is absent or empty.
    MissingField(Field),
    /// The font data is not a font.
    FontLoad,
}

impl Field {
    /// The name of the field as the user knows it.
    pub fn name(&self) -> (s: &'static str)
        ensures
            s@ == match *self {
                Field::Title => "title"@,
                Field::Artist => "artist"@,
                Field::Cover => "cover"@,
            },
    {
        match self {
            Field::Title => "title",
            Field::Artist => "artist",
            Field::Cover => "cover",
        }
    }
}

} // verus!

//! How a view lays out and aligns what it shows, and the words by which a
//! style sheet names each choice.

use vstd::prelude::*;
use vstd::std_specs::convert::FromSpecImpl;

verus! {

/// The direction in which a pane lines up its children.
#[derive(Debug, Clone, Copy, PartialEq, Eq, Hash)]
pub enum Orientation {
    Vertical,
    Horizontal,
}

/// Where a pane puts its children along one axis.
#[derive(Debug, Clone, Copy, PartialEq, Eq, Hash)]
pub enum Alignment {
    Start,
    Center,
    End,
}

/// How a span sets its text.
#[derive(Debug, Clone, Copy, PartialEq, Eq, Hash)]
pub enum TextAlignment {
    Left,
    Center,
    Right,
    Justified,
}

impl Orientation {
    /// The word for the orientation as a flex direction.
    pub open spec fn spec_to_str(self) -> Seq<char> {
        match self {
            Orientation::Horizontal => "row"@,
            Orientation::Vertical => "column"@,
        }
    }

    /// The word for the orientation as a flex direction.
    pub fn to_str(self) -> (word: &'static str)
        ensures
            word@ == self.spec_to_str(),
    {
        match self {
            Orientation::Horizontal => "row",
            Orientation::Vertical => "column",
        }
    }
}

impl Alignment {
    /// The word for the alignment of flex items.
    pub open spec fn spec_to_str(self) -> Seq<char> {
        match self {
            Alignment::Start => "flex-start"@,
            Alignment::Center => "center"@,
            Alignment::End => "flex-end"@,
        }
    }

    /// The word for the alignment of flex items.
    pub fn to_str(self) -> (word: &'static str)
        ensures
            word@ == self.spec_to_str(),
    {
        match self {
            Alignment::Start => "flex-start",
            Alignment::Center => "center",
            Alignment::End => "flex-end",
        }
    }
}

impl TextAlignment {
    /// The word for the alignment of text.
    pub open spec fn spec_to_str(self) -> Seq<char> {
        match self {
            TextAlignment::Left => "left"@,
            TextAlignment::Center => "center"@,
            TextAlignment::Right => "right"@,
            TextAlignment::Justified => "justify"@,
        }
    }

    /// The word for the alignment of text.
    pub fn to_str(self) -> (word: &'static str)
        ensures
            word@ == self.spec_to_str(),
    {
        match self {
            TextAlignment::Left => "left",
            TextAlignment::Center => "center",
            TextAlignment::Right => "right",
            TextAlignment::Justified => "justify",
        }
    }
}

impl Default for Alignment {
    /// Children sit in the middle unless told otherwise.
    fn default() -> (alignment: Alignment)
        ensures
            alignment == Alignment::Center,
    {
        Alignment::Center
    }
}

impl Default for TextAlignment {
    /// Text is centred unless told otherwise.
    fn default() -> (alignment: TextAlignment)
        ensures
            alignment == TextAlignment::Center,
    {
        TextAlignment::Center
    }
}

impl From<Alignment> for TextAlignment {
    /// Text is set towards the side at which `value` puts children.
    fn from(value: Alignment) -> (alignment: TextAlignment) {
        match value {
            Alignment::Start => TextAlignment::Left,
            Alignment::Center => TextAlignment::Center,
            Alignment::End => TextAlignment::Right,
        }
    }
}

impl FromSpecImpl<Alignment> for TextAlignment {
    open spec fn obeys_from_spec() -> bool {
        true
    }

    open spec fn from_spec(value: Alignment) -> TextAlignment {
        match value {
            Alignment::Start => TextAlignment::Left,
            Alignment::Center => TextAlignment::Center,
            Alignment::End => TextAlignment::Right,
        }
    }
}

} // verus!

//! The enumerated settings of a split, and the tokens by which the split
//! engine knows them.

use vstd::prelude::*;

verus! {

/// Where a gutter sits between the two panes it divides.
#[derive(Clone, Copy, Debug, PartialEq, Eq, Structural)]
pub enum GutterAlign {
    Start,
    End,
    Center,
}

/// The axis along which the panes are laid out.
#[derive(Clone, Copy, Debug, PartialEq, Eq, Structural)]
pub enum Direction {
    Vertical,
    Horizontal,
}

/// The pointer shown while a gutter is dragged.
#[derive(Clone, Copy, Debug, PartialEq, Eq, Structural)]
pub enum Cursor {
    ColResize,
    RowResize,
}

impl GutterAlign {
    /// The engine's token for the alignment.
    pub open spec fn token(self) -> Seq<char> {
        match self {
            GutterAlign::Start => "start"@,
            GutterAlign::End => "end"@,
            GutterAlign::Center => "center"@,
        }
    }

    /// The alignment as the engine spells it: `start`, `end` or `center`.
    pub fn to_string(&self) -> (s: String)
        ensures
            s@ == self.token(),
    {
        match self {
            GutterAlign::Start => "start".to_owned(),
            GutterAlign::End => "end".to_owned(),
            GutterAlign::Center => "center".to_owned(),
        }
    }
}

impl Direction {
    /// The engine's token for the direction.
    pub open spec fn token(self) -> Seq<char> {
        match self {
            Direction::Vertical => "vertical"@,
            Direction::Horizontal => "horizontal"@,
        }
    }

    /// The direction as the engine spells it: `vertical` or `horizontal`.
    pub fn to_string(&self) -> (s: String)
        ensures
            s@ == self.token(),
    {
        match self {
            Direction::Vertical => "vertical".to_owned(),
            Direction::Horizontal => "horizontal".to_owned(),
        }
    }
}

impl Cursor {
    /// The engine's token for the cursor.
    pub open spec fn token(self) -> Seq<char> {
        match self {
            Cursor::ColResize => "col-resize"@,
            Cursor::RowResize => "row-resize"@,
        }
    }

    /// The cursor as the engine spells it: `col-resize` or `row-resize`.
    pub fn to_string(&self) -> (s: String)
        ensures
            s@ == self.token(),
    {
        match self {
            Cursor::ColResize => "col-resize".to_owned(),
            Cursor::RowResize => "row-resize".to_owned(),
        }
    }
}

} // verus!

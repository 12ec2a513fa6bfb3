use vstd::prelude::*;

verus! {

/// A foreground or background color.
#[derive(Debug, Eq, PartialEq, Structural, Copy, Clone)]
pub enum Color {
    /// The renderer's default color for this role.
    Default,
    /// An entry of the 256-color palette.
    Indexed(u8),
}

/// The graphic rendition applied to newly written cells.
#[derive(Debug, Eq, PartialEq, Structural, Copy, Clone)]
pub struct Pen {
    pub fg: Color,
    pub bg: Color,
    pub bold: bool,
    pub italic: bool,
    pub underline: bool,
    pub inverse: bool,
    pub strikeout: bool,
}

/// One grid position: a character and the rendition it was written with.
#[derive(Debug, Eq, PartialEq, Structural, Copy, Clone)]
pub struct Cell {
    pub c: char,
    pub pen: Pen,
}

pub open spec fn default_pen() -> Pen {
    Pen {
        fg: Color::Default,
        bg: Color::Default,
        bold: false,
        italic: false,
        underline: false,
        inverse: false,
        strikeout: false,
    }
}

pub open spec fn blank_cell() -> Cell {
    Cell { c: ' ', pen: default_pen() }
}

impl Pen {
    /// The rendition after a reset: default colors, no attributes.
    pub fn plain() -> (r: Pen)
        ensures
            r == default_pen(),
    {
        Pen {
            fg: Color::Default,
            bg: Color::Default,
            bold: false,
            italic: false,
            underline: false,
            inverse: false,
            strikeout: false,
        }
    }
}

impl Cell {
    /// An empty cell: a space in the default rendition.
    pub fn blank() -> (r: Cell)
        ensures
            r == blank_cell(),
    {
        Cell { c: ' ', pen: Pen::plain() }
    }

    pub fn is_blank(&self) -> (r: bool)
        ensures
            r == (*self == blank_cell()),
    {
        self.c == ' ' && self.pen == Pen::plain()
    }
}

} // verus!

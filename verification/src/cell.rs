//! One character position of the grid, with its own color, attribute and
//! protection state.

use vstd::prelude::*;

use crate::color::Attribute;
use crate::color::Color;

verus! {

/// A single grid cell. Owned exclusively by the row that contains it and
/// mutated in place by the erase engine and the control dispatcher.
#[derive(Debug)]
pub struct Cell {
    /// The character shown in this cell.
    pub c: char,
    /// Foreground color the character was printed with.
    pub fg: Color,
    /// Background color the character was printed with.
    pub bg: Color,
    /// Graphic attributes the character was printed with.
    pub attr: Attribute,
    /// Optional opaque image payload attached to the cell.
    pub sixel_data: Option<Vec<u8>>,
    /// Whether a selective erase may clear this cell; a protected cell has
    /// `erasable == false`.
    pub erasable: bool,
    /// Whether the cell changed since the renderer last consumed it.
    pub dirty: bool,
}

impl Cell {
    /// A cell is well formed when both of its colors are.
    pub open spec fn wf(self) -> bool {
        self.fg.wf() && self.bg.wf()
    }

    /// The cell a fresh grid position holds: a space in default colors.
    pub open spec fn blank_spec() -> Cell {
        Cell {
            c: ' ',
            fg: Color::default_fg(),
            bg: Color::default_bg(),
            attr: Attribute::normal_spec(),
            sixel_data: None,
            erasable: true,
            dirty: false,
        }
    }

    /// Builds a blank cell.
    pub fn blank() -> (r: Cell)
        ensures
            r == Cell::blank_spec(),
    {
        Cell {
            c: ' ',
            fg: Color::BasePalette(7),
            bg: Color::BasePalette(0),
            attr: Attribute::normal(),
            sixel_data: None,
            erasable: true,
            dirty: false,
        }
    }

    /// What erasing a cell leaves behind: a dirty space in default colors,
    /// with the protection flag and image payload untouched.
    pub open spec fn erased_spec(self) -> Cell {
        Cell {
            c: ' ',
            fg: Color::default_fg(),
            bg: Color::default_bg(),
            attr: Attribute::normal_spec(),
            sixel_data: self.sixel_data,
            erasable: self.erasable,
            dirty: true,
        }
    }
}

} // verus!

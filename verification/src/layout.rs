//! The shape of the task grid, the directions the selection moves in, and
//! the colours of the interface.

use vstd::prelude::*;

verus! {

/// A direction on the grid.
#[allow(non_camel_case_types)]
#[derive(Debug, PartialEq, Eq, Structural, Clone, Copy)]
pub enum Direction {
    UP,
    DOWN,
    LEFT,
    RIGHT,
}

/// The colours of the interface.
#[allow(non_camel_case_types)]
#[derive(Debug, PartialEq, Eq, Structural, Clone, Copy)]
pub enum Palette {
    FG,
    BG,
    BG2,
    GREEN,
    GREEN2,
    RED,
    YELLOW,
    YELLOW2,
    CURSOR,
}

impl Palette {
    /// The colour as red, green and blue, eight bits each.
    pub open spec fn rgb_value(self) -> u32 {
        match self {
            Palette::FG => 0x005c6166u32,
            Palette::BG => 0x00fafafau32,
            Palette::BG2 => 0x00f0f0f0u32,
            Palette::GREEN => 0x00e3f2c4u32,
            Palette::GREEN2 => 0x00c7dba0u32,
            Palette::RED => 0x00f7bbc0u32,
            Palette::YELLOW => 0x00fae4c4u32,
            Palette::YELLOW2 => 0x00ddcda6u32,
            Palette::CURSOR => 0x00ff6900u32,
        }
    }

    /// The colour as red, green and blue, eight bits each.
    pub fn rgb(self) -> (r: u32)
        ensures
            r == self.rgb_value(),
            r <= 0x00ffffff,
    {
        match self {
            Palette::FG => 0x005c6166u32,
            Palette::BG => 0x00fafafau32,
            Palette::BG2 => 0x00f0f0f0u32,
            Palette::GREEN => 0x00e3f2c4u32,
            Palette::GREEN2 => 0x00c7dba0u32,
            Palette::RED => 0x00f7bbc0u32,
            Palette::YELLOW => 0x00fae4c4u32,
            Palette::YELLOW2 => 0x00ddcda6u32,
            Palette::CURSOR => 0x00ff6900u32,
        }
    }
}

/// How many tasks a page of the grid shows: `width` columns of `height`
/// rows, at least one of each.
#[derive(Debug, Clone, Copy)]
pub struct GridShape {
    columns: usize,
    rows: usize,
    cells: usize,
}

impl GridShape {
    #[verifier::type_invariant]
    closed spec fn inv(&self) -> bool {
        self.columns >= 1 && self.rows >= 1 && self.cells == self.columns * self.rows
    }

    /// The number of columns.
    pub closed spec fn width(&self) -> int {
        self.columns as int
    }

    /// The number of rows.
    pub closed spec fn height(&self) -> int {
        self.rows as int
    }

    /// The number of tasks on a page.
    pub open spec fn size(&self) -> int {
        self.width() * self.height()
    }

    /// A shape has at least one column and one row, and its page size is a
    /// machine integer.
    pub open spec fn valid(&self) -> bool {
        self.width() >= 1 && self.height() >= 1 && self.size() <= usize::MAX
    }

    /// The grid of `width` columns and `height` rows, where both are at
    /// least one and a page of that size can be counted.
    pub fn new(width: usize, height: usize) -> (r: Option<GridShape>)
        ensures
            r is Some == (width >= 1 && height >= 1 && width * height <= usize::MAX),
            r matches Some(s) ==> s.width() == width && s.height() == height && s.valid(),
    {
        if width == 0 || height == 0 {
            return None;
        }
        match width.checked_mul(height) {
            Some(cells) => Some(GridShape { columns: width, rows: height, cells }),
            None => None,
        }
    }

    /// The number of columns.
    pub fn columns(&self) -> (r: usize)
        ensures
            r == self.width(),
            self.valid(),
    {
        proof {
            use_type_invariant(self);
        }
        self.columns
    }

    /// The number of rows.
    pub fn rows(&self) -> (r: usize)
        ensures
            r == self.height(),
            self.valid(),
    {
        proof {
            use_type_invariant(self);
        }
        self.rows
    }

    /// The number of tasks on a page.
    pub fn page_size(&self) -> (r: usize)
        ensures
            r == self.size(),
            r >= 1,
            self.valid(),
    {
        proof {
            use_type_invariant(self);
            assert(self.columns * self.rows >= 1) by (nonlinear_arith)
                requires
                    self.columns >= 1,
                    self.rows >= 1,
            ;
        }
        self.cells
    }
}

impl Default for GridShape {
    /// Three columns of three rows.
    fn default() -> (r: GridShape)
        ensures
            r.width() == 3,
            r.height() == 3,
            r.valid(),
    {
        GridShape { columns: 3, rows: 3, cells: 9 }
    }
}

/// A rectangle of the screen, in cells.
#[derive(Debug, PartialEq, Eq, Structural, Clone, Copy)]
pub struct Area {
    pub x: u16,
    pub y: u16,
    pub width: u16,
    pub height: u16,
}

/// The `amount` taken off `from`, not below zero.
pub open spec fn minus(from: int, amount: int) -> int {
    if from >= amount {
        from - amount
    } else {
        0
    }
}

/// Where the editor pops up over an area of the given size: in the middle
/// third of a wide screen, 70 cells wide in the middle of a narrow one, and
/// half as high as the area.
pub open spec fn editor_area(width: u16, height: u16) -> Area {
    if width < 180 {
        Area {
            x: minus(width as int / 2, 35) as u16,
            y: (height / 3) as u16,
            width: 70,
            height: (height / 2) as u16,
        }
    } else {
        Area {
            x: (width as int / 3 - 5) as u16,
            y: (height / 3) as u16,
            width: (width as int / 3 + 10) as u16,
            height: (height / 2) as u16,
        }
    }
}

/// Where the editor pops up over an area of the given size.
pub fn calculate_editor_area(width: u16, height: u16) -> (r: Area)
    ensures
        r == editor_area(width, height),
{
    if width < 180 {
        Area { x: (width / 2).saturating_sub(35), y: height / 3, width: 70, height: height / 2 }
    } else {
        Area { x: width / 3 - 5, y: height / 3, width: width / 3 + 10, height: height / 2 }
    }
}

/// Where the debug message pops up over an area of the given size: a sixth
/// of the area, towards its lower right corner.
pub open spec fn debug_area(width: u16, height: u16) -> Area {
    Area {
        x: ((width / 8) * 6) as u16,
        y: ((height / 6) * 5) as u16,
        width: (width / 6) as u16,
        height: (height / 6) as u16,
    }
}

/// Where the debug message pops up over an area of the given size.
pub fn calculate_debug_area(width: u16, height: u16) -> (r: Area)
    ensures
        r == debug_area(width, height),
{
    Area { x: (width / 8) * 6, y: (height / 6) * 5, width: width / 6, height: height / 6 }
}

} // verus!

//! Areas of the terminal.

use vstd::prelude::*;

verus! {

/// A rectangle of terminal cells: its top left cell, and how many columns and rows it has.
#[derive(Clone, Copy, PartialEq, Eq, Structural, Debug)]
pub struct Rect {
    pub x: u16,
    pub y: u16,
    pub width: u16,
    pub height: u16,
}

/// A place in a text.
#[derive(Clone, Copy, PartialEq, Eq, Structural, Debug)]
pub struct Position {
    pub row: usize,
    pub col: usize,
}

pub open spec fn min_int(a: int, b: int) -> int {
    if a < b {
        a
    } else {
        b
    }
}

pub open spec fn max_int(a: int, b: int) -> int {
    if a < b {
        b
    } else {
        a
    }
}

impl Rect {
    /// The first column to the right of the rectangle.
    pub open spec fn end_col(self) -> int {
        self.x + self.width
    }

    /// The first row below the rectangle.
    pub open spec fn end_row(self) -> int {
        self.y + self.height
    }

    /// The columns and rows of the rectangle, and those next to it, have numbers.
    pub open spec fn fits(self) -> bool {
        self.end_col() <= u16::MAX && self.end_row() <= u16::MAX
    }

    /// The cell at column `x` and row `y` belongs to the rectangle.
    pub open spec fn has_cell(self, x: int, y: int) -> bool {
        self.x <= x < self.end_col() && self.y <= y < self.end_row()
    }

    /// Every cell of `inner` belongs to this rectangle.
    pub open spec fn encloses(self, inner: Rect) -> bool {
        forall|x: int, y: int| inner.has_cell(x, y) ==> self.has_cell(x, y)
    }

    /// The rectangle without its first `columns` columns.
    pub open spec fn without_left(self, columns: int) -> Rect {
        let cut = min_int(columns, self.width as int);
        Rect { x: (self.x + cut) as u16, width: (self.width - cut) as u16, ..self }
    }

    /// The rectangle without its first `rows` rows.
    pub open spec fn without_top(self, rows: int) -> Rect {
        let cut = min_int(rows, self.height as int);
        Rect { y: (self.y + cut) as u16, height: (self.height - cut) as u16, ..self }
    }

    /// What a border of one cell on each side leaves of the rectangle.
    pub open spec fn within_border(self) -> Rect {
        Rect {
            x: min_int(self.x + 1, self.end_col()) as u16,
            y: min_int(self.y + 1, self.end_row()) as u16,
            width: max_int(self.width - 2, 0) as u16,
            height: max_int(self.height - 2, 0) as u16,
        }
    }

    /// The rectangle without its first and its last column; no cell at all if it has fewer than
    /// two columns.
    pub open spec fn within_gap(self) -> Rect {
        if self.width < 2 {
            Rect { x: 0, y: 0, width: 0, height: 0 }
        } else {
            Rect { x: (self.x + 1) as u16, width: (self.width - 2) as u16, ..self }
        }
    }

    /// Cuts off the first `columns` columns, or all if there are fewer.
    pub fn clip_left(self, columns: u16) -> (rest: Rect)
        requires
            self.fits(),
        ensures
            rest == self.without_left(columns as int),
            rest.fits(),
    {
        let cut: u16 = if columns < self.width {
            columns
        } else {
            self.width
        };
        Rect { x: self.x + cut, y: self.y, width: self.width - cut, height: self.height }
    }

    /// Cuts off the first `rows` rows, or all if there are fewer.
    pub fn clip_top(self, rows: u16) -> (rest: Rect)
        requires
            self.fits(),
        ensures
            rest == self.without_top(rows as int),
            rest.fits(),
    {
        let cut: u16 = if rows < self.height {
            rows
        } else {
            self.height
        };
        Rect { x: self.x, y: self.y + cut, width: self.width, height: self.height - cut }
    }

    /// The same place with another height.
    pub fn with_height(self, height: u16) -> (changed: Rect)
        ensures
            changed == (Rect { height, ..self }),
    {
        Rect { x: self.x, y: self.y, width: self.width, height }
    }

    /// The same place with another width.
    pub fn with_width(self, width: u16) -> (changed: Rect)
        ensures
            changed == (Rect { width, ..self }),
    {
        Rect { x: self.x, y: self.y, width, height: self.height }
    }

    /// The area inside a border of one cell on each side.
    pub fn inside_border(self) -> (inner: Rect)
        requires
            self.fits(),
        ensures
            inner == self.within_border(),
            inner.fits(),
    {
        Rect {
            x: if self.width == 0 {
                self.x
            } else {
                self.x + 1
            },
            y: if self.height == 0 {
                self.y
            } else {
                self.y + 1
            },
            width: self.width.saturating_sub(2),
            height: self.height.saturating_sub(2),
        }
    }

    /// The area inside a gap of one column on either side.
    pub fn inside_gap(self) -> (inner: Rect)
        requires
            self.fits(),
        ensures
            inner == self.within_gap(),
            inner.fits(),
    {
        if self.width < 2 {
            Rect { x: 0, y: 0, width: 0, height: 0 }
        } else {
            Rect { x: self.x + 1, y: self.y, width: self.width - 2, height: self.height }
        }
    }
}

/// Clipping, borders and gaps only take cells away.
pub proof fn law_parts_lie_within(area: Rect, columns: int, rows: int)
    requires
        area.fits(),
        0 <= columns,
        0 <= rows,
    ensures
        area.encloses(area.without_left(columns)),
        area.encloses(area.without_top(rows)),
        area.encloses(area.within_border()),
        area.encloses(area.within_gap()),
{
}

/// Clipping takes away exactly the cells of the first columns, or rows, and leaves the others where
/// they are; the rest begins right behind what was taken away.
pub proof fn law_clipping_takes_the_first_cells(
    area: Rect,
    columns: int,
    rows: int,
    x: int,
    y: int,
)
    requires
        area.fits(),
        0 <= columns,
        0 <= rows,
    ensures
        area.without_left(columns).has_cell(x, y) <==> area.has_cell(x, y) && x >= area.x + columns,
        area.without_top(rows).has_cell(x, y) <==> area.has_cell(x, y) && y >= area.y + rows,
        area.without_left(columns).y == area.y,
        area.without_left(columns).height == area.height,
        area.without_left(columns).x + area.without_left(columns).width == area.x + area.width,
        columns <= area.width ==> area.without_left(columns).x == area.x + columns,
        columns > area.width ==> area.without_left(columns).width == 0,
        area.without_top(rows).x == area.x,
        area.without_top(rows).width == area.width,
        area.without_top(rows).y + area.without_top(rows).height == area.y + area.height,
        rows <= area.height ==> area.without_top(rows).y == area.y + rows,
        rows > area.height ==> area.without_top(rows).height == 0,
{
}

/// A border takes one cell on each side, and a gap one column on either side.
pub proof fn law_borders_take_one_cell(area: Rect, x: int, y: int)
    requires
        area.fits(),
    ensures
        area.within_border().has_cell(x, y) <==> area.x < x < area.x + area.width - 1 && area.y < y
            < area.y + area.height - 1,
        area.width > 0 ==> area.within_border().x == area.x + 1,
        area.width == 0 ==> area.within_border().x == area.x,
        area.height > 0 ==> area.within_border().y == area.y + 1,
        area.height == 0 ==> area.within_border().y == area.y,
        area.width >= 2 ==> area.within_border().width == area.width - 2,
        area.width < 2 ==> area.within_border().width == 0,
        area.height >= 2 ==> area.within_border().height == area.height - 2,
        area.height < 2 ==> area.within_border().height == 0,
        area.width >= 2 ==> area.within_gap() == (Rect {
            x: (area.x + 1) as u16,
            y: area.y,
            width: (area.width - 2) as u16,
            height: area.height,
        }),
        area.width < 2 ==> area.within_gap() == (Rect { x: 0, y: 0, width: 0, height: 0 }),
{
}

} // verus!

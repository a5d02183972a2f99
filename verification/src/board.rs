//! The board's vocabulary: marks, rows, columns, cells and winning lines.

use vstd::prelude::*;

verus! {

/// A player's symbol, X or O.
#[derive(Clone, Copy, Debug, PartialEq, Eq, Structural, Hash)]
pub enum Mark {
    X,
    O,
}

impl Mark {
    /// The mark of the player who moves after this one.
    pub open spec fn spec_next(self) -> Mark {
        match self {
            Mark::X => Mark::O,
            Mark::O => Mark::X,
        }
    }

    /// Toggles X to O and O to X.
    pub fn next(&self) -> (r: Mark)
        ensures
            r == self.spec_next(),
    {
        match self {
            Mark::X => Mark::O,
            Mark::O => Mark::X,
        }
    }

    /// The display glyph of the mark.
    pub fn label(&self) -> (r: &'static str)
        ensures
            self == Mark::X ==> r@ == "X"@,
            self == Mark::O ==> r@ == "O"@,
    {
        match self {
            Mark::X => "X",
            Mark::O => "O",
        }
    }
}

/// A horizontal band of the board, ordered bottom to top.
#[derive(Clone, Copy, Debug, PartialEq, Eq, Structural, Hash)]
pub enum Row {
    Bottom,
    Middle,
    Top,
}

impl Row {
    /// The row's signed position on the vertical axis: -1, 0 or 1, upward.
    pub open spec fn spec_position(self) -> int {
        match self {
            Row::Bottom => -1,
            Row::Middle => 0,
            Row::Top => 1,
        }
    }

    pub fn position(&self) -> (r: i8)
        ensures
            r as int == self.spec_position(),
    {
        match self {
            Row::Bottom => -1,
            Row::Middle => 0,
            Row::Top => 1,
        }
    }

    /// The three rows, bottom to top.
    pub fn values() -> (r: [Row; 3])
        ensures
            r@ == seq![Row::Bottom, Row::Middle, Row::Top],
    {
        let r = [Row::Bottom, Row::Middle, Row::Top];
        proof {
            assert(r@ =~= seq![Row::Bottom, Row::Middle, Row::Top]);
        }
        r
    }
}

/// A vertical band of the board, ordered left to right.
#[derive(Clone, Copy, Debug, PartialEq, Eq, Structural, Hash)]
pub enum Column {
    Left,
    Middle,
    Right,
}

impl Column {
    /// The column's signed position on the horizontal axis: -1, 0 or 1, rightward.
    pub open spec fn spec_position(self) -> int {
        match self {
            Column::Left => -1,
            Column::Middle => 0,
            Column::Right => 1,
        }
    }

    pub fn position(&self) -> (r: i8)
        ensures
            r as int == self.spec_position(),
    {
        match self {
            Column::Left => -1,
            Column::Middle => 0,
            Column::Right => 1,
        }
    }

    /// The three columns, left to right.
    pub fn values() -> (r: [Column; 3])
        ensures
            r@ == seq![Column::Left, Column::Middle, Column::Right],
    {
        let r = [Column::Left, Column::Middle, Column::Right];
        proof {
            assert(r@ =~= seq![Column::Left, Column::Middle, Column::Right]);
        }
        r
    }
}

/// One of the nine board positions, named by its row and column.
#[derive(Clone, Copy, Debug, PartialEq, Eq, Structural, Hash)]
pub enum Cell {
    TopLeft,
    TopMiddle,
    TopRight,
    MiddleLeft,
    MiddleMiddle,
    MiddleRight,
    BottomLeft,
    BottomMiddle,
    BottomRight,
}

impl Cell {
    /// The cell's index in row-major order, top row first, left to right.
    pub open spec fn idx(self) -> int {
        match self {
            Cell::TopLeft => 0,
            Cell::TopMiddle => 1,
            Cell::TopRight => 2,
            Cell::MiddleLeft => 3,
            Cell::MiddleMiddle => 4,
            Cell::MiddleRight => 5,
            Cell::BottomLeft => 6,
            Cell::BottomMiddle => 7,
            Cell::BottomRight => 8,
        }
    }

    pub fn index(&self) -> (r: usize)
        ensures
            r as int == self.idx(),
            r < 9,
    {
        match self {
            Cell::TopLeft => 0,
            Cell::TopMiddle => 1,
            Cell::TopRight => 2,
            Cell::MiddleLeft => 3,
            Cell::MiddleMiddle => 4,
            Cell::MiddleRight => 5,
            Cell::BottomLeft => 6,
            Cell::BottomMiddle => 7,
            Cell::BottomRight => 8,
        }
    }

    pub open spec fn spec_row(self) -> Row {
        match self {
            Cell::TopLeft | Cell::TopMiddle | Cell::TopRight => Row::Top,
            Cell::MiddleLeft | Cell::MiddleMiddle | Cell::MiddleRight => Row::Middle,
            Cell::BottomLeft | Cell::BottomMiddle | Cell::BottomRight => Row::Bottom,
        }
    }

    pub fn row(&self) -> (r: Row)
        ensures
            r == self.spec_row(),
    {
        match self {
            Cell::TopLeft | Cell::TopMiddle | Cell::TopRight => Row::Top,
            Cell::MiddleLeft | Cell::MiddleMiddle | Cell::MiddleRight => Row::Middle,
            Cell::BottomLeft | Cell::BottomMiddle | Cell::BottomRight => Row::Bottom,
        }
    }

    pub open spec fn spec_column(self) -> Column {
        match self {
            Cell::TopLeft | Cell::MiddleLeft | Cell::BottomLeft => Column::Left,
            Cell::TopMiddle | Cell::MiddleMiddle | Cell::BottomMiddle => Column::Middle,
            Cell::TopRight | Cell::MiddleRight | Cell::BottomRight => Column::Right,
        }
    }

    pub fn column(&self) -> (r: Column)
        ensures
            r == self.spec_column(),
    {
        match self {
            Cell::TopLeft | Cell::MiddleLeft | Cell::BottomLeft => Column::Left,
            Cell::TopMiddle | Cell::MiddleMiddle | Cell::BottomMiddle => Column::Middle,
            Cell::TopRight | Cell::MiddleRight | Cell::BottomRight => Column::Right,
        }
    }

    /// The cell standing at the crossing of a row and a column.
    pub open spec fn spec_from(row: Row, column: Column) -> Cell {
        match (row, column) {
            (Row::Top, Column::Left) => Cell::TopLeft,
            (Row::Top, Column::Middle) => Cell::TopMiddle,
            (Row::Top, Column::Right) => Cell::TopRight,
            (Row::Middle, Column::Left) => Cell::MiddleLeft,
            (Row::Middle, Column::Middle) => Cell::MiddleMiddle,
            (Row::Middle, Column::Right) => Cell::MiddleRight,
            (Row::Bottom, Column::Left) => Cell::BottomLeft,
            (Row::Bottom, Column::Middle) => Cell::BottomMiddle,
            (Row::Bottom, Column::Right) => Cell::BottomRight,
        }
    }

    pub fn from(row: Row, column: Column) -> (r: Cell)
        ensures
            r == Cell::spec_from(row, column),
            r.spec_row() == row,
            r.spec_column() == column,
    {
        match (row, column) {
            (Row::Top, Column::Left) => Cell::TopLeft,
            (Row::Top, Column::Middle) => Cell::TopMiddle,
            (Row::Top, Column::Right) => Cell::TopRight,
            (Row::Middle, Column::Left) => Cell::MiddleLeft,
            (Row::Middle, Column::Middle) => Cell::MiddleMiddle,
            (Row::Middle, Column::Right) => Cell::MiddleRight,
            (Row::Bottom, Column::Left) => Cell::BottomLeft,
            (Row::Bottom, Column::Middle) => Cell::BottomMiddle,
            (Row::Bottom, Column::Right) => Cell::BottomRight,
        }
    }

    /// True for the four cells whose row and column are both off-center.
    pub open spec fn spec_is_corner(self) -> bool {
        self == Cell::TopLeft || self == Cell::TopRight || self == Cell::BottomLeft
            || self == Cell::BottomRight
    }

    pub fn is_corner(&self) -> (r: bool)
        ensures
            r == self.spec_is_corner(),
    {
        *self == Cell::TopLeft || *self == Cell::TopRight || *self == Cell::BottomLeft
            || *self == Cell::BottomRight
    }

    /// The nine cells in row-major order, top row first, left to right.
    pub open spec fn all_cells() -> Seq<Cell> {
        seq![
            Cell::TopLeft,
            Cell::TopMiddle,
            Cell::TopRight,
            Cell::MiddleLeft,
            Cell::MiddleMiddle,
            Cell::MiddleRight,
            Cell::BottomLeft,
            Cell::BottomMiddle,
            Cell::BottomRight,
        ]
    }

    pub fn all() -> (r: [Cell; 9])
        ensures
            r@ == Cell::all_cells(),
            forall|i: int| 0 <= i < 9 ==> (#[trigger] r@[i]).idx() == i,
    {
        let r = [
            Cell::TopLeft,
            Cell::TopMiddle,
            Cell::TopRight,
            Cell::MiddleLeft,
            Cell::MiddleMiddle,
            Cell::MiddleRight,
            Cell::BottomLeft,
            Cell::BottomMiddle,
            Cell::BottomRight,
        ];
        proof {
            assert(r@ =~= Cell::all_cells());
        }
        r
    }
}

/// One of the eight fixed three-cell winning arrangements.
#[derive(Clone, Copy, Debug, PartialEq, Eq, Structural, Hash)]
pub enum Line {
    BottomRow,
    MiddleRow,
    TopRow,
    LeftColumn,
    MiddleColumn,
    RightColumn,
    UpDiagonal,
    DownDiagonal,
}

impl Line {
    /// The line's three cells, in a fixed order.
    pub open spec fn spec_cells(self) -> Seq<Cell> {
        match self {
            Line::BottomRow => seq![Cell::BottomLeft, Cell::BottomMiddle, Cell::BottomRight],
            Line::MiddleRow => seq![Cell::MiddleLeft, Cell::MiddleMiddle, Cell::MiddleRight],
            Line::TopRow => seq![Cell::TopLeft, Cell::TopMiddle, Cell::TopRight],
            Line::LeftColumn => seq![Cell::TopLeft, Cell::MiddleLeft, Cell::BottomLeft],
            Line::MiddleColumn => seq![Cell::TopMiddle, Cell::MiddleMiddle, Cell::BottomMiddle],
            Line::RightColumn => seq![Cell::TopRight, Cell::MiddleRight, Cell::BottomRight],
            Line::UpDiagonal => seq![Cell::BottomLeft, Cell::MiddleMiddle, Cell::TopRight],
            Line::DownDiagonal => seq![Cell::TopLeft, Cell::MiddleMiddle, Cell::BottomRight],
        }
    }

    pub fn cells(&self) -> (r: [Cell; 3])
        ensures
            r@ == self.spec_cells(),
    {
        let r = match self {
            Line::BottomRow => [Cell::BottomLeft, Cell::BottomMiddle, Cell::BottomRight],
            Line::MiddleRow => [Cell::MiddleLeft, Cell::MiddleMiddle, Cell::MiddleRight],
            Line::TopRow => [Cell::TopLeft, Cell::TopMiddle, Cell::TopRight],
            Line::LeftColumn => [Cell::TopLeft, Cell::MiddleLeft, Cell::BottomLeft],
            Line::MiddleColumn => [Cell::TopMiddle, Cell::MiddleMiddle, Cell::BottomMiddle],
            Line::RightColumn => [Cell::TopRight, Cell::MiddleRight, Cell::BottomRight],
            Line::UpDiagonal => [Cell::BottomLeft, Cell::MiddleMiddle, Cell::TopRight],
            Line::DownDiagonal => [Cell::TopLeft, Cell::MiddleMiddle, Cell::BottomRight],
        };
        proof {
            assert(r@ =~= self.spec_cells());
        }
        r
    }

    /// The eight lines in declaration order.
    pub open spec fn all_lines() -> Seq<Line> {
        seq![
            Line::BottomRow,
            Line::MiddleRow,
            Line::TopRow,
            Line::LeftColumn,
            Line::MiddleColumn,
            Line::RightColumn,
            Line::UpDiagonal,
            Line::DownDiagonal,
        ]
    }

    pub fn all() -> (r: [Line; 8])
        ensures
            r@ == Line::all_lines(),
    {
        let r = [
            Line::BottomRow,
            Line::MiddleRow,
            Line::TopRow,
            Line::LeftColumn,
            Line::MiddleColumn,
            Line::RightColumn,
            Line::UpDiagonal,
            Line::DownDiagonal,
        ];
        proof {
            assert(r@ =~= Line::all_lines());
        }
        r
    }
}

} // verus!

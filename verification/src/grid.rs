//! The coordinate mapper: from a position in the board's plane to the cell
//! under it.
//!
//! The board is a 3x3 square of cells, each `GRID_SPACING` units wide,
//! centered at the origin, with y growing upward. Positions are measured in
//! whole units of that plane; a front end working in some finer unit scales
//! its readings down before calling in. Each axis splits into three half-open
//! intervals of width `GRID_SPACING`; a position outside them hits no cell.

use vstd::prelude::*;

use crate::board::{Cell, Column, Row};

verus! {

/// The width of one cell.
pub const GRID_SPACING: i64 = 250;

/// Half the width of one cell: the edge between a middle band and its
/// neighbours lies at this distance from the origin.
pub const HALF_CELL: i64 = 125;

/// The row whose vertical band contains `y`: the board spans
/// `[-3 * HALF_CELL, 3 * HALF_CELL)` bottom to top.
pub open spec fn row_containing(y: int) -> Option<Row> {
    if -3 * HALF_CELL <= y < -HALF_CELL {
        Some(Row::Bottom)
    } else if -HALF_CELL <= y < HALF_CELL {
        Some(Row::Middle)
    } else if HALF_CELL <= y < 3 * HALF_CELL {
        Some(Row::Top)
    } else {
        None
    }
}

/// The column whose horizontal band contains `x`, left to right.
pub open spec fn column_containing(x: int) -> Option<Column> {
    if -3 * HALF_CELL <= x < -HALF_CELL {
        Some(Column::Left)
    } else if -HALF_CELL <= x < HALF_CELL {
        Some(Column::Middle)
    } else if HALF_CELL <= x < 3 * HALF_CELL {
        Some(Column::Right)
    } else {
        None
    }
}

impl Row {
    /// The row under height `y`, or `None` off the board.
    pub fn containing(y: i64) -> (r: Option<Row>)
        ensures
            r == row_containing(y as int),
    {
        if -3 * HALF_CELL <= y && y < -HALF_CELL {
            Some(Row::Bottom)
        } else if -HALF_CELL <= y && y < HALF_CELL {
            Some(Row::Middle)
        } else if HALF_CELL <= y && y < 3 * HALF_CELL {
            Some(Row::Top)
        } else {
            None
        }
    }
}

impl Column {
    /// The column under abscissa `x`, or `None` off the board.
    pub fn containing(x: i64) -> (r: Option<Column>)
        ensures
            r == column_containing(x as int),
    {
        if -3 * HALF_CELL <= x && x < -HALF_CELL {
            Some(Column::Left)
        } else if -HALF_CELL <= x && x < HALF_CELL {
            Some(Column::Middle)
        } else if HALF_CELL <= x && x < 3 * HALF_CELL {
            Some(Column::Right)
        } else {
            None
        }
    }
}

/// The cell under position `(x, y)`, or `None` when either axis misses the
/// board.
pub open spec fn cell_at(x: int, y: int) -> Option<Cell> {
    match (row_containing(y), column_containing(x)) {
        (Some(row), Some(col)) => Some(Cell::spec_from(row, col)),
        _ => None,
    }
}

impl Cell {
    /// Maps a position in the board's plane to the cell under it.
    pub fn hit(x: i64, y: i64) -> (r: Option<Cell>)
        ensures
            r == cell_at(x as int, y as int),
    {
        match (Row::containing(y), Column::containing(x)) {
            (Some(row), Some(col)) => Some(Cell::from(row, col)),
            _ => None,
        }
    }

    /// The abscissa of the cell's geometric center.
    pub fn center_x(&self) -> (r: i64)
        ensures
            r as int == self.spec_column().spec_position() * GRID_SPACING,
    {
        self.column().position() as i64 * GRID_SPACING
    }

    /// The height of the cell's geometric center.
    pub fn center_y(&self) -> (r: i64)
        ensures
            r as int == self.spec_row().spec_position() * GRID_SPACING,
    {
        self.row().position() as i64 * GRID_SPACING
    }
}

/// Each cell's geometric center maps back to exactly that cell.
pub proof fn lemma_center_hits_own_cell(c: Cell)
    ensures
        cell_at(
            c.spec_column().spec_position() * GRID_SPACING,
            c.spec_row().spec_position() * GRID_SPACING,
        ) == Some(c),
{
}

} // verus!

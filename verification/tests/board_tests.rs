use tic_tac_toe::board::{Cell, Column, Line, Mark, Row};
use tic_tac_toe::game::Game;

#[test]
fn cell_centers_locate_their_own_cell() {
    for cell in Cell::all() {
        assert_eq!(Cell::hit(cell.center_x(), cell.center_y()), Some(cell));
    }
}

#[test]
fn hits_at_band_edges() {
    assert_eq!(Cell::hit(0, 0), Some(Cell::MiddleMiddle));
    assert_eq!(Cell::hit(125, 125), Some(Cell::TopRight));
    assert_eq!(Cell::hit(-125, -125), Some(Cell::MiddleMiddle));
    assert_eq!(Cell::hit(-126, -126), Some(Cell::BottomLeft));
    assert_eq!(Cell::hit(-375, 374), Some(Cell::TopLeft));
    assert_eq!(Cell::hit(0, -375), Some(Cell::BottomMiddle));
}

#[test]
fn hits_off_the_board_miss() {
    assert_eq!(Cell::hit(375, 0), None);
    assert_eq!(Cell::hit(-376, 0), None);
    assert_eq!(Cell::hit(0, 375), None);
    assert_eq!(Cell::hit(0, -376), None);
    assert_eq!(Cell::hit(1000, 1000), None);
}

#[test]
fn set_on_occupied_cell_changes_nothing() {
    let mut game = Game::new();
    game.set(Cell::TopLeft, Mark::X);
    game.set(Cell::TopLeft, Mark::O);
    assert_eq!(game.get(Cell::TopLeft), Some(Mark::X));
    assert!(game.winner().is_none());
    assert!(!game.over());
    for cell in Cell::all() {
        if cell != Cell::TopLeft {
            assert_eq!(game.get(cell), None);
        }
    }
}

#[test]
fn each_line_of_three_wins() {
    for line in Line::all() {
        for mark in [Mark::X, Mark::O] {
            let mut game = Game::new();
            for cell in line.cells() {
                game.set(cell, mark);
            }
            assert_eq!(game.winner(), Some((mark, line)));
            assert!(game.over());
        }
    }
}

#[test]
fn full_board_without_line_is_a_tie() {
    let mut game = Game::new();
    let placement = [
        (Cell::TopLeft, Mark::X),
        (Cell::TopMiddle, Mark::O),
        (Cell::TopRight, Mark::X),
        (Cell::MiddleLeft, Mark::X),
        (Cell::MiddleMiddle, Mark::O),
        (Cell::MiddleRight, Mark::O),
        (Cell::BottomLeft, Mark::O),
        (Cell::BottomMiddle, Mark::X),
        (Cell::BottomRight, Mark::X),
    ];
    for (cell, mark) in placement {
        game.set(cell, mark);
    }
    assert_eq!(game.winner(), None);
    assert!(game.over());
}

#[test]
fn partial_board_without_line_is_not_over() {
    let mut game = Game::new();
    game.set(Cell::TopLeft, Mark::X);
    game.set(Cell::MiddleMiddle, Mark::O);
    game.set(Cell::BottomRight, Mark::X);
    assert_eq!(game.winner(), None);
    assert!(!game.over());
}

#[test]
fn fresh_board_is_empty() {
    let game = Game::new();
    for cell in Cell::all() {
        assert_eq!(game.get(cell), None);
    }
    assert!(game.winner().is_none());
    assert!(!game.over());

    let default_game = Game::default();
    for cell in Cell::all() {
        assert_eq!(default_game.get(cell), None);
    }
}

#[test]
fn mark_next_toggles() {
    assert_eq!(Mark::X.next(), Mark::O);
    assert_eq!(Mark::O.next(), Mark::X);
    assert_eq!(Mark::X.next().next(), Mark::X);
    assert_eq!(Mark::X.label(), "X");
    assert_eq!(Mark::O.label(), "O");
}

#[test]
fn rows_and_columns_have_signed_positions() {
    assert_eq!(Row::Bottom.position(), -1);
    assert_eq!(Row::Middle.position(), 0);
    assert_eq!(Row::Top.position(), 1);
    assert_eq!(Column::Left.position(), -1);
    assert_eq!(Column::Middle.position(), 0);
    assert_eq!(Column::Right.position(), 1);
    assert_eq!(Row::values(), [Row::Bottom, Row::Middle, Row::Top]);
    assert_eq!(Column::values(), [Column::Left, Column::Middle, Column::Right]);
}

#[test]
fn cells_know_their_row_column_and_index() {
    for (i, cell) in Cell::all().into_iter().enumerate() {
        assert_eq!(cell.index(), i);
        assert_eq!(Cell::from(cell.row(), cell.column()), cell);
    }
    assert_eq!(Cell::TopRight.row(), Row::Top);
    assert_eq!(Cell::TopRight.column(), Column::Right);
    assert_eq!(Cell::BottomMiddle.row(), Row::Bottom);
    assert_eq!(Cell::BottomMiddle.column(), Column::Middle);
}

#[test]
fn exactly_four_corners() {
    let corners: Vec<Cell> = Cell::all().into_iter().filter(|c| c.is_corner()).collect();
    assert_eq!(
        corners,
        vec![Cell::TopLeft, Cell::TopRight, Cell::BottomLeft, Cell::BottomRight]
    );
}

#[test]
fn lines_list_their_cells() {
    assert_eq!(Line::all().len(), 8);
    assert_eq!(
        Line::TopRow.cells(),
        [Cell::TopLeft, Cell::TopMiddle, Cell::TopRight]
    );
    assert_eq!(
        Line::UpDiagonal.cells(),
        [Cell::BottomLeft, Cell::MiddleMiddle, Cell::TopRight]
    );
    assert_eq!(
        Line::DownDiagonal.cells(),
        [Cell::TopLeft, Cell::MiddleMiddle, Cell::BottomRight]
    );
}

#[test]
fn row_and_column_containing_bands() {
    assert_eq!(Row::containing(-200), Some(Row::Bottom));
    assert_eq!(Row::containing(0), Some(Row::Middle));
    assert_eq!(Row::containing(200), Some(Row::Top));
    assert_eq!(Row::containing(400), None);
    assert_eq!(Column::containing(-200), Some(Column::Left));
    assert_eq!(Column::containing(0), Some(Column::Middle));
    assert_eq!(Column::containing(200), Some(Column::Right));
    assert_eq!(Column::containing(-400), None);
}

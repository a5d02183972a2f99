use tic_tac_toe::board::{Cell, Mark};
use tic_tac_toe::computer::generate_computer_input;
use tic_tac_toe::game::Game;
use tic_tac_toe::settings::Difficulty;

/// Top row holds two computer X's; the center holds an O.
fn board_with_open_win() -> Game {
    let mut game = Game::new();
    game.set(Cell::TopLeft, Mark::X);
    game.set(Cell::TopMiddle, Mark::X);
    game.set(Cell::MiddleMiddle, Mark::O);
    game
}

#[test]
fn hard_takes_the_winning_cell() {
    let game = board_with_open_win();
    let cell = generate_computer_input(&game, Mark::X, Difficulty::Hard);
    assert_eq!(cell, Cell::TopRight);
}

#[test]
fn hard_blocks_the_opposing_row() {
    let mut game = Game::new();
    game.set(Cell::TopLeft, Mark::O);
    game.set(Cell::TopMiddle, Mark::O);
    game.set(Cell::MiddleLeft, Mark::X);
    let cell = generate_computer_input(&game, Mark::X, Difficulty::Hard);
    assert_eq!(cell, Cell::TopRight);
}

#[test]
fn easy_takes_the_worst_cell() {
    let game = board_with_open_win();
    let cell = generate_computer_input(&game, Mark::X, Difficulty::Easy);
    assert_eq!(cell, Cell::MiddleLeft);
}

#[test]
fn medium_takes_the_best_or_the_worst_cell() {
    let game = board_with_open_win();
    for _ in 0..20 {
        let cell = generate_computer_input(&game, Mark::X, Difficulty::Medium);
        assert!(cell == Cell::TopRight || cell == Cell::MiddleLeft);
    }
}

#[test]
fn single_empty_cell_is_always_taken() {
    let mut game = Game::new();
    let placement = [
        (Cell::TopLeft, Mark::X),
        (Cell::TopMiddle, Mark::O),
        (Cell::TopRight, Mark::X),
        (Cell::MiddleLeft, Mark::X),
        (Cell::MiddleMiddle, Mark::O),
        (Cell::MiddleRight, Mark::O),
        (Cell::BottomLeft, Mark::O),
        (Cell::BottomMiddle, Mark::X),
    ];
    for (cell, mark) in placement {
        game.set(cell, mark);
    }
    assert!(!game.over());
    for difficulty in [Difficulty::Easy, Difficulty::Medium, Difficulty::Hard] {
        assert_eq!(
            generate_computer_input(&game, Mark::X, difficulty),
            Cell::BottomRight
        );
    }
}

#[test]
fn chosen_cell_is_always_empty() {
    let mut game = Game::new();
    game.set(Cell::MiddleMiddle, Mark::X);
    game.set(Cell::TopLeft, Mark::O);
    for difficulty in [Difficulty::Easy, Difficulty::Medium, Difficulty::Hard] {
        for computer in [Mark::X, Mark::O] {
            let cell = generate_computer_input(&game, computer, difficulty);
            assert_eq!(game.get(cell), None);
        }
    }
}

#[test]
fn empty_board_hard_prefers_the_center() {
    // on an empty board the center's stacked bonus beats every other cell
    let game = Game::new();
    let cell = generate_computer_input(&game, Mark::X, Difficulty::Hard);
    assert_eq!(cell, Cell::MiddleMiddle);
}

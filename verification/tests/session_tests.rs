use tic_tac_toe::board::{Cell, Line, Mark};
use tic_tac_toe::session::{GameState, Session};
use tic_tac_toe::settings::{Difficulty, GameMode, HumanMark, Setting};

fn started_two_player_session() -> Session {
    let mut session = Session::new(GameMode::TwoPlayers, HumanMark::HumanX, Difficulty::Hard);
    session.start();
    session
}

#[test]
fn click_on_center_claims_it_for_x() {
    let mut session = Session::new(GameMode::OnePlayer, HumanMark::HumanX, Difficulty::Hard);
    session.start();
    session.click(0, 0);
    assert_eq!(session.game().get(Cell::MiddleMiddle), Some(Mark::X));
    assert!(!session.game().over());
    assert_eq!(session.current_player(), Mark::O);
    assert_eq!(session.state(), GameState::OTurn);
}

#[test]
fn top_row_sequence_wins_for_x() {
    let mut session = started_two_player_session();
    for cell in [
        Cell::TopLeft,
        Cell::MiddleMiddle,
        Cell::TopMiddle,
        Cell::BottomRight,
        Cell::TopRight,
    ] {
        session.play(cell);
    }
    assert_eq!(session.game().winner(), Some((Mark::X, Line::TopRow)));
    assert!(session.game().over());
    assert_eq!(session.state(), GameState::GameOver);
}

#[test]
fn accepted_moves_alternate_the_active_mark() {
    let mut session = started_two_player_session();
    assert_eq!(session.current_player(), Mark::X);
    session.play(Cell::TopLeft);
    assert_eq!(session.current_player(), Mark::O);
    session.play(Cell::MiddleMiddle);
    assert_eq!(session.current_player(), Mark::X);
    session.play(Cell::BottomRight);
    assert_eq!(session.current_player(), Mark::O);
}

#[test]
fn rejected_moves_change_nothing() {
    let mut session = started_two_player_session();
    session.play(Cell::TopLeft);

    // a move onto an occupied cell is ignored
    session.play(Cell::TopLeft);
    assert_eq!(session.current_player(), Mark::O);
    assert_eq!(session.state(), GameState::OTurn);
    assert_eq!(session.game().get(Cell::TopLeft), Some(Mark::X));

    // a click off the board is ignored
    session.click(5000, 5000);
    assert_eq!(session.current_player(), Mark::O);
    assert_eq!(session.state(), GameState::OTurn);
}

#[test]
fn clicks_during_the_computer_turn_are_ignored() {
    // the computer is X and moves first: the human's click must do nothing
    let mut session = Session::new(GameMode::OnePlayer, HumanMark::HumanO, Difficulty::Hard);
    session.start();
    assert!(session.computer_to_move());
    session.click(0, 0);
    assert_eq!(session.game().get(Cell::MiddleMiddle), None);
    assert_eq!(session.state(), GameState::XTurn);
}

#[test]
fn computer_takes_its_turn() {
    let mut session = Session::new(GameMode::OnePlayer, HumanMark::HumanO, Difficulty::Hard);
    session.start();
    let cell = session.play_computer();
    assert_eq!(session.game().get(cell), Some(Mark::X));
    assert_eq!(session.state(), GameState::OTurn);
    assert!(!session.computer_to_move());
}

#[test]
fn computer_against_itself_reaches_game_over() {
    // the human never moves; drive the computer's turns and let the human's
    // turns pick the first empty cell
    let mut session = Session::new(GameMode::OnePlayer, HumanMark::HumanO, Difficulty::Hard);
    session.start();
    let mut moves = 0;
    while session.state() == GameState::XTurn || session.state() == GameState::OTurn {
        assert!(moves < 9);
        if session.computer_to_move() {
            session.play_computer();
        } else {
            let empty = Cell::all()
                .into_iter()
                .find(|c| session.game().get(*c).is_none())
                .expect("an open game has an empty cell");
            session.play(empty);
        }
        moves += 1;
    }
    assert_eq!(session.state(), GameState::GameOver);
    assert!(session.game().over());
}

#[test]
fn play_again_resets_the_board_and_keeps_settings() {
    let mut session = started_two_player_session();
    for cell in [
        Cell::TopLeft,
        Cell::MiddleLeft,
        Cell::TopMiddle,
        Cell::MiddleMiddle,
        Cell::TopRight,
    ] {
        session.play(cell);
    }
    assert_eq!(session.state(), GameState::GameOver);
    session.play_again();
    assert_eq!(session.state(), GameState::XTurn);
    assert_eq!(session.current_player(), Mark::X);
    for cell in Cell::all() {
        assert_eq!(session.game().get(cell), None);
    }
    assert_eq!(session.mode(), GameMode::TwoPlayers);
    assert_eq!(session.difficulty(), Difficulty::Hard);
}

#[test]
fn back_to_menu_leaves_play() {
    let mut session = started_two_player_session();
    for cell in [
        Cell::TopLeft,
        Cell::MiddleLeft,
        Cell::TopMiddle,
        Cell::MiddleMiddle,
        Cell::TopRight,
    ] {
        session.play(cell);
    }
    session.back_to_menu();
    assert_eq!(session.state(), GameState::GameNotInProgress);
    for cell in Cell::all() {
        assert_eq!(session.game().get(cell), None);
    }
}

#[test]
fn menu_settings_can_be_changed_before_play() {
    let mut session = Session::new(GameMode::TwoPlayers, HumanMark::HumanX, Difficulty::Easy);
    session.set_mode(GameMode::OnePlayer);
    session.set_human_mark(HumanMark::HumanO);
    session.set_difficulty(Difficulty::Medium);
    assert_eq!(session.mode(), GameMode::OnePlayer);
    assert_eq!(session.human_mark(), HumanMark::HumanO);
    assert_eq!(session.difficulty(), Difficulty::Medium);
    assert_eq!(session.state(), GameState::GameNotInProgress);
}

#[test]
fn human_mark_controls_its_mark() {
    assert!(HumanMark::HumanX.controls(Mark::X));
    assert!(!HumanMark::HumanX.controls(Mark::O));
    assert!(HumanMark::HumanO.controls(Mark::O));
    assert!(!HumanMark::HumanO.controls(Mark::X));
}

#[test]
fn settings_have_captions_and_variants() {
    assert_eq!(Difficulty::Easy.label(), "Easy");
    assert_eq!(Difficulty::Medium.label(), "Medium");
    assert_eq!(Difficulty::Hard.label(), "Hard");
    assert_eq!(HumanMark::HumanX.label(), "Human X");
    assert_eq!(HumanMark::HumanO.label(), "Human O");
    assert_eq!(GameMode::OnePlayer.label(), "One Player");
    assert_eq!(GameMode::TwoPlayers.label(), "Two Players");
    assert_eq!(
        Difficulty::variants(),
        vec![Difficulty::Easy, Difficulty::Medium, Difficulty::Hard]
    );
    assert_eq!(
        HumanMark::variants(),
        vec![HumanMark::HumanX, HumanMark::HumanO]
    );
    assert_eq!(
        GameMode::variants(),
        vec![GameMode::OnePlayer, GameMode::TwoPlayers]
    );
}

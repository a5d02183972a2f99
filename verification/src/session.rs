//! The turn controller: a session that sequences whose move is accepted
//! next, feeds accepted moves to the board, and ends the game when the board
//! reports a win or a tie.
//!
//! A session's observable state is the triple of its board, its turn state
//! and its active mark, reached through the session's view.

use vstd::prelude::*;

use crate::board::{Cell, Mark};
use crate::computer::{generate_computer_input, is_best_choice};
use crate::game::{
    empty_board, lemma_empty_board_fresh, lemma_mark_count_le_len, spec_over, Game,
};
use crate::grid::cell_at;
use crate::settings::{Difficulty, GameMode, HumanMark};

verus! {

/// Where the turn controller stands.
#[derive(Clone, Copy, Debug, PartialEq, Eq, Structural)]
pub enum GameState {
    GameNotInProgress,
    XTurn,
    OTurn,
    GameOver,
}

/// The turn state that follows an accepted move which leaves the game open.
pub open spec fn next_turn(s: GameState) -> GameState {
    match s {
        GameState::XTurn => GameState::OTurn,
        _ => GameState::XTurn,
    }
}

/// One move offered to a session in a turn state: a move onto an occupied
/// cell changes nothing; an accepted move records the active mark, ends the
/// game when the board is now won or full, and otherwise hands the turn to
/// the other mark.
pub open spec fn play_step(
    v: (Seq<Option<Mark>>, GameState, Mark),
    cell: Cell,
) -> (Seq<Option<Mark>>, GameState, Mark) {
    if v.0[cell.idx()] is Some {
        v
    } else {
        let board = v.0.update(cell.idx(), Some(v.2));
        if spec_over(board) {
            (board, GameState::GameOver, v.2)
        } else {
            (board, next_turn(v.1), v.2.spec_next())
        }
    }
}

/// What a pointer event does to a session in a turn state: nothing during the
/// computer's turn or off the board; otherwise the cell under the pointer is
/// offered as a move.
pub open spec fn click_step(
    v: (Seq<Option<Mark>>, GameState, Mark),
    mode: GameMode,
    human_mark: HumanMark,
    x: int,
    y: int,
) -> (Seq<Option<Mark>>, GameState, Mark) {
    if mode == GameMode::OnePlayer && !human_mark.spec_controls(v.2) {
        v
    } else {
        match cell_at(x, y) {
            Some(cell) => play_step(v, cell),
            None => v,
        }
    }
}

/// A play session: the board, the turn state, the active mark, and the menu
/// settings the session was opened with.
pub struct Session {
    game: Game,
    state: GameState,
    current_player: Mark,
    mode: GameMode,
    human_mark: HumanMark,
    difficulty: Difficulty,
}

impl View for Session {
    type V = (Seq<Option<Mark>>, GameState, Mark);

    closed spec fn view(&self) -> (Seq<Option<Mark>>, GameState, Mark) {
        (self.game@, self.state, self.current_player)
    }
}

impl Session {
    #[verifier::type_invariant]
    spec fn inv(self) -> bool {
        &&& self.state == GameState::XTurn ==> self.current_player == Mark::X && !spec_over(
            self.game@,
        )
        &&& self.state == GameState::OTurn ==> self.current_player == Mark::O && !spec_over(
            self.game@,
        )
        &&& self.state == GameState::GameOver ==> spec_over(self.game@)
        &&& self.state == GameState::GameNotInProgress ==> self.game@ == empty_board()
            && self.current_player == Mark::X
    }

    /// The game mode the session was opened with.
    pub closed spec fn spec_mode(&self) -> GameMode {
        self.mode
    }

    /// Which mark the human controls in a one-player session.
    pub closed spec fn spec_human_mark(&self) -> HumanMark {
        self.human_mark
    }

    /// The computer opponent's difficulty.
    pub closed spec fn spec_difficulty(&self) -> Difficulty {
        self.difficulty
    }

    /// The settings of the session, unchanged between `old(self)` and
    /// `final(self)`.
    pub open spec fn same_settings(pre: Session, post: Session) -> bool {
        &&& post.spec_mode() == pre.spec_mode()
        &&& post.spec_human_mark() == pre.spec_human_mark()
        &&& post.spec_difficulty() == pre.spec_difficulty()
    }

    /// A fresh session, still in the menu, with the given settings.
    pub fn new(mode: GameMode, human_mark: HumanMark, difficulty: Difficulty) -> (s: Session)
        ensures
            s@ == (empty_board(), GameState::GameNotInProgress, Mark::X),
            s.spec_mode() == mode,
            s.spec_human_mark() == human_mark,
            s.spec_difficulty() == difficulty,
    {
        let s = Session {
            game: Game::new(),
            state: GameState::GameNotInProgress,
            current_player: Mark::X,
            mode,
            human_mark,
            difficulty,
        };
        s
    }

    /// The board, for reading.
    pub fn game(&self) -> (g: &Game)
        ensures
            g@ == self@.0,
    {
        &self.game
    }

    /// The turn state.
    pub fn state(&self) -> (s: GameState)
        ensures
            s == self@.1,
    {
        self.state
    }

    /// The mark whose move is accepted next.
    pub fn current_player(&self) -> (m: Mark)
        ensures
            m == self@.2,
    {
        self.current_player
    }

    /// The game mode.
    pub fn mode(&self) -> (m: GameMode)
        ensures
            m == self.spec_mode(),
    {
        self.mode
    }

    /// The human's mark.
    pub fn human_mark(&self) -> (m: HumanMark)
        ensures
            m == self.spec_human_mark(),
    {
        self.human_mark
    }

    /// The computer's difficulty.
    pub fn difficulty(&self) -> (d: Difficulty)
        ensures
            d == self.spec_difficulty(),
    {
        self.difficulty
    }

    /// Chooses the game mode from the menu.
    pub fn set_mode(&mut self, mode: GameMode)
        requires
            old(self)@.1 == GameState::GameNotInProgress,
        ensures
            final(self)@ == old(self)@,
            final(self).spec_mode() == mode,
            final(self).spec_human_mark() == old(self).spec_human_mark(),
            final(self).spec_difficulty() == old(self).spec_difficulty(),
    {
        proof {
            use_type_invariant(&*self);
        }
        self.mode = mode;
    }

    /// Chooses the human's mark from the menu.
    pub fn set_human_mark(&mut self, human_mark: HumanMark)
        requires
            old(self)@.1 == GameState::GameNotInProgress,
        ensures
            final(self)@ == old(self)@,
            final(self).spec_human_mark() == human_mark,
            final(self).spec_mode() == old(self).spec_mode(),
            final(self).spec_difficulty() == old(self).spec_difficulty(),
    {
        proof {
            use_type_invariant(&*self);
        }
        self.human_mark = human_mark;
    }

    /// Chooses the computer's difficulty from the menu.
    pub fn set_difficulty(&mut self, difficulty: Difficulty)
        requires
            old(self)@.1 == GameState::GameNotInProgress,
        ensures
            final(self)@ == old(self)@,
            final(self).spec_difficulty() == difficulty,
            final(self).spec_mode() == old(self).spec_mode(),
            final(self).spec_human_mark() == old(self).spec_human_mark(),
    {
        proof {
            use_type_invariant(&*self);
        }
        self.difficulty = difficulty;
    }

    /// Opens play: X always moves first on an empty board.
    pub fn start(&mut self)
        requires
            old(self)@.1 == GameState::GameNotInProgress,
        ensures
            final(self)@ == (empty_board(), GameState::XTurn, Mark::X),
            Session::same_settings(*old(self), *final(self)),
    {
        proof {
            use_type_invariant(&*self);
            lemma_empty_board_fresh();
        }
        *self = Session {
            game: Game::new(),
            state: GameState::XTurn,
            current_player: Mark::X,
            mode: self.mode,
            human_mark: self.human_mark,
            difficulty: self.difficulty,
        };
    }

    /// Offers a move on `cell` to the session.
    pub fn play(&mut self, cell: Cell)
        requires
            old(self)@.1 == GameState::XTurn || old(self)@.1 == GameState::OTurn,
        ensures
            final(self)@ == play_step(old(self)@, cell),
            Session::same_settings(*old(self), *final(self)),
    {
        proof {
            use_type_invariant(&*self);
        }
        if self.game.get(cell).is_some() {
            return ;
        }
        let mark = self.current_player;
        let mut game = self.game;
        game.set(cell, mark);
        let (state, player) = if game.over() {
            (GameState::GameOver, mark)
        } else {
            let state = match self.state {
                GameState::XTurn => GameState::OTurn,
                _ => GameState::XTurn,
            };
            (state, mark.next())
        };
        *self = Session {
            game,
            state,
            current_player: player,
            mode: self.mode,
            human_mark: self.human_mark,
            difficulty: self.difficulty,
        };
    }

    /// Feeds a pointer event at `(x, y)` to the session.
    pub fn click(&mut self, x: i64, y: i64)
        requires
            old(self)@.1 == GameState::XTurn || old(self)@.1 == GameState::OTurn,
        ensures
            final(self)@ == click_step(
                old(self)@,
                old(self).spec_mode(),
                old(self).spec_human_mark(),
                x as int,
                y as int,
            ),
            Session::same_settings(*old(self), *final(self)),
    {
        proof {
            use_type_invariant(&*self);
        }
        if self.mode == GameMode::OnePlayer && !self.human_mark.controls(self.current_player) {
            return ;
        }
        match Cell::hit(x, y) {
            Some(cell) => self.play(cell),
            None => {},
        }
    }

    /// Whether the session waits on the computer rather than on a pointer
    /// event.
    pub fn computer_to_move(&self) -> (r: bool)
        ensures
            r == (self.spec_mode() == GameMode::OnePlayer && !self.spec_human_mark().spec_controls(
                self@.2,
            ) && (self@.1 == GameState::XTurn || self@.1 == GameState::OTurn)),
    {
        self.mode == GameMode::OnePlayer && !self.human_mark.controls(self.current_player) && (
        self.state == GameState::XTurn || self.state == GameState::OTurn)
    }

    /// Lets the computer take the current turn; returns the cell it claims.
    pub fn play_computer(&mut self) -> (c: Cell)
        requires
            old(self)@.1 == GameState::XTurn || old(self)@.1 == GameState::OTurn,
            old(self).spec_mode() == GameMode::OnePlayer,
            !old(self).spec_human_mark().spec_controls(old(self)@.2),
        ensures
            old(self)@.0[c.idx()] is None,
            final(self)@ == play_step(old(self)@, c),
            Session::same_settings(*old(self), *final(self)),
            old(self).spec_difficulty() == Difficulty::Hard ==> is_best_choice(
                old(self)@.0,
                old(self)@.2,
                1,
                c,
            ),
            old(self).spec_difficulty() == Difficulty::Easy ==> is_best_choice(
                old(self)@.0,
                old(self)@.2,
                -1,
                c,
            ),
            old(self).spec_difficulty() == Difficulty::Medium ==> is_best_choice(
                old(self)@.0,
                old(self)@.2,
                1,
                c,
            ) || is_best_choice(old(self)@.0, old(self)@.2, -1, c),
    {
        proof {
            use_type_invariant(&*self);
            self.game.lemma_len();
            lemma_mark_count_le_len(self.game@);
        }
        let c = generate_computer_input(&self.game, self.current_player, self.difficulty);
        self.play(c);
        c
    }

    /// Starts play over on a fresh board, keeping the settings.
    pub fn play_again(&mut self)
        requires
            old(self)@.1 == GameState::GameOver,
        ensures
            final(self)@ == (empty_board(), GameState::XTurn, Mark::X),
            Session::same_settings(*old(self), *final(self)),
    {
        proof {
            lemma_empty_board_fresh();
        }
        *self = Session {
            game: Game::new(),
            state: GameState::XTurn,
            current_player: Mark::X,
            mode: self.mode,
            human_mark: self.human_mark,
            difficulty: self.difficulty,
        };
    }

    /// Abandons the finished game and returns to the menu.
    pub fn back_to_menu(&mut self)
        requires
            old(self)@.1 == GameState::GameOver,
        ensures
            final(self)@ == (empty_board(), GameState::GameNotInProgress, Mark::X),
            Session::same_settings(*old(self), *final(self)),
    {
        *self = Session {
            game: Game::new(),
            state: GameState::GameNotInProgress,
            current_player: Mark::X,
            mode: self.mode,
            human_mark: self.human_mark,
            difficulty: self.difficulty,
        };
    }
}

/// The view of a session just after `start`: empty board, X to move.
pub open spec fn fresh_session() -> (Seq<Option<Mark>>, GameState, Mark) {
    (empty_board(), GameState::XTurn, Mark::X)
}

/// The view reached by offering `moves` in order.
pub open spec fn run_steps(
    v: (Seq<Option<Mark>>, GameState, Mark),
    moves: Seq<Cell>,
) -> (Seq<Option<Mark>>, GameState, Mark)
    decreases moves.len(),
{
    if moves.len() == 0 {
        v
    } else {
        run_steps(play_step(v, moves[0]), moves.drop_first())
    }
}

/// Every move of `moves` is accepted: each is offered in a turn state and
/// lands on a cell still empty at that point.
pub open spec fn all_accepted(v: (Seq<Option<Mark>>, GameState, Mark), moves: Seq<Cell>) -> bool
    decreases moves.len(),
{
    moves.len() == 0 || {
        &&& v.1 == GameState::XTurn || v.1 == GameState::OTurn
        &&& v.0[moves[0].idx()] is None
        &&& all_accepted(play_step(v, moves[0]), moves.drop_first())
    }
}

/// The consistency the turn controller maintains between its state, its
/// active mark and its board.
pub open spec fn view_inv(v: (Seq<Option<Mark>>, GameState, Mark)) -> bool {
    &&& v.1 == GameState::XTurn ==> v.2 == Mark::X && !spec_over(v.0)
    &&& v.1 == GameState::OTurn ==> v.2 == Mark::O && !spec_over(v.0)
    &&& v.1 == GameState::GameOver ==> spec_over(v.0)
}

/// A run of accepted moves preserves the controller's consistency, and while
/// it stays in the turn states the active mark toggles once per move.
proof fn lemma_run_aux(v: (Seq<Option<Mark>>, GameState, Mark), moves: Seq<Cell>)
    requires
        view_inv(v),
        all_accepted(v, moves),
    ensures
        view_inv(run_steps(v, moves)),
        moves.len() > 0 ==> run_steps(v, moves).1 != GameState::GameNotInProgress,
        (run_steps(v, moves).1 == GameState::XTurn || run_steps(v, moves).1 == GameState::OTurn)
            ==> run_steps(v, moves).2 == (if moves.len() % 2 == 0 {
            v.2
        } else {
            v.2.spec_next()
        }),
    decreases moves.len(),
{
    if moves.len() > 0 {
        let v1 = play_step(v, moves[0]);
        let rest = moves.drop_first();
        lemma_run_aux(v1, rest);
        let vf = run_steps(v, moves);
        assert(vf == run_steps(v1, rest));
        if vf.1 == GameState::XTurn || vf.1 == GameState::OTurn {
            if rest.len() == 0 {
                assert(vf == v1);
                assert(vf.2 == v.2.spec_next());
            } else {
                assert(all_accepted(v1, rest));
                assert(v1.1 == GameState::XTurn || v1.1 == GameState::OTurn);
                assert(v1.2 == v.2.spec_next());
                assert(vf.2 == (if rest.len() % 2 == 0 {
                    v1.2
                } else {
                    v1.2.spec_next()
                }));
                assert(v.2.spec_next().spec_next() == v.2);
                assert(rest.len() % 2 == 0 <==> moves.len() % 2 == 1);
            }
        }
    }
}

/// Turn alternation: starting fresh, each accepted move toggles the active
/// mark from X to O and back while the game stays open, and the run leaves
/// the turn states exactly when the board reports the game over.
pub proof fn lemma_turn_alternation(moves: Seq<Cell>)
    requires
        all_accepted(fresh_session(), moves),
    ensures
        view_inv(run_steps(fresh_session(), moves)),
        run_steps(fresh_session(), moves).1 == GameState::GameOver <==> spec_over(
            run_steps(fresh_session(), moves).0,
        ),
        (run_steps(fresh_session(), moves).1 == GameState::XTurn || run_steps(
            fresh_session(),
            moves,
        ).1 == GameState::OTurn) ==> run_steps(fresh_session(), moves).2 == (
        if moves.len() % 2 == 0 {
            Mark::X
        } else {
            Mark::O
        }),
{
    lemma_empty_board_fresh();
    lemma_run_aux(fresh_session(), moves);
}

} // verus!

//! The board state: a write-once mapping from cells to marks, with the
//! winner and the game-over flag recomputed on every accepted move.

use vstd::prelude::*;

use crate::board::{Cell, Line, Mark};

verus! {

/// The board with no marks on it.
pub open spec fn empty_board() -> Seq<Option<Mark>> {
    Seq::new(9, |i: int| None::<Mark>)
}

/// The mark covering all three cells of `line`, if the three cells hold the
/// same mark; `None` otherwise.
pub open spec fn line_winner(s: Seq<Option<Mark>>, line: Line) -> Option<Mark> {
    let c = line.spec_cells();
    if s[c[0].idx()] is Some && s[c[1].idx()] == s[c[0].idx()] && s[c[2].idx()] == s[c[0].idx()] {
        s[c[0].idx()]
    } else {
        None
    }
}

/// The order in which the lines are examined for a win: rows top to bottom,
/// then columns left to right, then the two diagonals.
pub open spec fn detection_order() -> Seq<Line> {
    seq![
        Line::TopRow,
        Line::MiddleRow,
        Line::BottomRow,
        Line::LeftColumn,
        Line::MiddleColumn,
        Line::RightColumn,
        Line::UpDiagonal,
        Line::DownDiagonal,
    ]
}

/// The first completed line at or after position `i` of the detection order,
/// with its mark.
pub open spec fn winner_from(s: Seq<Option<Mark>>, i: int) -> Option<(Mark, Line)>
    decreases 8 - i,
{
    if i < 0 || i >= 8 {
        None
    } else {
        let line = detection_order()[i];
        match line_winner(s, line) {
            Some(m) => Some((m, line)),
            None => winner_from(s, i + 1),
        }
    }
}

/// The board's winner: the first completed line in detection order, with the
/// mark that covers it.
pub open spec fn spec_winner(s: Seq<Option<Mark>>) -> Option<(Mark, Line)> {
    winner_from(s, 0)
}

/// How many cells of the board hold a mark.
pub open spec fn mark_count(s: Seq<Option<Mark>>) -> nat
    decreases s.len(),
{
    if s.len() == 0 {
        0
    } else {
        mark_count(s.drop_last()) + (if s.last() is Some {
            1nat
        } else {
            0nat
        })
    }
}

/// Whether the game on board `s` has ended: a line is complete or every cell
/// is taken.
pub open spec fn spec_over(s: Seq<Option<Mark>>) -> bool {
    spec_winner(s) is Some || mark_count(s) == 9
}

/// The nine cells' marks. The fields are private: every mutation goes through
/// `set`, which recomputes the winner and the game-over flag, so the two can
/// never be stale relative to the marks.
#[derive(Clone, Copy)]
pub struct Game {
    marks: [Option<Mark>; 9],
    winner: Option<(Mark, Line)>,
    over: bool,
}

impl View for Game {
    type V = Seq<Option<Mark>>;

    closed spec fn view(&self) -> Seq<Option<Mark>> {
        self.marks@
    }
}

/// The lines in detection order, as values.
fn detection_lines() -> (r: [Line; 8])
    ensures
        r@ == detection_order(),
{
    let r = [
        Line::TopRow,
        Line::MiddleRow,
        Line::BottomRow,
        Line::LeftColumn,
        Line::MiddleColumn,
        Line::RightColumn,
        Line::UpDiagonal,
        Line::DownDiagonal,
    ];
    proof {
        assert(r@ =~= detection_order());
    }
    r
}

/// How many of the nine cells hold a mark.
fn count_marks(marks: &[Option<Mark>; 9]) -> (r: usize)
    ensures
        r as nat == mark_count(marks@),
{
    let mut n: usize = 0;
    let mut i: usize = 0;
    while i < 9
        invariant
            0 <= i <= 9,
            n <= i,
            n as nat == mark_count(marks@.take(i as int)),
        decreases 9 - i,
    {
        proof {
            assert(marks@.take(i as int + 1).drop_last() =~= marks@.take(i as int));
            assert(marks@.take(i as int + 1).last() == marks@[i as int]);
        }
        if marks[i].is_some() {
            n = n + 1;
        }
        i = i + 1;
    }
    proof {
        assert(marks@.take(9) =~= marks@);
    }
    n
}

impl Game {
    #[verifier::type_invariant]
    spec fn inv(self) -> bool {
        &&& self.winner == spec_winner(self.marks@)
        &&& self.over == spec_over(self.marks@)
    }

    /// Walks the eight lines in detection order and returns the first that is
    /// covered by a single mark, together with that mark.
    fn determine_winner(marks: &[Option<Mark>; 9]) -> (r: Option<(Mark, Line)>)
        ensures
            r == spec_winner(marks@),
    {
        let lines = detection_lines();
        let mut i: usize = 0;
        while i < 8
            invariant
                0 <= i <= 8,
                lines@ == detection_order(),
                winner_from(marks@, 0) == winner_from(marks@, i as int),
            decreases 8 - i,
        {
            let line = lines[i];
            let cs = line.cells();
            let m0 = marks[cs[0].index()];
            let m1 = marks[cs[1].index()];
            let m2 = marks[cs[2].index()];
            if let (Some(a), Some(b), Some(c)) = (m0, m1, m2) {
                if a == b && a == c {
                    return Some((a, line));
                }
            }
            i = i + 1;
        }
        None
    }

    /// A fresh, empty board.
    pub fn new() -> (g: Game)
        ensures
            g@ == empty_board(),
    {
        let marks = [None, None, None, None, None, None, None, None, None];
        let winner = Game::determine_winner(&marks);
        let over = winner.is_some() || count_marks(&marks) == 9;
        let g = Game { marks, winner, over };
        proof {
            assert(g@ =~= empty_board());
        }
        g
    }

    /// Every board has exactly nine cells.
    pub proof fn lemma_len(&self)
        ensures
            self@.len() == 9,
    {
    }

    /// The winning mark and its line, or `None` while nobody has won.
    pub fn winner(&self) -> (r: Option<(Mark, Line)>)
        ensures
            r == spec_winner(self@),
    {
        proof {
            use_type_invariant(&*self);
        }
        self.winner
    }

    /// Whether the game has ended, by a win or by a full board.
    pub fn over(&self) -> (r: bool)
        ensures
            r == spec_over(self@),
    {
        proof {
            use_type_invariant(&*self);
        }
        self.over
    }

    /// The mark on `cell`; `None` means the cell is empty.
    pub fn get(&self, cell: Cell) -> (r: Option<Mark>)
        ensures
            r == self@[cell.idx()],
    {
        self.marks[cell.index()]
    }

    /// Records `mark` at `cell` and recomputes the winner and the game-over
    /// flag. A move onto an occupied cell is ignored: marks are write-once.
    pub fn set(&mut self, cell: Cell, mark: Mark)
        ensures
            old(self)@[cell.idx()] is Some ==> *final(self) == *old(self),
            old(self)@[cell.idx()] is None ==> final(self)@ == old(self)@.update(
                cell.idx(),
                Some(mark),
            ),
    {
        proof {
            use_type_invariant(&*self);
        }
        let i = cell.index();
        if self.marks[i].is_some() {
            return ;
        }
        let mut marks = self.marks;
        marks[i] = Some(mark);
        let winner = Game::determine_winner(&marks);
        let over = winner.is_some() || count_marks(&marks) == 9;
        *self = Game { marks, winner, over };
    }
}

/// `mark_count` never exceeds the board's size.
pub proof fn lemma_mark_count_le_len(s: Seq<Option<Mark>>)
    ensures
        mark_count(s) <= s.len(),
    decreases s.len(),
{
    if s.len() > 0 {
        lemma_mark_count_le_len(s.drop_last());
    }
}

/// A board whose every cell is taken has `mark_count` equal to its size.
pub proof fn lemma_mark_count_full(s: Seq<Option<Mark>>)
    requires
        forall|i: int| 0 <= i < s.len() ==> s[i] is Some,
    ensures
        mark_count(s) == s.len(),
    decreases s.len(),
{
    if s.len() > 0 {
        assert(forall|i: int|
            0 <= i < s.drop_last().len() ==> s.drop_last()[i] is Some) by {
            assert(forall|i: int| 0 <= i < s.len() - 1 ==> s.drop_last()[i] == s[i]);
        }
        lemma_mark_count_full(s.drop_last());
    }
}

/// A board whose every cell is empty carries no marks.
pub proof fn lemma_mark_count_none(s: Seq<Option<Mark>>)
    requires
        forall|i: int| 0 <= i < s.len() ==> s[i] is None,
    ensures
        mark_count(s) == 0,
    decreases s.len(),
{
    if s.len() > 0 {
        assert(forall|i: int|
            0 <= i < s.drop_last().len() ==> s.drop_last()[i] is None) by {
            assert(forall|i: int| 0 <= i < s.len() - 1 ==> s.drop_last()[i] == s[i]);
        }
        lemma_mark_count_none(s.drop_last());
    }
}

/// A fresh board has no marks, no winner, and the game on it is not over.
pub proof fn lemma_empty_board_fresh()
    ensures
        mark_count(empty_board()) == 0,
        spec_winner(empty_board()) is None,
        !spec_over(empty_board()),
{
    let s = empty_board();
    lemma_mark_count_none(s);
    assert(forall|l: Line| #[trigger] line_winner(s, l) is None);
    lemma_no_line_no_winner(s);
}

/// A board with fewer marks than cells has an empty cell.
pub proof fn lemma_empty_cell_exists(s: Seq<Option<Mark>>)
    requires
        s.len() == 9,
        mark_count(s) < 9,
    ensures
        exists|i: int| 0 <= i < 9 && s[i] is None,
{
    if forall|i: int| 0 <= i < 9 ==> #[trigger] s[i] is Some {
        lemma_mark_count_full(s);
    }
}

/// Whether cell index `i` belongs to `line`.
pub open spec fn on_line(line: Line, i: int) -> bool {
    ||| line.spec_cells()[0].idx() == i
    ||| line.spec_cells()[1].idx() == i
    ||| line.spec_cells()[2].idx() == i
}

/// The board holding `m` on every cell of `line` and nothing elsewhere.
pub open spec fn single_line_board(line: Line, m: Mark) -> Seq<Option<Mark>> {
    Seq::new(9, |i: int| if on_line(line, i) {
        Some(m)
    } else {
        None
    })
}

/// Three identical marks along any line, alone on the board, win the game:
/// the board's winner is that mark along that line and the game is over.
pub proof fn lemma_single_line_wins(line: Line, m: Mark)
    ensures
        spec_winner(single_line_board(line, m)) == Some((m, line)),
        spec_over(single_line_board(line, m)),
{
    reveal_with_fuel(winner_from, 9);
    let s = single_line_board(line, m);
    match line {
        Line::BottomRow => assert(spec_winner(s) == Some((m, line))),
        Line::MiddleRow => assert(spec_winner(s) == Some((m, line))),
        Line::TopRow => assert(spec_winner(s) == Some((m, line))),
        Line::LeftColumn => assert(spec_winner(s) == Some((m, line))),
        Line::MiddleColumn => assert(spec_winner(s) == Some((m, line))),
        Line::RightColumn => assert(spec_winner(s) == Some((m, line))),
        Line::UpDiagonal => assert(spec_winner(s) == Some((m, line))),
        Line::DownDiagonal => assert(spec_winner(s) == Some((m, line))),
    }
}

/// A board on which no line is covered by a single mark has no winner.
pub proof fn lemma_no_line_no_winner(s: Seq<Option<Mark>>)
    requires
        forall|l: Line| #[trigger] line_winner(s, l) is None,
    ensures
        spec_winner(s) is None,
{
    reveal_with_fuel(winner_from, 9);
    assert(line_winner(s, Line::TopRow) is None);
    assert(line_winner(s, Line::MiddleRow) is None);
    assert(line_winner(s, Line::BottomRow) is None);
    assert(line_winner(s, Line::LeftColumn) is None);
    assert(line_winner(s, Line::MiddleColumn) is None);
    assert(line_winner(s, Line::RightColumn) is None);
    assert(line_winner(s, Line::UpDiagonal) is None);
    assert(line_winner(s, Line::DownDiagonal) is None);
}

/// A full board with no completed line is a tie: the game is over and the
/// winner is `None`.
pub proof fn lemma_full_board_tie(s: Seq<Option<Mark>>)
    requires
        s.len() == 9,
        forall|i: int| 0 <= i < 9 ==> s[i] is Some,
        forall|l: Line| #[trigger] line_winner(s, l) is None,
    ensures
        spec_winner(s) is None,
        spec_over(s),
{
    lemma_no_line_no_winner(s);
    lemma_mark_count_full(s);
}

/// A board with an empty cell and no completed line is still in play.
pub proof fn lemma_board_not_over(s: Seq<Option<Mark>>)
    requires
        s.len() == 9,
        mark_count(s) < 9,
        forall|l: Line| #[trigger] line_winner(s, l) is None,
    ensures
        !spec_over(s),
{
    lemma_no_line_no_winner(s);
}

impl Default for Game {
    /// The same fresh board that `new` returns.
    fn default() -> (g: Game)
        ensures
            g@ == empty_board(),
    {
        Game::new()
    }
}

} // verus!

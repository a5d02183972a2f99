//! The computer opponent: weighs every empty cell by scanning the eight
//! lines, then picks the empty cell with the best weight.
//!
//! The weighing is a one-ply greedy heuristic, not a search. At unit scale a
//! cell earns, per line it sits on: 20 for completing a line of two computer
//! marks (a win now), 10 for filling the gap in a line of two opposing marks
//! (a block now), 2 for being the center cell of the board, and 1 under the
//! corner pattern below. The difficulty flips the scale's sign: a negative
//! scale makes the computer chase the worst cell instead of the best.

use vstd::prelude::*;

use rand::seq::SliceRandom;

use crate::board::{Cell, Line, Mark};
use crate::game::{lemma_empty_cell_exists, mark_count, Game};
use crate::settings::Difficulty;

verus! {

/// Points that `line` gives cell index `i` for a move that completes a line
/// of two computer marks, at unit scale.
pub open spec fn win_points(s: Seq<Option<Mark>>, computer: Mark, line: Line, i: int) -> int {
    let c = line.spec_cells();
    let m0 = s[c[0].idx()];
    let m1 = s[c[1].idx()];
    let m2 = s[c[2].idx()];
    if m0 == Some(computer) && m1 == Some(computer) && m2 is None && i == c[2].idx() {
        20
    } else if m0 == Some(computer) && m2 == Some(computer) && m1 is None && i == c[1].idx() {
        20
    } else if m1 == Some(computer) && m2 == Some(computer) && m0 is None && i == c[0].idx() {
        20
    } else {
        0
    }
}

/// Points that `line` gives cell index `i` for a move that blocks a line of
/// two opposing marks, at unit scale.
pub open spec fn block_points(s: Seq<Option<Mark>>, computer: Mark, line: Line, i: int) -> int {
    let c = line.spec_cells();
    let m0 = s[c[0].idx()];
    let m1 = s[c[1].idx()];
    let m2 = s[c[2].idx()];
    if m0 is Some && m1 == m0 && m0 != Some(computer) && m2 is None && i == c[2].idx() {
        10
    } else if m0 is Some && m2 == m0 && m0 != Some(computer) && m1 is None && i == c[1].idx() {
        10
    } else if m1 is Some && m2 == m1 && m1 != Some(computer) && m0 is None && i == c[0].idx() {
        10
    } else {
        0
    }
}

/// Points that `line` gives cell index `i` for being the board's empty center
/// cell, at unit scale. Every line whose middle cell is the center stacks its
/// own contribution.
pub open spec fn center_points(s: Seq<Option<Mark>>, line: Line, i: int) -> int {
    let c = line.spec_cells();
    if s[c[1].idx()] is None && c[1] == Cell::MiddleMiddle && i == c[1].idx() {
        2
    } else {
        0
    }
}

/// Points that `line` gives cell index `i` under the corner pattern, at unit
/// scale: when the line's two end cells are empty and the first is a corner,
/// both ends earn a point; otherwise an empty corner at either end earns one,
/// the first end taking precedence.
pub open spec fn corner_points(s: Seq<Option<Mark>>, line: Line, i: int) -> int {
    let c = line.spec_cells();
    let m0 = s[c[0].idx()];
    let m2 = s[c[2].idx()];
    if m0 is None && m2 is None && c[0].spec_is_corner() {
        (if i == c[0].idx() {
            1int
        } else {
            0int
        }) + (if i == c[2].idx() {
            1int
        } else {
            0int
        })
    } else if m0 is None && c[0].spec_is_corner() {
        if i == c[0].idx() {
            1
        } else {
            0
        }
    } else if m2 is None && c[2].spec_is_corner() {
        if i == c[2].idx() {
            1
        } else {
            0
        }
    } else {
        0
    }
}

/// Everything `line` gives cell index `i`, at unit scale.
pub open spec fn line_points(s: Seq<Option<Mark>>, computer: Mark, line: Line, i: int) -> int {
    win_points(s, computer, line, i) + block_points(s, computer, line, i) + center_points(
        s,
        line,
        i,
    ) + corner_points(s, line, i)
}

/// The points the first `n` lines of `Line::all_lines` give cell index `i`,
/// at unit scale.
pub open spec fn weight_upto(s: Seq<Option<Mark>>, computer: Mark, n: int, i: int) -> int
    decreases n,
{
    if n <= 0 {
        0
    } else {
        weight_upto(s, computer, n - 1, i) + line_points(s, computer, Line::all_lines()[n - 1], i)
    }
}

/// The full weight of cell index `i` at unit scale: the sum of what all eight
/// lines give it.
pub open spec fn cell_weight(s: Seq<Option<Mark>>, computer: Mark, i: int) -> int {
    weight_upto(s, computer, 8, i)
}

/// The three cells of any line sit at three different indices.
proof fn lemma_line_cells_distinct(l: Line)
    ensures
        l.spec_cells()[0].idx() != l.spec_cells()[1].idx(),
        l.spec_cells()[0].idx() != l.spec_cells()[2].idx(),
        l.spec_cells()[1].idx() != l.spec_cells()[2].idx(),
        0 <= l.spec_cells()[0].idx() < 9,
        0 <= l.spec_cells()[1].idx() < 9,
        0 <= l.spec_cells()[2].idx() < 9,
{
    match l {
        Line::BottomRow => {},
        Line::MiddleRow => {},
        Line::TopRow => {},
        Line::LeftColumn => {},
        Line::MiddleColumn => {},
        Line::RightColumn => {},
        Line::UpDiagonal => {},
        Line::DownDiagonal => {},
    }
}

/// A cell's accumulated weight stays within fixed bounds.
proof fn lemma_weight_bounds(s: Seq<Option<Mark>>, computer: Mark, n: int, i: int)
    requires
        0 <= n <= 8,
    ensures
        0 <= weight_upto(s, computer, n, i) <= 34 * n,
    decreases n,
{
    if n > 0 {
        lemma_weight_bounds(s, computer, n - 1, i);
    }
}

/// `c` is what the selector picks on board `s` at the given scale: an empty
/// cell whose scaled weight no empty cell beats, and that no earlier empty
/// cell (in row-major order) ties.
pub open spec fn is_best_choice(s: Seq<Option<Mark>>, computer: Mark, scale: int, c: Cell) -> bool {
    &&& s[c.idx()] is None
    &&& forall|j: int|
        0 <= j < 9 && s[j] is None ==> scale * (#[trigger] cell_weight(s, computer, j)) <= scale
            * cell_weight(s, computer, c.idx())
    &&& forall|j: int|
        0 <= j < c.idx() && s[j] is None ==> scale * (#[trigger] cell_weight(s, computer, j))
            < scale * cell_weight(s, computer, c.idx())
}

/// Relies on rand's `SliceRandom::choose`, which returns `Some` of one of the
/// slice's elements whenever the slice is non-empty.
#[verifier::external_body]
fn pick_sign(options: &[i32; 2]) -> (r: i32)
    ensures
        r == options@[0] || r == options@[1],
{
    *options.choose(&mut rand::thread_rng()).expect("a two-element slice is not empty")
}

/// What one line adds to the scores of its three cells, first to last.
#[verifier::rlimit(80)]
fn line_deltas(game: &Game, line: Line, computer: Mark, scale: i32) -> (d: (i32, i32, i32))
    requires
        scale == 1 || scale == -1,
    ensures
        d.0 == scale * line_points(game@, computer, line, line.spec_cells()[0].idx()),
        d.1 == scale * line_points(game@, computer, line, line.spec_cells()[1].idx()),
        d.2 == scale * line_points(game@, computer, line, line.spec_cells()[2].idx()),
        -34 <= d.0 <= 34,
        -34 <= d.1 <= 34,
        -34 <= d.2 <= 34,
{
    proof {
        lemma_line_cells_distinct(line);
    }
    let ghost s = game@;
    let ghost j0 = line.spec_cells()[0].idx();
    let ghost j1 = line.spec_cells()[1].idx();
    let ghost j2 = line.spec_cells()[2].idx();
    let cs = line.cells();
    let m0 = game.get(cs[0]);
    let m1 = game.get(cs[1]);
    let m2 = game.get(cs[2]);
    // a move that wins along this line
    let mut wd0: i32 = 0;
    let mut wd1: i32 = 0;
    let mut wd2: i32 = 0;
    match (m0, m1, m2) {
        (Some(a), Some(b), None) if a == b && b == computer => {
            wd2 = 20 * scale;
        },
        (Some(a), None, Some(b)) if a == b && b == computer => {
            wd1 = 20 * scale;
        },
        (None, Some(a), Some(b)) if a == b && b == computer => {
            wd0 = 20 * scale;
        },
        _ => {},
    }
    proof {
        assert(wd0 == scale * win_points(s, computer, line, j0));
        assert(wd1 == scale * win_points(s, computer, line, j1));
        assert(wd2 == scale * win_points(s, computer, line, j2));
    }
    // a move that blocks an opposing win along this line
    let mut bd0: i32 = 0;
    let mut bd1: i32 = 0;
    let mut bd2: i32 = 0;
    match (m0, m1, m2) {
        (Some(a), Some(b), None) if a == b && b != computer => {
            bd2 = 10 * scale;
        },
        (Some(a), None, Some(b)) if a == b && b != computer => {
            bd1 = 10 * scale;
        },
        (None, Some(a), Some(b)) if a == b && b != computer => {
            bd0 = 10 * scale;
        },
        _ => {},
    }
    proof {
        assert(bd0 == scale * block_points(s, computer, line, j0));
        assert(bd1 == scale * block_points(s, computer, line, j1));
        assert(bd2 == scale * block_points(s, computer, line, j2));
    }
    // the board's empty center cell
    let mut cd1: i32 = 0;
    match (m0, m1, m2) {
        (_, None, _) if cs[1] == Cell::MiddleMiddle => {
            cd1 = 2 * scale;
        },
        _ => {},
    }
    proof {
        assert(center_points(s, line, j0) == 0);
        assert(cd1 == scale * center_points(s, line, j1));
        assert(center_points(s, line, j2) == 0);
    }
    // the corner pattern on the line's two end cells
    let mut kd0: i32 = 0;
    let mut kd2: i32 = 0;
    match (m0, m2) {
        (None, None) if cs[0].is_corner() => {
            kd0 = 1 * scale;
            kd2 = 1 * scale;
        },
        (None, _) if cs[0].is_corner() => {
            kd0 = 1 * scale;
        },
        (_, None) if cs[2].is_corner() => {
            kd2 = 1 * scale;
        },
        _ => {},
    }
    proof {
        assert(kd0 == scale * corner_points(s, line, j0));
        assert(corner_points(s, line, j1) == 0);
        assert(kd2 == scale * corner_points(s, line, j2));
    }
    (wd0 + bd0 + kd0, wd1 + bd1 + cd1, wd2 + bd2 + kd2)
}

/// Scores all nine cells: each entry holds `scale` times the cell's weight.
#[verifier::rlimit(80)]
fn compute_weights(game: &Game, computer: Mark, scale: i32) -> (w: [i32; 9])
    requires
        scale == 1 || scale == -1,
    ensures
        forall|i: int| 0 <= i < 9 ==> #[trigger] w@[i] == scale * cell_weight(game@, computer, i),
{
    let lines = Line::all();
    let mut w: [i32; 9] = [0, 0, 0, 0, 0, 0, 0, 0, 0];
    proof {
        assert forall|i: int| 0 <= i < 9 implies #[trigger] w@[i] == scale * weight_upto(
            game@,
            computer,
            0,
            i,
        ) by {}
    }
    let mut k: usize = 0;
    while k < 8
        invariant
            0 <= k <= 8,
            scale == 1 || scale == -1,
            lines@ == Line::all_lines(),
            forall|i: int|
                0 <= i < 9 ==> #[trigger] w@[i] == scale * weight_upto(
                    game@,
                    computer,
                    k as int,
                    i,
                ),
        decreases 8 - k,
    {
        let line = lines[k];
        let cs = line.cells();
        let i0 = cs[0].index();
        let i1 = cs[1].index();
        let i2 = cs[2].index();
        let (d0, d1, d2) = line_deltas(game, line, computer, scale);
        proof {
            lemma_line_cells_distinct(line);
            assert forall|i: int| 0 <= i < 9 implies -272 <= #[trigger] w@[i] <= 272 by {
                lemma_weight_bounds(game@, computer, k as int, i);
            }
        }
        w[i0] = w[i0] + d0;
        w[i1] = w[i1] + d1;
        w[i2] = w[i2] + d2;
        proof {
            assert forall|i: int| 0 <= i < 9 implies #[trigger] w@[i] == scale * weight_upto(
                game@,
                computer,
                k as int + 1,
                i,
            ) by {
                if i != i0 as int && i != i1 as int && i != i2 as int {
                    assert(line_points(game@, computer, line, i) == 0);
                }
            }
        }
        k = k + 1;
    }
    w
}

/// Picks the empty cell with the greatest score, the first such cell in
/// row-major order when several tie.
fn select_cell(game: &Game, w: &[i32; 9]) -> (r: Cell)
    requires
        exists|i: int| 0 <= i < 9 && game@[i] is None,
    ensures
        game@[r.idx()] is None,
        forall|j: int| 0 <= j < 9 && game@[j] is None ==> #[trigger] w@[j] <= w@[r.idx()],
        forall|j: int| 0 <= j < r.idx() && game@[j] is None ==> #[trigger] w@[j] < w@[r.idx()],
{
    let cells = Cell::all();
    let mut best: usize = 9;
    let mut i: usize = 0;
    while i < 9
        invariant
            0 <= i <= 9,
            best <= 9,
            cells@ == Cell::all_cells(),
            forall|j: int| 0 <= j < 9 ==> (#[trigger] cells@[j]).idx() == j,
            best == 9 ==> forall|j: int| 0 <= j < i ==> game@[j] is Some,
            best < 9 ==> best < i && game@[best as int] is None,
            best < 9 ==> forall|j: int|
                0 <= j < i && game@[j] is None ==> #[trigger] w@[j] <= w@[best as int],
            best < 9 ==> forall|j: int|
                0 <= j < best as int && game@[j] is None ==> #[trigger] w@[j] < w@[best as int],
        decreases 9 - i,
    {
        let c = cells[i];
        if game.get(c).is_none() {
            if best == 9 || w[i] > w[best] {
                best = i;
            }
        }
        i = i + 1;
    }
    if best == 9 {
        proof {
            let witness = choose|j: int| 0 <= j < 9 && game@[j] is None;
            assert(game@[witness] is Some);
            assert(false);
        }
        // unreachable: some cell is empty
        Cell::MiddleMiddle
    } else {
        cells[best]
    }
}

/// Chooses the computer's move: an empty cell that maximizes the scaled
/// weight, where Hard plays the best cell, Easy deliberately plays the worst,
/// and Medium draws the scale's sign at random on each call.
pub fn generate_computer_input(game: &Game, computer: Mark, difficulty: Difficulty) -> (r: Cell)
    requires
        mark_count(game@) < 9,
    ensures
        game@[r.idx()] is None,
        difficulty == Difficulty::Hard ==> is_best_choice(game@, computer, 1, r),
        difficulty == Difficulty::Easy ==> is_best_choice(game@, computer, -1, r),
        difficulty == Difficulty::Medium ==> is_best_choice(game@, computer, 1, r)
            || is_best_choice(game@, computer, -1, r),
{
    let scale: i32 = match difficulty {
        Difficulty::Easy => -1,
        Difficulty::Medium => pick_sign(&[-1, 1]),
        Difficulty::Hard => 1,
    };
    let w = compute_weights(game, computer, scale);
    proof {
        game.lemma_len();
        lemma_empty_cell_exists(game@);
    }
    let r = select_cell(game, &w);
    proof {
        assert forall|j: int| 0 <= j < 9 && game@[j] is None implies (scale as int) * (
        #[trigger] cell_weight(game@, computer, j)) <= (scale as int) * cell_weight(
            game@,
            computer,
            r.idx(),
        ) by {
            assert(w@[j] == scale * cell_weight(game@, computer, j));
            assert(w@[r.idx()] == scale * cell_weight(game@, computer, r.idx()));
            assert(w@[j] <= w@[r.idx()]);
        }
        assert forall|j: int| 0 <= j < r.idx() && game@[j] is None implies (scale as int) * (
        #[trigger] cell_weight(game@, computer, j)) < (scale as int) * cell_weight(
            game@,
            computer,
            r.idx(),
        ) by {
            assert(w@[j] == scale * cell_weight(game@, computer, j));
            assert(w@[r.idx()] == scale * cell_weight(game@, computer, r.idx()));
            assert(w@[j] < w@[r.idx()]);
        }
        assert(is_best_choice(game@, computer, scale as int, r));
    }
    r
}

} // verus!

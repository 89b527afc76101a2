use vstd::prelude::*;

use crate::board::{cell_at, cell_index, empty_grid, in_bounds, Cell, MoveError, N};
use crate::game::{
    along, five_from, five_in_row, holds_along, initial_view, other, step, stone_of, wins_at, Axis,
    Color, GameView, Outcome,
};

verus! {

/// The state after the moves of `moves` are requested one after another from `s`.
pub open spec fn play(s: GameView, moves: Seq<(int, int)>) -> GameView
    decreases moves.len(),
{
    if moves.len() == 0 {
        s
    } else {
        play(step(s, moves[0].0, moves[0].1).0, moves.subrange(1, moves.len() as int))
    }
}

/// Distinct cells of the board have distinct positions in the sequence of cells.
pub proof fn lemma_cell_index_injective(x1: int, y1: int, x2: int, y2: int)
    requires
        in_bounds(x1, y1),
        in_bounds(x2, y2),
        cell_index(x1, y1) == cell_index(x2, y2),
    ensures
        x1 == x2,
        y1 == y2,
{
}

/// Every cell of the initial board is empty, so a reset leaves no stone.
pub proof fn lemma_initial_board_empty(x: int, y: int)
    requires
        in_bounds(x, y),
    ensures
        cell_at(initial_view().grid, x, y) == Cell::Empty,
        cell_at(empty_grid(), x, y) == Cell::Empty,
        initial_view().turn == Color::Black,
        initial_view().outcome == Outcome::InProgress,
{
}

/// A move off the board is rejected with `OutOfBounds` and changes nothing.
pub proof fn lemma_out_of_bounds_rejected(s: GameView, x: int, y: int)
    requires
        x >= N || y >= N,
    ensures
        step(s, x, y) == (s, Err::<Outcome, MoveError>(MoveError::OutOfBounds)),
{
}

/// In a game in progress, a move onto a stone is rejected with `CellOccupied`
/// and changes nothing, the turn included.
pub proof fn lemma_occupied_rejected(s: GameView, x: int, y: int)
    requires
        in_bounds(x, y),
        s.outcome == Outcome::InProgress,
        cell_at(s.grid, x, y) != Cell::Empty,
    ensures
        step(s, x, y) == (s, Err::<Outcome, MoveError>(MoveError::CellOccupied)),
        step(s, x, y).0.turn == s.turn,
{
}

/// A rejected move changes nothing; an accepted one that does not win passes
/// the turn to the other color.
pub proof fn lemma_turn_changes_only_on_accepted_moves(s: GameView, x: int, y: int)
    ensures
        step(s, x, y).1 is Err ==> step(s, x, y).0 == s,
        step(s, x, y).1 == Ok::<Outcome, MoveError>(Outcome::InProgress) ==> step(s, x, y).0.turn
            == other(s.turn),
{
}

/// Of two accepted moves in a row, the first passes the turn, and the stones
/// they leave on the board have the two colors in turn.
pub proof fn lemma_accepted_moves_alternate(s: GameView, x1: int, y1: int, x2: int, y2: int)
    requires
        s.grid.len() == N * N,
        step(s, x1, y1).1 is Ok,
        step(step(s, x1, y1).0, x2, y2).1 is Ok,
    ensures
        step(s, x1, y1).0.turn == other(s.turn),
        cell_at(step(step(s, x1, y1).0, x2, y2).0.grid, x1, y1) == stone_of(s.turn),
        cell_at(step(step(s, x1, y1).0, x2, y2).0.grid, x2, y2) == stone_of(other(s.turn)),
{
    let s1 = step(s, x1, y1).0;
    assert(cell_at(s1.grid, x1, y1) == stone_of(s.turn));
    assert(cell_at(s1.grid, x2, y2) == Cell::Empty);
}

/// In a game in progress, a stone placed on an empty cell so that it lies in a
/// row of `len >= 5` cells of its color along `axis` (steps `lo` to
/// `lo + len - 1` from it) wins the game for its color.
pub proof fn lemma_long_run_wins(s: GameView, x: int, y: int, axis: Axis, lo: int, len: int)
    requires
        s.grid.len() == N * N,
        s.outcome == Outcome::InProgress,
        in_bounds(x, y),
        cell_at(s.grid, x, y) == Cell::Empty,
        len >= 5,
        lo <= 0 < lo + len,
        forall|k: int|
            lo <= k < lo + len && k != 0 ==> #[trigger] holds_along(s.grid, axis, x, y, k, stone_of(s.turn)),
    ensures
        step(s, x, y) == (
            GameView {
                grid: s.grid.update(cell_index(x, y), stone_of(s.turn)),
                turn: s.turn,
                outcome: Outcome::Won(s.turn),
            },
            Ok::<Outcome, MoveError>(Outcome::Won(s.turn)),
        ),
{
    let c = stone_of(s.turn);
    let g = s.grid.update(cell_index(x, y), c);
    let w = if lo < -4 { -4 } else { lo };
    assert forall|k: int| w <= k <= w + 4 implies #[trigger] holds_along(g, axis, x, y, k, c) by {
        let p = along(axis, x, y, k);
        if k != 0 {
            assert(holds_along(s.grid, axis, x, y, k, c));
            if cell_index(p.0, p.1) == cell_index(x, y) {
                lemma_cell_index_injective(p.0, p.1, x, y);
            }
        }
    }
    assert(five_from(g, axis, x, y, w, c));
    assert(five_in_row(g, axis, x, y, c));
    assert(wins_at(g, x, y, c));
}

/// In a game in progress, a stone that completes five in a row along any axis
/// (the other four already on the board, steps `lo` to `lo + 4` from it) wins
/// the game for its color.
pub proof fn lemma_five_wins(s: GameView, x: int, y: int, axis: Axis, lo: int)
    requires
        s.grid.len() == N * N,
        s.outcome == Outcome::InProgress,
        in_bounds(x, y),
        cell_at(s.grid, x, y) == Cell::Empty,
        -4 <= lo <= 0,
        forall|k: int|
            lo <= k <= lo + 4 && k != 0 ==> #[trigger] holds_along(s.grid, axis, x, y, k, stone_of(s.turn)),
    ensures
        step(s, x, y).1 == Ok::<Outcome, MoveError>(Outcome::Won(s.turn)),
        step(s, x, y).0.outcome == Outcome::Won(s.turn),
{
    lemma_long_run_wins(s, x, y, axis, lo, 5);
}

/// In a game in progress, an accepted move after which no line through the
/// new stone holds five of its color leaves the game in progress and passes
/// the turn.
pub proof fn lemma_short_rows_do_not_win(s: GameView, x: int, y: int)
    requires
        s.outcome == Outcome::InProgress,
        in_bounds(x, y),
        cell_at(s.grid, x, y) == Cell::Empty,
        !wins_at(s.grid.update(cell_index(x, y), stone_of(s.turn)), x, y, stone_of(s.turn)),
    ensures
        step(s, x, y).1 == Ok::<Outcome, MoveError>(Outcome::InProgress),
        step(s, x, y).0.outcome == Outcome::InProgress,
        step(s, x, y).0.turn == other(s.turn),
{
}

/// Once a game is won, every move on the board is rejected with `GameOver`.
pub proof fn lemma_won_game_rejects_moves(s: GameView, x: int, y: int)
    requires
        s.outcome is Won,
        in_bounds(x, y),
    ensures
        step(s, x, y) == (s, Err::<Outcome, MoveError>(MoveError::GameOver)),
{
}

/// Once a game is won, no sequence of moves changes it; only a reset does.
pub proof fn lemma_won_game_is_final(s: GameView, moves: Seq<(int, int)>)
    requires
        s.outcome is Won,
    ensures
        play(s, moves) == s,
    decreases moves.len(),
{
    if moves.len() > 0 {
        lemma_won_game_is_final(s, moves.subrange(1, moves.len() as int));
    }
}

} // verus!

use vstd::prelude::*;

use crate::board::{cell_at, cell_index, empty_grid, in_bounds, BoardGrid, Cell, MoveError, N};

verus! {

/// The color of a player and of the stones that player places.
#[derive(Clone, Copy, Debug, PartialEq, Eq, Structural)]
pub enum Color {
    Black,
    White,
}

/// Whether the game still accepts moves, or who has won it.
#[derive(Clone, Copy, Debug, PartialEq, Eq, Structural)]
pub enum Outcome {
    InProgress,
    Won(Color),
}

/// One of the four lines through a cell along which a row is counted.
#[derive(Clone, Copy, Debug, PartialEq, Eq, Structural)]
pub enum Axis {
    /// Steps of (1, 0).
    Horizontal,
    /// Steps of (0, 1).
    Vertical,
    /// Steps of (1, 1).
    Diagonal,
    /// Steps of (1, -1).
    AntiDiagonal,
}

/// The cell value that a stone of color `c` leaves on the board.
pub open spec fn stone_of(c: Color) -> Cell {
    match c {
        Color::Black => Cell::Black,
        Color::White => Cell::White,
    }
}

/// The color that moves after `c`.
pub open spec fn other(c: Color) -> Color {
    match c {
        Color::Black => Color::White,
        Color::White => Color::Black,
    }
}

/// The point `k` steps away from `(x, y)` along `axis` (negative `k` walks backwards).
pub open spec fn along(axis: Axis, x: int, y: int, k: int) -> (int, int) {
    match axis {
        Axis::Horizontal => (x + k, y),
        Axis::Vertical => (x, y + k),
        Axis::Diagonal => (x + k, y + k),
        Axis::AntiDiagonal => (x + k, y - k),
    }
}

/// The point `k` steps from `(x, y)` along `axis` lies on the board and holds `c`.
pub open spec fn holds_along(g: Seq<Cell>, axis: Axis, x: int, y: int, k: int, c: Cell) -> bool {
    let p = along(axis, x, y, k);
    in_bounds(p.0, p.1) && cell_at(g, p.0, p.1) == c
}

/// `k` steps forward, or `k` steps backward.
pub open spec fn signed(forward: bool, k: int) -> int {
    if forward {
        k
    } else {
        -k
    }
}

/// The five cells at steps `lo` to `lo + 4` from `(x, y)` along `axis` all hold `c`.
pub open spec fn five_from(g: Seq<Cell>, axis: Axis, x: int, y: int, lo: int, c: Cell) -> bool {
    forall|k: int| lo <= k <= lo + 4 ==> #[trigger] holds_along(g, axis, x, y, k, c)
}

/// Five consecutive cells along `axis`, one of them `(x, y)`, all hold `c`.
pub open spec fn five_in_row(g: Seq<Cell>, axis: Axis, x: int, y: int, c: Cell) -> bool {
    exists|lo: int| -4 <= lo <= 0 && #[trigger] five_from(g, axis, x, y, lo, c)
}

/// Some line through `(x, y)` holds five or more consecutive cells of `c`.
pub open spec fn wins_at(g: Seq<Cell>, x: int, y: int, c: Cell) -> bool {
    five_in_row(g, Axis::Horizontal, x, y, c) || five_in_row(g, Axis::Vertical, x, y, c)
        || five_in_row(g, Axis::Diagonal, x, y, c) || five_in_row(g, Axis::AntiDiagonal, x, y, c)
}

/// What a game is: the board, the color to move, and the outcome.
pub struct GameView {
    pub grid: Seq<Cell>,
    pub turn: Color,
    pub outcome: Outcome,
}

/// An empty board with Black to move.
pub open spec fn initial_view() -> GameView {
    GameView { grid: empty_grid(), turn: Color::Black, outcome: Outcome::InProgress }
}

/// The state after a move at `(x, y)` is requested in state `s`, and what the
/// request returns. The checks come in order: bounds, then a finished game,
/// then an occupied cell; a rejected request changes nothing.
pub open spec fn step(s: GameView, x: int, y: int) -> (GameView, Result<Outcome, MoveError>) {
    if !in_bounds(x, y) {
        (s, Err(MoveError::OutOfBounds))
    } else if s.outcome != Outcome::InProgress {
        (s, Err(MoveError::GameOver))
    } else if cell_at(s.grid, x, y) != Cell::Empty {
        (s, Err(MoveError::CellOccupied))
    } else {
        let g = s.grid.update(cell_index(x, y), stone_of(s.turn));
        if wins_at(g, x, y, stone_of(s.turn)) {
            (
                GameView { grid: g, turn: s.turn, outcome: Outcome::Won(s.turn) },
                Ok(Outcome::Won(s.turn)),
            )
        } else {
            (
                GameView { grid: g, turn: other(s.turn), outcome: Outcome::InProgress },
                Ok(Outcome::InProgress),
            )
        }
    }
}

impl Color {
    /// The cell value of a stone of this color.
    pub fn stone(self) -> (r: Cell)
        ensures
            r == stone_of(self),
    {
        match self {
            Color::Black => Cell::Black,
            Color::White => Cell::White,
        }
    }

    /// The color that moves next.
    pub fn other(self) -> (r: Color)
        ensures
            r == other(self),
    {
        match self {
            Color::Black => Color::White,
            Color::White => Color::Black,
        }
    }
}

/// The run along one axis through `(x, y)` reaches five cells of `c` exactly
/// when the backward run `b` and the forward run `f` (each counted up to four
/// steps, and stopped at the first cell that is off the board or not `c`)
/// add up to four or more.
proof fn lemma_runs_make_five(g: Seq<Cell>, axis: Axis, x: int, y: int, c: Cell, b: int, f: int)
    requires
        holds_along(g, axis, x, y, 0, c),
        0 <= b <= 4,
        0 <= f <= 4,
        forall|i: int| 1 <= i <= b ==> #[trigger] holds_along(g, axis, x, y, signed(false, i), c),
        b < 4 ==> !holds_along(g, axis, x, y, signed(false, b + 1), c),
        forall|i: int| 1 <= i <= f ==> #[trigger] holds_along(g, axis, x, y, signed(true, i), c),
        f < 4 ==> !holds_along(g, axis, x, y, signed(true, f + 1), c),
    ensures
        five_in_row(g, axis, x, y, c) <==> b + f >= 4,
{
    if b + f >= 4 {
        assert forall|k: int| -b <= k <= -b + 4 implies #[trigger] holds_along(g, axis, x, y, k, c) by {
            if k < 0 {
                assert(holds_along(g, axis, x, y, signed(false, -k), c));
            } else if k > 0 {
                assert(holds_along(g, axis, x, y, signed(true, k), c));
            }
        }
        assert(five_from(g, axis, x, y, -b, c));
    } else if five_in_row(g, axis, x, y, c) {
        let lo = choose|lo: int| -4 <= lo <= 0 && #[trigger] five_from(g, axis, x, y, lo, c);
        if lo < -b {
            assert(holds_along(g, axis, x, y, signed(false, b + 1), c));
        } else {
            assert(holds_along(g, axis, x, y, signed(true, f + 1), c));
        }
    }
}

/// The cell `k` steps from `(x, y)` along `axis`, when it lies on the board.
fn neighbor(x: usize, y: usize, axis: Axis, k: i64) -> (r: Option<(usize, usize)>)
    requires
        x < N,
        y < N,
        -4 <= k <= 4,
    ensures
        match r {
            Some(p) => in_bounds(along(axis, x as int, y as int, k as int).0, along(axis, x as int, y as int, k as int).1)
                && p.0 as int == along(axis, x as int, y as int, k as int).0
                && p.1 as int == along(axis, x as int, y as int, k as int).1,
            None => !in_bounds(along(axis, x as int, y as int, k as int).0, along(axis, x as int, y as int, k as int).1),
        },
{
    let (px, py): (i64, i64) = match axis {
        Axis::Horizontal => (x as i64 + k, y as i64),
        Axis::Vertical => (x as i64, y as i64 + k),
        Axis::Diagonal => (x as i64 + k, y as i64 + k),
        Axis::AntiDiagonal => (x as i64 + k, y as i64 - k),
    };
    if 0 <= px && px < N as i64 && 0 <= py && py < N as i64 {
        Some((px as usize, py as usize))
    } else {
        None
    }
}

/// A game: the board, the color to move, and the outcome so far.
pub struct GameEngine {
    grid: BoardGrid,
    turn: Color,
    outcome: Outcome,
}

impl View for GameEngine {
    type V = GameView;

    closed spec fn view(&self) -> GameView {
        GameView { grid: self.grid@, turn: self.turn, outcome: self.outcome }
    }
}

impl Default for GameEngine {
    fn default() -> (r: GameEngine)
        ensures
            r.wf(),
            r@ == initial_view(),
    {
        GameEngine::new()
    }
}

impl GameEngine {
    /// The board has one cell for each coordinate pair, and a won game keeps
    /// the winner as the color to move.
    pub open spec fn wf(&self) -> bool {
        &&& self@.grid.len() == N * N
        &&& match self@.outcome {
            Outcome::Won(c) => self@.turn == c,
            Outcome::InProgress => true,
        }
    }

    /// A new game: an empty board, Black to move.
    pub fn new() -> (r: GameEngine)
        ensures
            r.wf(),
            r@ == initial_view(),
    {
        GameEngine { grid: BoardGrid::new(), turn: Color::Black, outcome: Outcome::InProgress }
    }

    /// Whether the game is still going, or who won it.
    pub fn outcome(&self) -> (r: Outcome)
        ensures
            r == self@.outcome,
    {
        self.outcome
    }

    /// The color that moves next (after a win: the winner).
    pub fn turn(&self) -> (r: Color)
        ensures
            r == self@.turn,
    {
        self.turn
    }

    /// The cell at `(x, y)`, or `OutOfBounds` when either coordinate is not below `N`.
    pub fn cell(&self, x: usize, y: usize) -> (r: Result<Cell, MoveError>)
        requires
            self.wf(),
        ensures
            in_bounds(x as int, y as int) ==> r == Ok::<Cell, MoveError>(cell_at(self@.grid, x as int, y as int)),
            !in_bounds(x as int, y as int) ==> r == Err::<Cell, MoveError>(MoveError::OutOfBounds),
    {
        self.grid.get(x, y)
    }

    /// How many consecutive cells of `c` follow `(x, y)` along `axis`, forward or
    /// backward, looking at most four steps ahead.
    fn count_run(&self, x: usize, y: usize, axis: Axis, forward: bool, c: Cell) -> (r: usize)
        requires
            self.wf(),
            x < N,
            y < N,
        ensures
            r <= 4,
            forall|i: int| 1 <= i <= r ==> #[trigger] holds_along(self@.grid, axis, x as int, y as int, signed(forward, i), c),
            r < 4 ==> !holds_along(self@.grid, axis, x as int, y as int, signed(forward, r + 1), c),
    {
        let ghost g = self@.grid;
        let mut count: usize = 0;
        let mut going = true;
        while going && count < 4
            invariant
                self.wf(),
                g == self@.grid,
                x < N,
                y < N,
                count <= 4,
                forall|i: int| 1 <= i <= count ==> #[trigger] holds_along(g, axis, x as int, y as int, signed(forward, i), c),
                !going ==> !holds_along(g, axis, x as int, y as int, signed(forward, count + 1), c),
            decreases 4 - count + (if going { 1int } else { 0int }),
        {
            let k: i64 = if forward { (count + 1) as i64 } else { -((count + 1) as i64) };
            match neighbor(x, y, axis, k) {
                Some((px, py)) => {
                    match self.grid.get(px, py) {
                        Ok(v) => {
                            if v == c {
                                count = count + 1;
                            } else {
                                going = false;
                            }
                        },
                        Err(_) => {
                            going = false;
                        },
                    }
                },
                None => {
                    going = false;
                },
            }
        }
        count
    }

    /// Whether the line through `(x, y)` along `axis` holds five or more
    /// consecutive cells of `c`, the color that `(x, y)` holds.
    fn wins_along(&self, x: usize, y: usize, axis: Axis, c: Cell) -> (r: bool)
        requires
            self.wf(),
            x < N,
            y < N,
            cell_at(self@.grid, x as int, y as int) == c,
        ensures
            r == five_in_row(self@.grid, axis, x as int, y as int, c),
    {
        let back = self.count_run(x, y, axis, false, c);
        let ahead = self.count_run(x, y, axis, true, c);
        proof {
            lemma_runs_make_five(self@.grid, axis, x as int, y as int, c, back as int, ahead as int);
        }
        1 + back + ahead >= 5
    }

    /// Whether some line through `(x, y)` holds five or more consecutive
    /// cells of the color that `(x, y)` holds.
    pub fn check_winner(&self, x: usize, y: usize) -> (r: bool)
        requires
            self.wf(),
            x < N,
            y < N,
        ensures
            r == wins_at(self@.grid, x as int, y as int, cell_at(self@.grid, x as int, y as int)),
    {
        let c = self.grid.get(x, y).unwrap();
        self.wins_along(x, y, Axis::Horizontal, c) || self.wins_along(x, y, Axis::Vertical, c)
            || self.wins_along(x, y, Axis::Diagonal, c) || self.wins_along(x, y, Axis::AntiDiagonal, c)
    }

    /// Requests a stone of the color to move at `(x, y)`. Rejected, with nothing
    /// changed: `OutOfBounds` off the board, then `GameOver` once the game is won,
    /// then `CellOccupied` on a stone. Accepted: the stone is placed; a line of
    /// five or more through it wins the game for the mover, and otherwise the
    /// turn passes. Returns the outcome after the move.
    pub fn apply_move(&mut self, x: usize, y: usize) -> (r: Result<Outcome, MoveError>)
        requires
            old(self).wf(),
        ensures
            final(self).wf(),
            (final(self)@, r) == step(old(self)@, x as int, y as int),
    {
        if x >= N || y >= N {
            return Err(MoveError::OutOfBounds);
        }
        match self.outcome {
            Outcome::Won(_) => {
                return Err(MoveError::GameOver);
            },
            Outcome::InProgress => {},
        }
        let here = self.grid.get(x, y).unwrap();
        if here != Cell::Empty {
            return Err(MoveError::CellOccupied);
        }
        let mover = self.turn;
        let _ = self.grid.set(x, y, mover.stone());
        proof {
            assert(cell_at(self@.grid, x as int, y as int) == stone_of(mover));
        }
        if self.check_winner(x, y) {
            self.outcome = Outcome::Won(mover);
            Ok(Outcome::Won(mover))
        } else {
            self.turn = mover.other();
            Ok(Outcome::InProgress)
        }
    }

    /// Starts over: an empty board, Black to move, the game in progress.
    pub fn reset(&mut self)
        requires
            old(self).wf(),
        ensures
            final(self).wf(),
            final(self)@ == initial_view(),
    {
        self.grid.reset();
        self.turn = Color::Black;
        self.outcome = Outcome::InProgress;
    }
}

} // verus!

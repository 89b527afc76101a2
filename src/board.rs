use vstd::prelude::*;

verus! {

/// Side length of the square board.
pub const N: usize = 15;

/// The state of one intersection of the board.
#[derive(Clone, Copy, Debug, PartialEq, Eq, Structural)]
pub enum Cell {
    Empty,
    Black,
    White,
}

/// Why a request on the board or the game was rejected.
#[derive(Clone, Copy, Debug, PartialEq, Eq, Structural)]
pub enum MoveError {
    /// A coordinate is not below `N`.
    OutOfBounds,
    /// The target cell already holds a stone.
    CellOccupied,
    /// The game has been won; only a reset is accepted.
    GameOver,
}

/// Whether `(x, y)` names a cell of the board.
pub open spec fn in_bounds(x: int, y: int) -> bool {
    0 <= x < N && 0 <= y < N
}

/// Position of cell `(x, y)` in the row-major sequence of cells.
pub open spec fn cell_index(x: int, y: int) -> int {
    x * N + y
}

/// The cell at `(x, y)` of a board given as its row-major sequence of cells.
pub open spec fn cell_at(g: Seq<Cell>, x: int, y: int) -> Cell {
    g[cell_index(x, y)]
}

/// A board on which every cell is empty.
pub open spec fn empty_grid() -> Seq<Cell> {
    Seq::new((N * N) as nat, |i: int| Cell::Empty)
}

/// An `N` by `N` grid of cells.
pub struct BoardGrid {
    cells: Vec<Cell>,
}

impl View for BoardGrid {
    type V = Seq<Cell>;

    closed spec fn view(&self) -> Seq<Cell> {
        self.cells@
    }
}

impl BoardGrid {
    /// Every coordinate pair of the board maps to exactly one cell.
    pub open spec fn wf(&self) -> bool {
        self@.len() == N * N
    }

    /// The cell at `(x, y)`.
    pub open spec fn at(&self, x: int, y: int) -> Cell {
        cell_at(self@, x, y)
    }

    /// A board with every cell empty.
    pub fn new() -> (r: BoardGrid)
        ensures
            r.wf(),
            r@ == empty_grid(),
    {
        let mut cells: Vec<Cell> = Vec::new();
        let mut i: usize = 0;
        while i < N * N
            invariant
                i <= N * N,
                cells@ == Seq::new(i as nat, |k: int| Cell::Empty),
            decreases N * N - i,
        {
            cells.push(Cell::Empty);
            i = i + 1;
            assert(cells@ =~= Seq::new(i as nat, |k: int| Cell::Empty));
        }
        BoardGrid { cells }
    }

    /// The cell at `(x, y)`, or `OutOfBounds` when either coordinate is not below `N`.
    pub fn get(&self, x: usize, y: usize) -> (r: Result<Cell, MoveError>)
        requires
            self.wf(),
        ensures
            in_bounds(x as int, y as int) ==> r == Ok::<Cell, MoveError>(self.at(x as int, y as int)),
            !in_bounds(x as int, y as int) ==> r == Err::<Cell, MoveError>(MoveError::OutOfBounds),
    {
        if x >= N || y >= N {
            Err(MoveError::OutOfBounds)
        } else {
            Ok(self.cells[x * N + y])
        }
    }

    /// Overwrites the cell at `(x, y)` with `value`, whatever it held; rejects a
    /// coordinate that is not below `N` and leaves the board as it was.
    pub fn set(&mut self, x: usize, y: usize, value: Cell) -> (r: Result<(), MoveError>)
        requires
            old(self).wf(),
        ensures
            final(self).wf(),
            in_bounds(x as int, y as int) ==> r == Ok::<(), MoveError>(())
                && final(self)@ == old(self)@.update(cell_index(x as int, y as int), value),
            !in_bounds(x as int, y as int) ==> r == Err::<(), MoveError>(MoveError::OutOfBounds)
                && final(self)@ == old(self)@,
    {
        if x >= N || y >= N {
            Err(MoveError::OutOfBounds)
        } else {
            self.cells[x * N + y] = value;
            Ok(())
        }
    }

    /// Empties every cell.
    pub fn reset(&mut self)
        requires
            old(self).wf(),
        ensures
            final(self).wf(),
            final(self)@ == empty_grid(),
    {
        let mut i: usize = 0;
        while i < self.cells.len()
            invariant
                self.cells@.len() == N * N,
                i <= N * N,
                forall|k: int| 0 <= k < i ==> self.cells@[k] == Cell::Empty,
            decreases N * N - i,
        {
            self.cells[i] = Cell::Empty;
            i = i + 1;
        }
        assert(self.cells@ =~= empty_grid());
    }
}

} // verus!

//! The 3x3 board and its evaluation: who has completed a line, and whether
//! every cell is taken.

use vstd::prelude::*;
use crate::marker::Cell;
use crate::marker::Marker;

verus! {

/// The board as a mathematical value: three rows of three cells.
pub type Grid = Seq<Seq<Cell>>;

/// A 3x3 grid of cells, indexed by row and column.
#[derive(Clone, Copy, Debug, PartialEq, Eq)]
pub struct Board {
    pub cells: [[Cell; 3]; 3],
}

impl View for Board {
    type V = Grid;

    open spec fn view(&self) -> Grid {
        Seq::new(3, |r: int| self.cells@[r]@)
    }
}

/// Whether `grid` has the shape of a board.
pub open spec fn is_grid(grid: Grid) -> bool {
    &&& grid.len() == 3
    &&& forall|r: int| 0 <= r < 3 ==> (#[trigger] grid[r]).len() == 3
}

/// The grid with no marker on it.
pub open spec fn empty_grid() -> Grid {
    Seq::new(3, |r: int| Seq::new(3, |c: int| None::<Marker>))
}

/// The three positions, as (row, column), of line `k`. Lines 0 to 2 are the
/// rows from the top, 3 to 5 the columns from the left, 6 the diagonal from
/// the top left and 7 the diagonal from the top right.
pub open spec fn line(k: int) -> Seq<(int, int)> {
    if 0 <= k < 3 {
        seq![(k, 0), (k, 1), (k, 2)]
    } else if 3 <= k < 6 {
        seq![(0, k - 3), (1, k - 3), (2, k - 3)]
    } else if k == 6 {
        seq![(0, 0), (1, 1), (2, 2)]
    } else {
        seq![(0, 2), (1, 1), (2, 0)]
    }
}

/// The cell of `grid` at position `p`.
pub open spec fn cell_at(grid: Grid, p: (int, int)) -> Cell {
    grid[p.0][p.1]
}

/// Whether `marker` stands in each of the three cells of line `k`.
pub open spec fn holds_line(grid: Grid, k: int, marker: Marker) -> bool {
    forall|i: int| 0 <= i < 3 ==> cell_at(grid, #[trigger] line(k)[i]) == Some(marker)
}

/// The marker that holds all three cells of line `k`, if one does.
pub open spec fn line_owner(grid: Grid, k: int) -> Option<Marker> {
    let a = cell_at(grid, line(k)[0]);
    if a is Some && a == cell_at(grid, line(k)[1]) && a == cell_at(grid, line(k)[2]) {
        a
    } else {
        None
    }
}

/// The owner of the first owned line among lines `from`, `from + 1`, ..., 7.
pub open spec fn first_owner(grid: Grid, from: int) -> Option<Marker>
    decreases 8 - from,
{
    if from < 0 || from >= 8 {
        None
    } else if line_owner(grid, from) is Some {
        line_owner(grid, from)
    } else {
        first_owner(grid, from + 1)
    }
}

/// The winner on `grid`: the owner of the first owned line, in the order of
/// `line`.
pub open spec fn winner_of(grid: Grid) -> Option<Marker> {
    first_owner(grid, 0)
}

/// Whether every cell of `grid` holds a marker.
pub open spec fn is_full(grid: Grid) -> bool {
    forall|r: int, c: int| 0 <= r < 3 && 0 <= c < 3 ==> (#[trigger] grid[r][c]) is Some
}

impl Board {
    /// The board with no marker on it.
    pub fn new() -> (board: Board)
        ensures
            board@ == empty_grid(),
    {
        let board = Board { cells: [[None; 3]; 3] };
        assert(board@ =~~= empty_grid());
        board
    }

    /// The cell at `row`, `col`.
    pub fn get(&self, row: usize, col: usize) -> (cell: Cell)
        requires
            row < 3,
            col < 3,
        ensures
            cell == self@[row as int][col as int],
    {
        self.cells[row][col]
    }

    /// Puts `cell` at `row`, `col` and leaves every other cell as it was.
    pub fn set(&mut self, row: usize, col: usize, cell: Cell)
        requires
            row < 3,
            col < 3,
        ensures
            final(self)@ == old(self)@.update(
                row as int,
                old(self)@[row as int].update(col as int, cell),
            ),
    {
        self.cells[row][col] = cell;
        assert(self@ =~~= old(self)@.update(
            row as int,
            old(self)@[row as int].update(col as int, cell),
        ));
    }
}

/// The three positions of line `k`, as (row, column).
pub fn line_cells(k: usize) -> (cells: [(usize, usize); 3])
    requires
        k < 8,
    ensures
        forall|i: int| 0 <= i < 3 ==> (#[trigger] cells@[i]).0 == line(k as int)[i].0,
        forall|i: int| 0 <= i < 3 ==> (#[trigger] cells@[i]).1 == line(k as int)[i].1,
{
    if k < 3 {
        [(k, 0), (k, 1), (k, 2)]
    } else if k < 6 {
        [(0, k - 3), (1, k - 3), (2, k - 3)]
    } else if k == 6 {
        [(0, 0), (1, 1), (2, 2)]
    } else {
        [(0, 2), (1, 1), (2, 0)]
    }
}

/// The winner on `board`, if there is one: the marker that holds the first
/// of the eight lines whose three cells hold one and the same marker.
pub fn check_winner(board: &Board) -> (winner: Option<Marker>)
    ensures
        winner == winner_of(board@),
        winner matches Some(marker) ==> exists|k: int|
            0 <= k < 8 && #[trigger] holds_line(board@, k, marker),
        winner is None ==> forall|k: int, marker: Marker|
            0 <= k < 8 ==> !#[trigger] holds_line(board@, k, marker),
{
    let mut k: usize = 0;
    while k < 8
        invariant
            k <= 8,
            winner_of(board@) == first_owner(board@, k as int),
        decreases 8 - k,
    {
        let cells = line_cells(k);
        let a = board.get(cells[0].0, cells[0].1);
        let b = board.get(cells[1].0, cells[1].1);
        let c = board.get(cells[2].0, cells[2].1);
        if a.is_some() && a == b && a == c {
            proof {
                lemma_winner_holds_line(board@, a->0);
            }
            return a;
        }
        k += 1;
    }
    proof {
        lemma_winner_iff_line_held(board@);
    }
    None
}

/// Whether every cell of `board` holds a marker. A full board may hold a
/// winning line as well: ask `check_winner` first.
pub fn is_draw(board: &Board) -> (full: bool)
    ensures
        full == is_full(board@),
{
    let mut row: usize = 0;
    while row < 3
        invariant
            row <= 3,
            forall|r: int, c: int| 0 <= r < row && 0 <= c < 3 ==> (#[trigger] board@[r][c]) is Some,
        decreases 3 - row,
    {
        let mut col: usize = 0;
        while col < 3
            invariant
                row < 3,
                col <= 3,
                forall|r: int, c: int|
                    0 <= r < row && 0 <= c < 3 ==> (#[trigger] board@[r][c]) is Some,
                forall|c: int| 0 <= c < col ==> (#[trigger] board@[row as int][c]) is Some,
            decreases 3 - col,
        {
            if board.get(row, col).is_none() {
                return false;
            }
            col += 1;
        }
        row += 1;
    }
    true
}

/// From line `from` on, `first_owner` names a marker exactly when some line
/// is owned, and the marker it names owns one of them.
proof fn lemma_first_owner(grid: Grid, from: int)
    requires
        0 <= from <= 8,
    ensures
        first_owner(grid, from) is None <==> forall|k: int|
            from <= k < 8 ==> (#[trigger] line_owner(grid, k)) is None,
        first_owner(grid, from) is Some ==> exists|k: int|
            from <= k < 8 && #[trigger] line_owner(grid, k) == first_owner(grid, from),
    decreases 8 - from,
{
    if from < 8 && line_owner(grid, from) is None {
        lemma_first_owner(grid, from + 1);
    }
}

/// A marker wins only where it holds a line: if `winner_of` names `marker`,
/// then one of the eight lines has `marker` in all three of its cells.
pub proof fn lemma_winner_holds_line(grid: Grid, marker: Marker)
    requires
        winner_of(grid) == Some(marker),
    ensures
        exists|k: int| 0 <= k < 8 && #[trigger] holds_line(grid, k, marker),
{
    lemma_first_owner(grid, 0);
    let k = choose|k: int| 0 <= k < 8 && #[trigger] line_owner(grid, k) == Some(marker);
    assert(holds_line(grid, k, marker));
}

/// There is a winner exactly when some marker holds a line.
pub proof fn lemma_winner_iff_line_held(grid: Grid)
    ensures
        winner_of(grid) is Some <==> exists|k: int, marker: Marker|
            0 <= k < 8 && #[trigger] holds_line(grid, k, marker),
{
    lemma_first_owner(grid, 0);
    if winner_of(grid) is Some {
        let marker = winner_of(grid)->0;
        lemma_winner_holds_line(grid, marker);
    }
    if exists|k: int, marker: Marker| 0 <= k < 8 && #[trigger] holds_line(grid, k, marker) {
        let (k, marker) = choose|k: int, marker: Marker|
            0 <= k < 8 && #[trigger] holds_line(grid, k, marker);
        assert(cell_at(grid, line(k)[0]) == Some(marker));
        assert(cell_at(grid, line(k)[1]) == Some(marker));
        assert(cell_at(grid, line(k)[2]) == Some(marker));
        assert(line_owner(grid, k) == Some(marker));
    }
}

} // verus!

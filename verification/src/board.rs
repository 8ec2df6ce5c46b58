//! The 3x3 board: cell marks, the grid, and the brute-force win check.

use vstd::prelude::*;

verus! {

/// The content of one board cell.
#[derive(Clone, Copy, PartialEq, Eq, Structural, Debug)]
pub enum Mark {
    Empty,
    X,
    O,
}

/// Flat index of the cell at `(col, row)` in a board stored column by column.
pub open spec fn idx(col: int, row: int) -> int {
    3 * col + row
}

/// The mark at `(col, row)` of a board seen as a flat sequence.
pub open spec fn cell_at(g: Seq<Mark>, col: int, row: int) -> Mark {
    g[idx(col, row)]
}

/// The three cells with row index `i` all hold `m`.
pub open spec fn row_all(g: Seq<Mark>, m: Mark, i: int) -> bool {
    cell_at(g, 0, i) == m && cell_at(g, 1, i) == m && cell_at(g, 2, i) == m
}

/// The three cells with column index `i` all hold `m`.
pub open spec fn col_all(g: Seq<Mark>, m: Mark, i: int) -> bool {
    cell_at(g, i, 0) == m && cell_at(g, i, 1) == m && cell_at(g, i, 2) == m
}

/// The main diagonal holds `m` three times.
pub open spec fn diag_main(g: Seq<Mark>, m: Mark) -> bool {
    cell_at(g, 0, 0) == m && cell_at(g, 1, 1) == m && cell_at(g, 2, 2) == m
}

/// The anti-diagonal holds `m` three times.
pub open spec fn diag_anti(g: Seq<Mark>, m: Mark) -> bool {
    cell_at(g, 2, 0) == m && cell_at(g, 1, 1) == m && cell_at(g, 0, 2) == m
}

/// `m` owns some complete line: a row, a column, or a diagonal.
pub open spec fn wins(g: Seq<Mark>, m: Mark) -> bool {
    ||| exists|i: int| 0 <= i < 3 && row_all(g, m, i)
    ||| exists|i: int| 0 <= i < 3 && col_all(g, m, i)
    ||| diag_main(g, m)
    ||| diag_anti(g, m)
}

/// The three `(col, row)` cells of winning line `k`: lines 0 to 2 are the
/// rows, 3 to 5 the columns, 6 the main diagonal and 7 the anti-diagonal.
pub open spec fn line_cells(k: int) -> Seq<(int, int)> {
    if 0 <= k < 3 {
        seq![(0int, k), (1int, k), (2int, k)]
    } else if 3 <= k < 6 {
        seq![(k - 3, 0int), (k - 3, 1int), (k - 3, 2int)]
    } else if k == 6 {
        seq![(0int, 0int), (1int, 1int), (2int, 2int)]
    } else {
        seq![(2int, 0int), (1int, 1int), (0int, 2int)]
    }
}

/// `m` fills all three cells of line `k`.
pub open spec fn line_all(g: Seq<Mark>, m: Mark, k: int) -> bool {
    &&& cell_at(g, line_cells(k)[0].0, line_cells(k)[0].1) == m
    &&& cell_at(g, line_cells(k)[1].0, line_cells(k)[1].1) == m
    &&& cell_at(g, line_cells(k)[2].0, line_cells(k)[2].1) == m
}

/// Filling any one of the eight line configurations with `m` wins for `m`.
pub proof fn lemma_line_win(g: Seq<Mark>, m: Mark, k: int)
    requires
        0 <= k < 8,
        line_all(g, m, k),
    ensures
        wins(g, m),
{
    if k < 3 {
        assert(row_all(g, m, k));
    } else if k < 6 {
        assert(col_all(g, m, k - 3));
    }
}

/// A win is nothing but a filled line: when `m` wins, one of the eight line
/// configurations is filled with `m`.
pub proof fn lemma_win_has_line(g: Seq<Mark>, m: Mark)
    requires
        wins(g, m),
    ensures
        exists|k: int| 0 <= k < 8 && line_all(g, m, k),
{
    if exists|i: int| 0 <= i < 3 && row_all(g, m, i) {
        let i = choose|i: int| 0 <= i < 3 && row_all(g, m, i);
        assert(line_all(g, m, i));
    } else if exists|i: int| 0 <= i < 3 && col_all(g, m, i) {
        let i = choose|i: int| 0 <= i < 3 && col_all(g, m, i);
        assert(line_all(g, m, i + 3));
    } else if diag_main(g, m) {
        assert(line_all(g, m, 6));
    } else {
        assert(line_all(g, m, 7));
    }
}

/// How many cells of `g` hold a mark.
pub open spec fn marks_placed(g: Seq<Mark>) -> int
    decreases g.len(),
{
    if g.len() == 0 {
        0
    } else {
        marks_placed(g.drop_last()) + if g.last() is Empty {
            0int
        } else {
            1int
        }
    }
}

/// A board without marks has none placed.
pub proof fn lemma_marks_placed_all_empty(g: Seq<Mark>)
    requires
        forall|i: int| 0 <= i < g.len() ==> g[i] is Empty,
    ensures
        marks_placed(g) == 0,
    decreases g.len(),
{
    if g.len() > 0 {
        lemma_marks_placed_all_empty(g.drop_last());
    }
}

/// Writing a mark into an empty cell raises the count of placed marks by one.
pub proof fn lemma_marks_placed_update(g: Seq<Mark>, i: int, m: Mark)
    requires
        0 <= i < g.len(),
        g[i] is Empty,
        !(m is Empty),
    ensures
        marks_placed(g.update(i, m)) == marks_placed(g) + 1,
    decreases g.len(),
{
    let gu = g.update(i, m);
    if i == g.len() - 1 {
        assert(gu.drop_last() =~= g.drop_last());
    } else {
        assert(gu.drop_last() =~= g.drop_last().update(i, m));
        lemma_marks_placed_update(g.drop_last(), i, m);
    }
}

/// The 3x3 grid, stored column by column: the cell at `(col, row)` sits at
/// flat index `3 * col + row`.
pub struct Board {
    cells: Vec<Mark>,
}

impl View for Board {
    type V = Seq<Mark>;

    closed spec fn view(&self) -> Seq<Mark> {
        self.cells@
    }
}

impl Board {
    /// A board is well formed when it holds exactly nine cells.
    pub open spec fn wf(self) -> bool {
        self@.len() == 9
    }

    /// An all-empty board.
    pub fn new() -> (b: Board)
        ensures
            b.wf(),
            forall|i: int| 0 <= i < 9 ==> b@[i] is Empty,
    {
        let mut cells: Vec<Mark> = Vec::new();
        let mut i: usize = 0;
        while i < 9
            invariant
                cells@.len() == i,
                i <= 9,
                forall|j: int| 0 <= j < i ==> cells@[j] is Empty,
            decreases 9 - i,
        {
            cells.push(Mark::Empty);
            i = i + 1;
        }
        Board { cells }
    }

    /// The mark at `(col, row)`.
    pub fn get(&self, col: usize, row: usize) -> (m: Mark)
        requires
            self.wf(),
            col < 3,
            row < 3,
        ensures
            m == cell_at(self@, col as int, row as int),
    {
        self.cells[3 * col + row]
    }

    /// Write `m` into `(col, row)`.
    pub fn set(&mut self, col: usize, row: usize, m: Mark)
        requires
            old(self).wf(),
            col < 3,
            row < 3,
        ensures
            final(self).wf(),
            final(self)@ == old(self)@.update(idx(col as int, row as int), m),
    {
        self.cells[3 * col + row] = m;
    }
}

/// Whether `player` owns a complete line on `board`, checked the brute-force
/// way: every row, every column, then both diagonals.
pub fn check_win(board: &Board, player: Mark) -> (r: bool)
    requires
        board.wf(),
    ensures
        r == wins(board@, player),
{
    let mut i: usize = 0;
    while i < 3
        invariant
            board.wf(),
            i <= 3,
            forall|j: int| 0 <= j < i ==> !row_all(board@, player, j),
        decreases 3 - i,
    {
        if board.get(0, i) == player && board.get(1, i) == player && board.get(2, i) == player {
            assert(row_all(board@, player, i as int));
            return true;
        }
        i = i + 1;
    }
    let mut i: usize = 0;
    while i < 3
        invariant
            board.wf(),
            i <= 3,
            forall|j: int| 0 <= j < 3 ==> !row_all(board@, player, j),
            forall|j: int| 0 <= j < i ==> !col_all(board@, player, j),
        decreases 3 - i,
    {
        if board.get(i, 0) == player && board.get(i, 1) == player && board.get(i, 2) == player {
            assert(col_all(board@, player, i as int));
            return true;
        }
        i = i + 1;
    }
    if board.get(0, 0) == player && board.get(1, 1) == player && board.get(2, 2) == player {
        return true;
    }
    if board.get(2, 0) == player && board.get(1, 1) == player && board.get(0, 2) == player {
        return true;
    }
    false
}

} // verus!

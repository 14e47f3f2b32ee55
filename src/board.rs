//! The Connect-4 grid: 7 columns of 6 cells, stored column-major with row 0
//! at the bottom, and the rules that read it (four-in-a-row, open columns,
//! where a dropped piece lands).
use vstd::prelude::*;

verus! {

/// Number of rows of the grid.
pub const ROWS: usize = 6;

/// Number of columns of the grid.
pub const COLS: usize = 7;

/// Number of cells of the grid.
pub const CELLS: usize = 42;

/// A grid has exactly one entry per cell.
pub open spec fn board_wf(b: Seq<Option<usize>>) -> bool {
    b.len() == 42
}

/// Every cell is empty or holds player 0 or 1.
pub open spec fn cells_valid(b: Seq<Option<usize>>) -> bool {
    forall|i: int| 0 <= i < b.len() ==> (#[trigger] b[i] matches Some(p) ==> p < 2)
}

/// The cell at (col, row).
pub open spec fn cell(b: Seq<Option<usize>>, col: int, row: int) -> Option<usize> {
    b[col * 6 + row]
}

/// The common player of four cells, when all four hold the same player.
pub open spec fn four(a: Option<usize>, b: Option<usize>, c: Option<usize>, d: Option<usize>) -> Option<usize> {
    if a.is_some() && a == b && b == c && c == d {
        a
    } else {
        None
    }
}

/// The four orientations along which a line of four is looked for, in the
/// order in which they are searched.
#[derive(Clone, Copy, Debug, PartialEq, Eq, Structural)]
pub enum Direction {
    Vertical,
    Horizontal,
    DiagonalUp,
    DiagonalDown,
}

/// Bounds of the search along one orientation: the outer index runs over
/// `0..outer_end(d)`, the inner one over `inner_start(d)..inner_end(d)`.
pub open spec fn outer_end(d: Direction) -> int {
    match d {
        Direction::Vertical => 7,
        Direction::Horizontal => 6,
        Direction::DiagonalUp => 4,
        Direction::DiagonalDown => 4,
    }
}

pub open spec fn inner_start(d: Direction) -> int {
    match d {
        Direction::DiagonalDown => 3,
        _ => 0,
    }
}

pub open spec fn inner_end(d: Direction) -> int {
    match d {
        Direction::Vertical => 3,
        Direction::Horizontal => 4,
        Direction::DiagonalUp => 3,
        Direction::DiagonalDown => 6,
    }
}

/// The line of four that the search visits at (outer, inner): vertical lines
/// go column by column, horizontal ones row by row, diagonals column by column.
pub open spec fn line_at(b: Seq<Option<usize>>, d: Direction, o: int, i: int) -> Option<usize> {
    match d {
        Direction::Vertical => four(cell(b, o, i), cell(b, o, i + 1), cell(b, o, i + 2), cell(b, o, i + 3)),
        Direction::Horizontal => four(cell(b, i, o), cell(b, i + 1, o), cell(b, i + 2, o), cell(b, i + 3, o)),
        Direction::DiagonalUp => four(cell(b, o, i), cell(b, o + 1, i + 1), cell(b, o + 2, i + 2), cell(b, o + 3, i + 3)),
        Direction::DiagonalDown => four(cell(b, o, i), cell(b, o + 1, i - 1), cell(b, o + 2, i - 2), cell(b, o + 3, i - 3)),
    }
}

/// The player of the first line of four found along `d`, searching from
/// (o, i) onwards.
pub open spec fn scan_from(b: Seq<Option<usize>>, d: Direction, o: int, i: int) -> Option<usize>
    decreases outer_end(d) - o, inner_end(d) - i,
{
    if o >= outer_end(d) {
        None
    } else if i >= inner_end(d) {
        scan_from(b, d, o + 1, inner_start(d))
    } else if line_at(b, d, o, i).is_some() {
        line_at(b, d, o, i)
    } else {
        scan_from(b, d, o, i + 1)
    }
}

/// The first line of four found along `d`.
pub open spec fn scan(b: Seq<Option<usize>>, d: Direction) -> Option<usize> {
    scan_from(b, d, 0, inner_start(d))
}

/// The player of the first line of four: verticals first, then horizontals,
/// then rising diagonals, then falling ones.
pub open spec fn winner(b: Seq<Option<usize>>) -> Option<usize> {
    if scan(b, Direction::Vertical).is_some() {
        scan(b, Direction::Vertical)
    } else if scan(b, Direction::Horizontal).is_some() {
        scan(b, Direction::Horizontal)
    } else if scan(b, Direction::DiagonalUp).is_some() {
        scan(b, Direction::DiagonalUp)
    } else {
        scan(b, Direction::DiagonalDown)
    }
}

/// Some column still has an empty top cell.
pub open spec fn has_open_column(b: Seq<Option<usize>>) -> bool {
    exists|c: int| 0 <= c < 7 && (#[trigger] cell(b, c, 5)).is_none()
}

/// The lowest empty row of column `col` at or above `r`, or 6 when there is none.
pub open spec fn drop_row_from(b: Seq<Option<usize>>, col: int, r: int) -> int
    decreases 6 - r,
{
    if r >= 6 {
        6
    } else if cell(b, col, r).is_none() {
        r
    } else {
        drop_row_from(b, col, r + 1)
    }
}

/// The row in which a piece dropped into `col` lands.
pub open spec fn drop_row(b: Seq<Option<usize>>, col: int) -> int {
    drop_row_from(b, col, 0)
}

/// The grid after `player` drops a piece into `col`.
pub open spec fn dropped(b: Seq<Option<usize>>, col: int, player: usize) -> Seq<Option<usize>> {
    b.update(col * 6 + drop_row(b, col), Some(player))
}

/// The empty grid.
pub open spec fn empty_board() -> Seq<Option<usize>> {
    Seq::new(42, |i: int| None::<usize>)
}

pub proof fn lemma_drop_row_from(b: Seq<Option<usize>>, col: int, r: int)
    requires
        0 <= r <= 6,
    ensures
        r <= drop_row_from(b, col, r) <= 6,
        drop_row_from(b, col, r) < 6 ==> cell(b, col, drop_row_from(b, col, r)).is_none(),
        forall|k: int| r <= k < drop_row_from(b, col, r) ==> (#[trigger] cell(b, col, k)).is_some(),
        r < 6 && cell(b, col, 5).is_none() ==> drop_row_from(b, col, r) < 6,
    decreases 6 - r,
{
    if r < 6 && cell(b, col, r).is_some() {
        lemma_drop_row_from(b, col, r + 1);
    }
}

/// Where a piece dropped into an open column lands: the lowest empty cell.
pub proof fn lemma_drop_row(b: Seq<Option<usize>>, col: int)
    ensures
        0 <= drop_row(b, col) <= 6,
        drop_row(b, col) < 6 ==> cell(b, col, drop_row(b, col)).is_none(),
        forall|k: int| 0 <= k < drop_row(b, col) ==> (#[trigger] cell(b, col, k)).is_some(),
        cell(b, col, 5).is_none() ==> drop_row(b, col) < 6,
{
    lemma_drop_row_from(b, col, 0);
}

/// The player of four cells when all four hold the same player.
pub fn check4(a: Option<usize>, b: Option<usize>, c: Option<usize>, d: Option<usize>) -> (r: Option<usize>)
    ensures
        r == four(a, b, c, d),
{
    match (a, b, c, d) {
        (Some(i), Some(j), Some(k), Some(l)) => {
            if i == j && j == k && k == l {
                Some(i)
            } else {
                None
            }
        },
        _ => None,
    }
}

/// The line of four that the search visits at (outer, inner).
fn line_cells(board: &Vec<Option<usize>>, d: Direction, o: usize, i: usize) -> (r: Option<usize>)
    requires
        board_wf(board@),
        o < outer_end(d),
        inner_start(d) <= i < inner_end(d),
    ensures
        r == line_at(board@, d, o as int, i as int),
{
    match d {
        Direction::Vertical => check4(
            board[o * ROWS + i],
            board[o * ROWS + i + 1],
            board[o * ROWS + i + 2],
            board[o * ROWS + i + 3],
        ),
        Direction::Horizontal => check4(
            board[i * ROWS + o],
            board[(i + 1) * ROWS + o],
            board[(i + 2) * ROWS + o],
            board[(i + 3) * ROWS + o],
        ),
        Direction::DiagonalUp => check4(
            board[o * ROWS + i],
            board[(o + 1) * ROWS + i + 1],
            board[(o + 2) * ROWS + i + 2],
            board[(o + 3) * ROWS + i + 3],
        ),
        Direction::DiagonalDown => check4(
            board[o * ROWS + i],
            board[(o + 1) * ROWS + i - 1],
            board[(o + 2) * ROWS + i - 2],
            board[(o + 3) * ROWS + i - 3],
        ),
    }
}

fn outer_bound(d: Direction) -> (r: usize)
    ensures
        r == outer_end(d),
{
    match d {
        Direction::Vertical => 7,
        Direction::Horizontal => 6,
        Direction::DiagonalUp => 4,
        Direction::DiagonalDown => 4,
    }
}

fn inner_bounds(d: Direction) -> (r: (usize, usize))
    ensures
        r.0 == inner_start(d),
        r.1 == inner_end(d),
{
    match d {
        Direction::Vertical => (0, 3),
        Direction::Horizontal => (0, 4),
        Direction::DiagonalUp => (0, 3),
        Direction::DiagonalDown => (3, 6),
    }
}

/// The player of the first line of four along `d`, in search order.
pub fn find_line(board: &Vec<Option<usize>>, d: Direction) -> (r: Option<usize>)
    requires
        board_wf(board@),
    ensures
        r == scan(board@, d),
{
    let o_end = outer_bound(d);
    let (i_start, i_end) = inner_bounds(d);
    let mut o: usize = 0;
    while o < o_end
        invariant
            board_wf(board@),
            o_end == outer_end(d),
            i_start == inner_start(d),
            i_end == inner_end(d),
            0 <= o <= o_end,
            scan(board@, d) == scan_from(board@, d, o as int, i_start as int),
        decreases o_end - o,
    {
        let mut i: usize = i_start;
        while i < i_end
            invariant
                board_wf(board@),
                o < o_end,
                o_end == outer_end(d),
                i_start == inner_start(d),
                i_end == inner_end(d),
                i_start <= i <= i_end,
                scan(board@, d) == scan_from(board@, d, o as int, i as int),
            decreases i_end - i,
        {
            let found = line_cells(board, d, o, i);
            if found.is_some() {
                return found;
            }
            i = i + 1;
        }
        o = o + 1;
    }
    None
}

/// The player of the first line of four on the grid, in search order.
pub fn find_winner(board: &Vec<Option<usize>>) -> (r: Option<usize>)
    requires
        board_wf(board@),
    ensures
        r == winner(board@),
{
    let v = find_line(board, Direction::Vertical);
    if v.is_some() {
        return v;
    }
    let h = find_line(board, Direction::Horizontal);
    if h.is_some() {
        return h;
    }
    let u = find_line(board, Direction::DiagonalUp);
    if u.is_some() {
        return u;
    }
    find_line(board, Direction::DiagonalDown)
}

/// Whether some column still has an empty top cell.
pub fn any_open_column(board: &Vec<Option<usize>>) -> (r: bool)
    requires
        board_wf(board@),
    ensures
        r == has_open_column(board@),
{
    let mut col: usize = 0;
    while col < COLS
        invariant
            board_wf(board@),
            0 <= col <= 7,
            forall|c: int| 0 <= c < col ==> (#[trigger] cell(board@, c, 5)).is_some(),
        decreases 7 - col,
    {
        if board[col * ROWS + ROWS - 1].is_none() {
            assert(cell(board@, col as int, 5).is_none());
            return true;
        }
        col = col + 1;
    }
    false
}

/// The row in which a piece dropped into `col` lands (6 when the column is full).
pub fn landing_row(board: &Vec<Option<usize>>, col: usize) -> (r: usize)
    requires
        board_wf(board@),
        col < 7,
    ensures
        r == drop_row(board@, col as int),
{
    let mut row: usize = 0;
    while row < ROWS
        invariant
            board_wf(board@),
            col < 7,
            0 <= row <= 6,
            drop_row(board@, col as int) == drop_row_from(board@, col as int, row as int),
        decreases 6 - row,
    {
        if board[col * ROWS + row].is_none() {
            return row;
        }
        row = row + 1;
    }
    ROWS
}

} // verus!

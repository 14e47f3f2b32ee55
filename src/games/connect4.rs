//! Connect-4 as a game: a grid, whose turn it is, and the rules that move it on.
use vstd::prelude::*;

use crate::board::{
    any_open_column, board_wf, cell, cells_valid, dropped, empty_board, find_winner, has_open_column, landing_row,
    lemma_drop_row, winner, COLS, CELLS, ROWS,
};
use crate::games::{GameResult, GameStatus};

verus! {

/// Why an action cannot be applied.
#[derive(Clone, Copy, Debug, PartialEq, Eq, Structural)]
pub enum Error {
    /// The column is not in 0..7.
    UnknownColumn(usize),
    /// The top cell of the column is occupied.
    FullColumn(usize),
}

/// Dropping a piece into a column.
#[derive(Clone, Copy, Debug, PartialEq, Eq, Structural)]
pub struct Action {
    pub column: usize,
}

/// A Connect-4 position: the grid and the index of the player to move.
#[derive(Clone, Debug)]
pub struct Connect4 {
    pub board: Vec<Option<usize>>,
    pub next_player: usize,
}

/// The status of a position: the first line of four wins, a grid whose top
/// row is full is a tie, and otherwise `next` moves.
pub open spec fn status_of(b: Seq<Option<usize>>, next: usize) -> GameStatus {
    match winner(b) {
        Some(p) => GameStatus::Over { result: GameResult::Winner { winning_player: p } },
        None => if has_open_column(b) {
            GameStatus::InProgress { next_player: next }
        } else {
            GameStatus::Over { result: GameResult::Tie }
        },
    }
}

/// Whether `col` may be played on grid `b`.
pub open spec fn column_playable(b: Seq<Option<usize>>, col: int) -> bool {
    0 <= col < 7 && cell(b, col, 5).is_none()
}

/// The rule error of playing `col` on `b`, if any.
pub open spec fn action_error(b: Seq<Option<usize>>, col: usize) -> Option<Error> {
    if col >= 7 {
        Some(Error::UnknownColumn(col))
    } else if cell(b, col as int, 5).is_some() {
        Some(Error::FullColumn(col))
    } else {
        None
    }
}

/// The player who moves after `p`.
pub open spec fn other_player(p: usize) -> usize {
    ((p + 1) % 2) as usize
}

impl Connect4 {
    /// A position: a full grid and a player index of 0 or 1.
    pub open spec fn wf(&self) -> bool {
        board_wf(self.board@) && cells_valid(self.board@) && self.next_player < 2
    }

    /// The status of this position.
    pub open spec fn status_spec(&self) -> GameStatus {
        status_of(self.board@, self.next_player)
    }

    /// The grid after the player to move plays `col` (meaningful when the
    /// column is playable).
    pub open spec fn board_after(&self, col: usize) -> Seq<Option<usize>> {
        dropped(self.board@, col as int, self.next_player)
    }

    /// An equal position with a grid of its own.
    pub fn copy(&self) -> (r: Connect4)
        ensures
            r.board@ == self.board@,
            r.next_player == self.next_player,
    {
        let mut board: Vec<Option<usize>> = Vec::new();
        let mut i: usize = 0;
        while i < self.board.len()
            invariant
                0 <= i <= self.board@.len(),
                board@ == self.board@.subrange(0, i as int),
            decreases self.board@.len() - i,
        {
            board.push(self.board[i]);
            i = i + 1;
            assert(board@ =~= self.board@.subrange(0, i as int));
        }
        assert(board@ =~= self.board@);
        Connect4 { board, next_player: self.next_player }
    }

    /// The cell at (col, row).
    pub fn get(&self, col: usize, row: usize) -> (r: Option<usize>)
        requires
            board_wf(self.board@),
            col < 7,
            row < 6,
        ensures
            r == cell(self.board@, col as int, row as int),
    {
        self.board[col * ROWS + row]
    }

    /// Writes the cell at (col, row).
    pub fn set(&mut self, col: usize, row: usize, val: Option<usize>)
        requires
            board_wf(old(self).board@),
            col < 7,
            row < 6,
        ensures
            final(self).board@ == old(self).board@.update(col * 6 + row, val),
            final(self).next_player == old(self).next_player,
    {
        self.board.set(col * ROWS + row, val);
    }

    /// Whether `action` may be played: its column exists and is not full.
    pub fn valid_action(&self, action: &Action) -> (r: bool)
        requires
            self.wf(),
        ensures
            r == column_playable(self.board@, action.column as int),
    {
        if action.column >= COLS {
            return false;
        }
        self.get(action.column, ROWS - 1).is_none()
    }

    /// The status of the position: won, tied, or whose turn it is.
    pub fn status(&self) -> (r: GameStatus)
        requires
            self.wf(),
        ensures
            r == self.status_spec(),
            r matches GameStatus::InProgress { next_player } ==> next_player == self.next_player,
    {
        match find_winner(&self.board) {
            Some(p) => GameStatus::Over { result: GameResult::Winner { winning_player: p } },
            None => {
                if any_open_column(&self.board) {
                    GameStatus::InProgress { next_player: self.next_player }
                } else {
                    GameStatus::Over { result: GameResult::Tie }
                }
            },
        }
    }

    /// Plays `action` for the player to move: the piece lands in the lowest
    /// empty cell of the column and the turn passes to the other player.
    /// On an error the position is left as it was.
    pub fn apply_action(&mut self, action: &Action) -> (r: Result<GameStatus, Error>)
        requires
            old(self).wf(),
        ensures
            final(self).wf(),
            match action_error(old(self).board@, action.column) {
                Some(e) => r == Err::<GameStatus, Error>(e) && *final(self) == *old(self),
                None => {
                    &&& final(self).board@ == old(self).board_after(action.column)
                    &&& final(self).next_player == other_player(old(self).next_player)
                    &&& r == Ok::<GameStatus, Error>(final(self).status_spec())
                },
            },
    {
        if action.column >= COLS {
            return Err(Error::UnknownColumn(action.column));
        }
        if self.get(action.column, ROWS - 1).is_some() {
            return Err(Error::FullColumn(action.column));
        }
        let row = landing_row(&self.board, action.column);
        proof {
            lemma_drop_row(self.board@, action.column as int);
        }
        let player = self.next_player;
        self.set(action.column, row, Some(player));
        self.next_player = (self.next_player + 1) % 2;
        Ok(self.status())
    }
}

impl Default for Connect4 {
    fn default() -> (r: Self)
        ensures
            r.wf(),
            r.board@ == empty_board(),
            r.next_player == 0,
    {
        let mut board: Vec<Option<usize>> = Vec::new();
        let mut i: usize = 0;
        while i < CELLS
            invariant
                0 <= i <= 42,
                board@ == Seq::new(i as nat, |k: int| None::<usize>),
            decreases 42 - i,
        {
            board.push(None);
            i = i + 1;
        }
        assert(board@ =~= empty_board());
        Connect4 { board, next_player: 0 }
    }
}

} // verus!

//! Connect-4 rules over the stored grid, for a given acting player.
use vstd::prelude::*;

use crate::board::{
    any_open_column, board_wf, cell, dropped, find_winner, has_open_column, landing_row,
    lemma_drop_row, winner, COLS, ROWS,
};
use crate::types::{Connect4Action, Connect4State};

verus! {

/// Why an action cannot be applied to the stored grid.
#[derive(Clone, Copy, Debug, PartialEq, Eq, Structural)]
pub enum ActionError {
    /// The column is not in 0..7.
    UnknownColumn(usize),
    /// The top cell of the column is occupied.
    FullColumn(usize),
}

impl ActionError {
    /// The message shown to whoever sent the action.
    pub fn message(&self) -> (r: String)
        ensures
            match self {
                ActionError::UnknownColumn(_) => r@ == "Column must be between 0 and 6."@,
                ActionError::FullColumn(_) => r@ == "Column is full."@,
            },
    {
        match self {
            ActionError::UnknownColumn(_) => {
                proof {
                    reveal_strlit("Column must be between 0 and 6.");
                }
                String::from_str("Column must be between 0 and 6.")
            },
            ActionError::FullColumn(_) => {
                proof {
                    reveal_strlit("Column is full.");
                }
                String::from_str("Column is full.")
            },
        }
    }
}

/// The outcome of a grid.
#[derive(Clone, Copy, Debug, PartialEq, Eq, Structural)]
pub enum Connect4Check {
    Winner(usize),
    Tie,
    InProgress,
}

/// The outcome of grid `b`: its first line of four, else a tie when no
/// column is open, else still in progress.
pub open spec fn check_of(b: Seq<Option<usize>>) -> Connect4Check {
    match winner(b) {
        Some(p) => Connect4Check::Winner(p),
        None => if has_open_column(b) {
            Connect4Check::InProgress
        } else {
            Connect4Check::Tie
        },
    }
}

/// The rule error of playing `col` on `b`, if any.
pub open spec fn drop_error(b: Seq<Option<usize>>, col: usize) -> Option<ActionError> {
    if col >= 7 {
        Some(ActionError::UnknownColumn(col))
    } else if cell(b, col as int, 5).is_some() {
        Some(ActionError::FullColumn(col))
    } else {
        None
    }
}

/// Drops a piece of `player` into the column of `action`: it lands in the
/// lowest empty cell. The grid is unchanged on an error.
pub fn apply_action(state: &mut Connect4State, action: &Connect4Action, player: usize) -> (r: Result<(), ActionError>)
    requires
        board_wf(old(state).board@),
    ensures
        board_wf(final(state).board@),
        match drop_error(old(state).board@, action.column) {
            Some(e) => r == Err::<(), ActionError>(e) && final(state).board@ == old(state).board@,
            None => r is Ok && final(state).board@ == dropped(old(state).board@, action.column as int, player),
        },
{
    if action.column >= COLS {
        return Err(ActionError::UnknownColumn(action.column));
    }
    if state.board[action.column * ROWS + ROWS - 1].is_some() {
        return Err(ActionError::FullColumn(action.column));
    }
    let row = landing_row(&state.board, action.column);
    proof {
        lemma_drop_row(state.board@, action.column as int);
    }
    state.board.set(action.column * ROWS + row, Some(player));
    Ok(())
}

/// The outcome of the stored grid.
pub fn check(state: &Connect4State) -> (r: Connect4Check)
    requires
        board_wf(state.board@),
    ensures
        r == check_of(state.board@),
{
    match find_winner(&state.board) {
        Some(p) => Connect4Check::Winner(p),
        None => {
            if any_open_column(&state.board) {
                Connect4Check::InProgress
            } else {
                Connect4Check::Tie
            }
        },
    }
}

} // verus!

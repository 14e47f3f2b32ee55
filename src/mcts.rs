//! A sample Connect-4 agent's choice: given a score for each column (from
//! simulated games, higher is better), play the first playable column with
//! the best score.
use vstd::prelude::*;

use crate::board::{cell, COLS};
use crate::games::connect4::{column_playable, Action, Connect4};

verus! {

/// The first playable column with the highest score.
pub fn agent(state: &Connect4, scores: &Vec<i64>) -> (r: Action)
    requires
        state.wf(),
        state.status_spec() is InProgress,
        scores@.len() == 7,
    ensures
        column_playable(state.board@, r.column as int),
        forall|c: int| 0 <= c < 7 && column_playable(state.board@, c) ==> scores@[c] <= scores@[r.column as int],
        forall|c: int| 0 <= c < r.column && column_playable(state.board@, c) ==> scores@[c] < scores@[r.column as int],
{
    let mut best: Option<usize> = None;
    let mut col: usize = 0;
    while col < COLS
        invariant
            state.wf(),
            scores@.len() == 7,
            0 <= col <= 7,
            match best {
                Some(b) => b < col && column_playable(state.board@, b as int)
                    && (forall|c: int| 0 <= c < col && column_playable(state.board@, c) ==> scores@[c] <= scores@[b as int])
                    && (forall|c: int| 0 <= c < b && column_playable(state.board@, c) ==> scores@[c] < scores@[b as int]),
                None => forall|c: int| 0 <= c < col ==> !column_playable(state.board@, c),
            },
        decreases 7 - col,
    {
        if state.valid_action(&Action { column: col }) {
            match best {
                None => {
                    best = Some(col);
                },
                Some(b) => {
                    if scores[col] > scores[b] {
                        best = Some(col);
                    }
                },
            }
        }
        col = col + 1;
    }
    match best {
        Some(b) => Action { column: b },
        None => {
            proof {
                let c = choose|c: int| 0 <= c < 7 && (#[trigger] cell(state.board@, c, 5)).is_none();
                assert(column_playable(state.board@, c));
            }
            Action { column: 0 }
        },
    }
}

} // verus!

//! The turn executor: the one writer of new turns. It checks who may move,
//! applies the game rules to the current tail and appends the resulting turn
//! at the next ordinal; the store's conflict on that ordinal decides races.
use vstd::prelude::*;

use crate::games::connect4::{action_error, Action, Error};
use crate::games::GameStatus;
use crate::matches::PlayerId;
use crate::store::{
    append_outcome, follows, match_wf, tail, AppendOutcome, MatchRecord, MatchStore, TurnRow,
    pushed_at,
};

verus! {

/// Who is trying to move: a signed-in user, or the driver acting for the
/// agent it scheduled.
#[derive(Clone, Copy, Debug, PartialEq, Eq, Structural)]
pub enum Authority {
    User(i64),
    Agent(i64),
}

/// Why a turn was not appended.
#[derive(Clone, Copy, Debug, PartialEq, Eq, Structural)]
pub enum SubmitError {
    MatchNotFound,
    MatchOver,
    /// The actor, the authority or the slot does not match the player to move.
    NotYourTurn,
    /// The game rules reject the action.
    InvalidAction(Error),
    /// Another turn took the ordinal first.
    RaceLost,
}

/// `authority` is the occupant of `slot`.
pub open spec fn authorized(slot: PlayerId, authority: Authority) -> bool {
    match (slot, authority) {
        (PlayerId::User(u), Authority::User(a)) => u == a,
        (PlayerId::Agent(u), Authority::Agent(a)) => u == a,
        _ => false,
    }
}

/// Why `authority`, claiming to move as `actor`, may not play `action` on
/// match `m`, in the order the checks are made; `None` when it may.
pub open spec fn turn_error(m: MatchRecord, actor: usize, action: Action, authority: Authority) -> Option<SubmitError> {
    match tail(m).status {
        GameStatus::Over { .. } => Some(SubmitError::MatchOver),
        GameStatus::InProgress { next_player } => {
            if actor != next_player || !authorized(m.players@[next_player as int], authority) {
                Some(SubmitError::NotYourTurn)
            } else {
                match action_error(tail(m).state.board@, action.column) {
                    Some(e) => Some(SubmitError::InvalidAction(e)),
                    None => None,
                }
            }
        },
    }
}

/// The turn that `actor` playing `action` appends to `m`.
pub open spec fn planned(m: MatchRecord, actor: usize, action: Action, row: TurnRow) -> bool {
    &&& row.number == m.turns@.len()
    &&& row.player == Some(actor)
    &&& row.action == Some(action)
    &&& follows(tail(m), row)
}

/// The error that an append outcome other than success is reported as.
pub open spec fn append_error(o: AppendOutcome) -> SubmitError {
    match o {
        AppendOutcome::NotFound => SubmitError::MatchNotFound,
        AppendOutcome::MatchOver => SubmitError::MatchOver,
        _ => SubmitError::RaceLost,
    }
}

/// The player to move of a well-formed, in-progress match is 0 or 1 and
/// names one of its two slots.
pub proof fn lemma_next_player_in_range(m: MatchRecord)
    requires
        match_wf(m),
    ensures
        tail(m).status matches GameStatus::InProgress { next_player } ==> {
            &&& next_player < 2
            &&& next_player < m.players@.len()
            &&& (m.players@[next_player as int] is User) != (m.players@[next_player as int] is Agent)
        },
{
    let t = m.turns@.len() - 1;
    assert(crate::store::row_consistent(m.turns@[t]));
}

/// Two submissions of the same turn against the same tail: the first to
/// be appended succeeds, the other finds its ordinal taken and is reported
/// as a lost race, and both would have appended the same turn.
pub proof fn lemma_race(
    m: MatchRecord,
    actor: usize,
    action: Action,
    row1: TurnRow,
    row2: TurnRow,
    after: MatchRecord,
)
    requires
        match_wf(m),
        planned(m, actor, action, row1),
        planned(m, actor, action, row2),
        after.turns@ == m.turns@.push(row1),
    ensures
        append_outcome(m, row1) == AppendOutcome::Appended,
        append_outcome(after, row2) == AppendOutcome::AlreadyTaken,
        append_error(append_outcome(after, row2)) == SubmitError::RaceLost,
        row1.number == row2.number,
        row1.player == row2.player,
        row1.action == row2.action,
        row1.status == row2.status,
        row1.state.board@ == row2.state.board@,
        row1.state.next_player == row2.state.next_player,
{
}

/// Computes the turn that `authority`, moving as `actor`, would append by
/// playing `action` on the current tail of match `match_id`.
pub fn plan_turn(store: &MatchStore, match_id: i64, actor: usize, action: Action, authority: Authority) -> (r: Result<TurnRow, SubmitError>)
    requires
        store.wf(),
    ensures
        match store.match_spec(match_id) {
            None => r == Err::<TurnRow, SubmitError>(SubmitError::MatchNotFound),
            Some(m) => match turn_error(m, actor, action, authority) {
                Some(e) => r == Err::<TurnRow, SubmitError>(e),
                None => r matches Ok(row) && planned(m, actor, action, row),
            },
        },
{
    let m = match store.load_match(match_id) {
        None => return Err(SubmitError::MatchNotFound),
        Some(m) => m,
    };
    proof {
        assert(match_wf(*m));
        lemma_next_player_in_range(*m);
    }
    let last = m.turns.len() - 1;
    let tail_row = &m.turns[last];
    let next_player = match tail_row.status {
        GameStatus::Over { .. } => return Err(SubmitError::MatchOver),
        GameStatus::InProgress { next_player } => next_player,
    };
    if actor != next_player {
        return Err(SubmitError::NotYourTurn);
    }
    let allowed = match (m.players[next_player], authority) {
        (PlayerId::User(u), Authority::User(a)) => u == a,
        (PlayerId::Agent(u), Authority::Agent(a)) => u == a,
        _ => false,
    };
    if !allowed {
        return Err(SubmitError::NotYourTurn);
    }
    proof {
        assert(crate::store::row_consistent(m.turns@[last as int]));
    }
    let mut state = tail_row.state.copy();
    match state.apply_action(&action) {
        Err(e) => Err(SubmitError::InvalidAction(e)),
        Ok(status) => Ok(TurnRow {
            number: last + 1,
            player: Some(actor),
            action: Some(action),
            status,
            state,
        }),
    }
}

/// Appends a planned turn at its ordinal. If that ordinal was taken in the
/// meantime the store is unchanged and the race is reported as lost.
pub fn commit_turn(store: &mut MatchStore, match_id: i64, row: TurnRow) -> (r: Result<usize, SubmitError>)
    requires
        old(store).wf(),
        old(store).match_spec(match_id) matches Some(m) ==> crate::store::may_append(m, row),
    ensures
        final(store).wf(),
        final(store).agents@ == old(store).agents@,
        match old(store).match_spec(match_id) {
            None => r == Err::<usize, SubmitError>(SubmitError::MatchNotFound) && final(store).matches@ == old(store).matches@,
            Some(m) => if append_outcome(m, row) == AppendOutcome::Appended {
                r == Ok::<usize, SubmitError>(row.number) && pushed_at(old(store).matches@, final(store).matches@, match_id - 1, row)
            } else {
                r == Err::<usize, SubmitError>(append_error(append_outcome(m, row)))
                    && final(store).matches@ == old(store).matches@
            },
        },
{
    let number = row.number;
    match store.append_turn(match_id, row) {
        AppendOutcome::Appended => Ok(number),
        AppendOutcome::NotFound => Err(SubmitError::MatchNotFound),
        AppendOutcome::MatchOver => Err(SubmitError::MatchOver),
        AppendOutcome::AlreadyTaken => Err(SubmitError::RaceLost),
        AppendOutcome::OutOfSequence => Err(SubmitError::RaceLost),
    }
}

/// Submits a turn: checks that the match goes on, that `actor` is the
/// player to move and that `authority` occupies that slot, applies the rules
/// and appends the result at the next ordinal. Returns that ordinal.
pub fn submit_turn(store: &mut MatchStore, match_id: i64, actor: usize, action: Action, authority: Authority) -> (r: Result<usize, SubmitError>)
    requires
        old(store).wf(),
    ensures
        final(store).wf(),
        final(store).agents@ == old(store).agents@,
        match old(store).match_spec(match_id) {
            None => r == Err::<usize, SubmitError>(SubmitError::MatchNotFound) && final(store).matches@ == old(store).matches@,
            Some(m) => match turn_error(m, actor, action, authority) {
                Some(e) => r == Err::<usize, SubmitError>(e) && final(store).matches@ == old(store).matches@,
                None => {
                    &&& r == Ok::<usize, SubmitError>(m.turns@.len() as usize)
                    &&& exists|row: TurnRow| planned(m, actor, action, row)
                        && pushed_at(old(store).matches@, final(store).matches@, match_id - 1, row)
                },
            },
        },
{
    let row = match plan_turn(store, match_id, actor, action, authority) {
        Err(e) => return Err(e),
        Ok(row) => row,
    };
    let ghost planned_row = row;
    let r = commit_turn(store, match_id, row);
    proof {
        let m = old(store).match_spec(match_id).unwrap();
        assert(planned(m, actor, action, planned_row));
        assert(append_outcome(m, planned_row) == AppendOutcome::Appended);
    }
    r
}

} // verus!

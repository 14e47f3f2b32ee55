//! Matches as the rest of the platform sees them: who sits in a slot, and the
//! operations that create, read and advance a match.
use vstd::prelude::*;

use crate::executor::{submit_turn, turn_error, planned, Authority, SubmitError};
use crate::games::connect4::Action;
use crate::games::{Game, GameResult, GameStatus};
use crate::store::{initial_row, pushed_at, MatchRecord, MatchStore};
use crate::store::TurnRow;
use crate::types::{Agent, Connect4Action, Connect4State, Match, Player, Status, Turn, User};

verus! {

/// Who is bound to a player slot: a user or an agent, by id.
#[derive(Clone, Copy, Debug, PartialEq, Eq, Structural)]
pub enum PlayerId {
    User(i64),
    Agent(i64),
}

/// Creates a Connect-4 match between blue (slot 0, moves first) and red
/// (slot 1), with its turn 0, and returns its id.
pub fn create(store: &mut MatchStore, created_by_user_id: i64, created_at: u64, blue_player: PlayerId, red_player: PlayerId) -> (r: i64)
    requires
        old(store).wf(),
        old(store).matches@.len() < i64::MAX,
    ensures
        final(store).wf(),
        r == old(store).matches@.len() + 1,
        final(store).match_spec(r) matches Some(m) && {
            &&& m.game == Game::Connect4
            &&& m.created_by == created_by_user_id
            &&& m.players@ == seq![blue_player, red_player]
            &&& m.turns@.len() == 1
            &&& initial_row(m.turns@[0])
        },
        forall|i: int| 0 <= i < old(store).matches@.len() ==> final(store).matches@[i] == old(store).matches@[i],
{
    store.create_match(created_by_user_id, Game::Connect4, created_at, blue_player, red_player)
}

/// The match with id `match_id`, slots and full turn log included.
pub fn get_by_id(store: &MatchStore, match_id: i64) -> (r: Option<&MatchRecord>)
    requires
        store.wf(),
    ensures
        match store.match_spec(match_id) {
            Some(m) => r matches Some(x) && *x == m,
            None => r is None,
        },
{
    store.load_match(match_id)
}

/// The stored status columns of a game status.
pub open spec fn status_row(s: GameStatus) -> Status {
    match s {
        GameStatus::InProgress { next_player } => Status::InProgress { next_player },
        GameStatus::Over { result: GameResult::Winner { winning_player } } => Status::Over { winner: Some(winning_player) },
        GameStatus::Over { result: GameResult::Tie } => Status::Over { winner: None },
    }
}

/// The stored status columns of a game status: a winner or none once over,
/// the player to move while in progress.
pub fn to_status(s: GameStatus) -> (r: Status)
    ensures
        r == status_row(s),
{
    match s {
        GameStatus::InProgress { next_player } => Status::InProgress { next_player },
        GameStatus::Over { result: GameResult::Winner { winning_player } } => Status::Over { winner: Some(winning_player) },
        GameStatus::Over { result: GameResult::Tie } => Status::Over { winner: None },
    }
}

/// A signed-in user plays `column` as slot `player` of match `match_id`.
pub fn user_turn(store: &mut MatchStore, match_id: i64, player: usize, column: usize, user_id: i64) -> (r: Result<usize, SubmitError>)
    requires
        old(store).wf(),
    ensures
        final(store).wf(),
        match old(store).match_spec(match_id) {
            None => r == Err::<usize, SubmitError>(SubmitError::MatchNotFound) && final(store).matches@ == old(store).matches@,
            Some(m) => match turn_error(m, player, Action { column }, Authority::User(user_id)) {
                Some(e) => r == Err::<usize, SubmitError>(e) && final(store).matches@ == old(store).matches@,
                None => r == Ok::<usize, SubmitError>(m.turns@.len() as usize)
                    && exists|row| planned(m, player, Action { column }, row)
                        && pushed_at(old(store).matches@, final(store).matches@, match_id - 1, row),
            },
        },
{
    submit_turn(store, match_id, player, Action { column }, Authority::User(user_id))
}

/// The driver plays `column` for agent `agent_id` as slot `player` of match
/// `match_id`.
pub fn agent_turn(store: &mut MatchStore, match_id: i64, player: usize, column: usize, agent_id: i64) -> (r: Result<usize, SubmitError>)
    requires
        old(store).wf(),
    ensures
        final(store).wf(),
        match old(store).match_spec(match_id) {
            None => r == Err::<usize, SubmitError>(SubmitError::MatchNotFound) && final(store).matches@ == old(store).matches@,
            Some(m) => match turn_error(m, player, Action { column }, Authority::Agent(agent_id)) {
                Some(e) => r == Err::<usize, SubmitError>(e) && final(store).matches@ == old(store).matches@,
                None => r == Ok::<usize, SubmitError>(m.turns@.len() as usize)
                    && exists|row| planned(m, player, Action { column }, row)
                        && pushed_at(old(store).matches@, final(store).matches@, match_id - 1, row),
            },
        },
{
    submit_turn(store, match_id, player, Action { column }, Authority::Agent(agent_id))
}

/// The shown form of a slot: a user by username, an agent by its owner's
/// username and its name. Unknown ids show as empty names.
pub open spec fn player_shows(store: MatchStore, slot: PlayerId, p: Player) -> bool {
    match slot {
        PlayerId::User(id) => p matches Player::User(u) && (1 <= id <= store.users@.len() ==> u.username@ == store.users@[id - 1].username@),
        PlayerId::Agent(id) => p matches Player::Agent(a) && a.game == crate::types::Game::Connect4
            && (1 <= id <= store.agents@.len() ==> {
                let e = store.agents@[id - 1];
                &&& a.agentname@ == e.name@
                &&& (1 <= e.user_id <= store.users@.len() ==> a.username@ == store.users@[e.user_id - 1].username@)
            }),
    }
}

/// The shown form of a turn row.
pub open spec fn turn_shows(row: TurnRow, t: Turn<Connect4Action>) -> bool {
    &&& t.number == row.number
    &&& t.player == row.player
    &&& t.action == (match row.action {
        Some(a) => Some(Connect4Action { column: a.column }),
        None => None,
    })
    &&& t.status == status_row(row.status)
}

fn username_of(store: &MatchStore, id: i64) -> (r: String)
    requires
        store.wf(),
    ensures
        1 <= id <= store.users@.len() ==> r@ == store.users@[id - 1].username@,
{
    if 1 <= id && id <= store.users.len() as i64 {
        store.users[(id - 1) as usize].username.clone()
    } else {
        String::new()
    }
}

fn show_player(store: &MatchStore, slot: PlayerId) -> (r: Player)
    requires
        store.wf(),
    ensures
        player_shows(*store, slot, r),
{
    match slot {
        PlayerId::User(id) => Player::User(User { username: username_of(store, id) }),
        PlayerId::Agent(id) => {
            if 1 <= id && id <= store.agents.len() as i64 {
                let e = &store.agents[(id - 1) as usize];
                Player::Agent(Agent {
                    game: crate::types::Game::Connect4,
                    username: username_of(store, e.user_id),
                    agentname: e.name.clone(),
                })
            } else {
                Player::Agent(Agent { game: crate::types::Game::Connect4, username: String::new(), agentname: String::new() })
            }
        },
    }
}

/// Match `match_id` as shown to watchers: slots by name, the turn log
/// without states, the tail's ordinal and the current grid.
pub fn match_view(store: &MatchStore, match_id: i64) -> (r: Option<Match<Connect4Action, Connect4State>>)
    requires
        store.wf(),
    ensures
        match store.match_spec(match_id) {
            None => r is None,
            Some(m) => r matches Some(v) && {
                &&& v.id == m.id
                &&& v.game == crate::types::Game::Connect4
                &&& v.players@.len() == m.players@.len()
                &&& forall|i: int| 0 <= i < v.players@.len() ==> player_shows(*store, m.players@[i], #[trigger] v.players@[i])
                &&& v.turns@.len() == m.turns@.len()
                &&& forall|k: int| 0 <= k < v.turns@.len() ==> turn_shows(m.turns@[k], #[trigger] v.turns@[k])
                &&& v.turn == m.turns@.len() - 1
                &&& v.state.board@ == m.turns@.last().state.board@
            },
        },
{
    let m = match store.load_match(match_id) {
        None => return None,
        Some(m) => m,
    };
    proof {
        assert(crate::store::match_wf(*m));
    }
    let mut players: Vec<Player> = Vec::new();
    let mut i: usize = 0;
    while i < m.players.len()
        invariant
            store.wf(),
            0 <= i <= m.players@.len(),
            players@.len() == i,
            forall|k: int| 0 <= k < i ==> player_shows(*store, m.players@[k], #[trigger] players@[k]),
        decreases m.players@.len() - i,
    {
        players.push(show_player(store, m.players[i]));
        i = i + 1;
    }
    let mut turns: Vec<Turn<Connect4Action>> = Vec::new();
    let mut k: usize = 0;
    while k < m.turns.len()
        invariant
            0 <= k <= m.turns@.len(),
            turns@.len() == k,
            forall|j: int| 0 <= j < k ==> turn_shows(m.turns@[j], #[trigger] turns@[j]),
        decreases m.turns@.len() - k,
    {
        let row = &m.turns[k];
        let action = match row.action {
            Some(a) => Some(Connect4Action { column: a.column }),
            None => None,
        };
        turns.push(Turn { number: row.number, player: row.player, action, status: to_status(row.status) });
        k = k + 1;
    }
    let last = m.turns.len() - 1;
    let state = m.turns[last].state.copy();
    Some(Match {
        id: m.id,
        game: crate::types::Game::Connect4,
        players,
        turns,
        turn: last,
        state: Connect4State { board: state.board },
    })
}

} // verus!

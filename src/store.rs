//! The match store: matches with their player slots and ordered turn logs,
//! and agents with their HTTP endpoints. A turn is appended only at the next
//! free ordinal of a match whose tail is still in progress; an ordinal that
//! is already taken is reported as a conflict of its own.
use vstd::prelude::*;

use crate::board::{dropped, empty_board};
use crate::games::connect4::{column_playable, other_player, Action, Connect4};
use crate::games::{Game, GameStatus};
use crate::matches::PlayerId;

verus! {

/// One entry of a match's turn log, with the status and state it produced.
#[derive(Debug)]
pub struct TurnRow {
    pub number: usize,
    pub player: Option<usize>,
    pub action: Option<Action>,
    pub status: GameStatus,
    pub state: Connect4,
}

/// A match: its slots and its turn log, turn 0 first.
#[derive(Debug)]
pub struct MatchRecord {
    pub id: i64,
    pub game: Game,
    pub created_by: i64,
    pub created_at: u64,
    pub players: Vec<PlayerId>,
    pub turns: Vec<TurnRow>,
}

/// Validation status of an agent's endpoint.
#[derive(Clone, Debug)]
pub enum EndpointStatus {
    Pending,
    Valid,
    /// The last error recorded against the endpoint.
    Failed(String),
}

/// An agent and its HTTP endpoint.
#[derive(Debug)]
pub struct AgentEntry {
    pub id: i64,
    pub user_id: i64,
    pub game: Game,
    pub name: String,
    pub url: String,
    pub status: EndpointStatus,
}

/// What became of a request to append a turn.
#[derive(Clone, Copy, Debug, PartialEq, Eq, Structural)]
pub enum AppendOutcome {
    Appended,
    /// A turn with that ordinal already exists.
    AlreadyTaken,
    /// The ordinal is beyond the next free one.
    OutOfSequence,
    /// The match's last turn is terminal.
    MatchOver,
    NotFound,
}

/// Why an agent cannot be created.
#[derive(Clone, Copy, Debug, PartialEq, Eq, Structural)]
pub enum CreateAgentError {
    /// The owner already has an agent of that name for that game.
    NameTaken,
    /// No more agent ids are available.
    Exhausted,
}

/// A user known to the platform.
#[derive(Debug)]
pub struct UserEntry {
    pub id: i64,
    pub username: String,
}

/// All users, matches and agents. Entry `i` of each list has id `i + 1`.
#[derive(Debug)]
pub struct MatchStore {
    pub users: Vec<UserEntry>,
    pub matches: Vec<MatchRecord>,
    pub agents: Vec<AgentEntry>,
}

/// Agent `a` is the one that `owner` registered for `game` under `name`.
pub open spec fn agent_is(a: AgentEntry, owner: i64, game: Game, name: Seq<char>) -> bool {
    a.user_id == owner && a.game == game && a.name@ == name
}

/// The endpoint status `st` records the failure `e`.
pub open spec fn failed_with(st: EndpointStatus, e: Seq<char>) -> bool {
    st matches EndpointStatus::Failed(s) && s@ == e
}

/// The synthetic turn 0: no actor, no action, the empty grid with player 0 to move.
pub open spec fn initial_row(r: TurnRow) -> bool {
    &&& r.number == 0
    &&& r.player is None
    &&& r.action is None
    &&& r.status == (GameStatus::InProgress { next_player: 0 })
    &&& r.state.wf()
    &&& r.state.board@ == empty_board()
    &&& r.state.next_player == 0
}

/// `row` is the turn that follows `prev`: it is played by the player whose
/// turn `prev` names, with a playable column, and records the grid and status
/// that result. Nothing follows a terminal turn.
pub open spec fn follows(prev: TurnRow, row: TurnRow) -> bool {
    match prev.status {
        GameStatus::InProgress { next_player } => {
            &&& row.number == prev.number + 1
            &&& row.player == Some(next_player)
            &&& row.action is Some
            &&& column_playable(prev.state.board@, row.action.unwrap().column as int)
            &&& row.state.wf()
            &&& row.state.board@ == dropped(prev.state.board@, row.action.unwrap().column as int, next_player)
            &&& row.state.next_player == other_player(next_player)
            &&& row.status == row.state.status_spec()
        },
        GameStatus::Over { .. } => false,
    }
}

/// A turn row's status names the same player to move as its state.
pub open spec fn row_consistent(r: TurnRow) -> bool {
    &&& r.state.wf()
    &&& (r.status matches GameStatus::InProgress { next_player } ==> next_player == r.state.next_player)
}

/// A well-formed turn log: turn 0 first, each later turn follows the one
/// before it, ordinal `k` at position `k`.
pub open spec fn log_wf(turns: Seq<TurnRow>) -> bool {
    &&& turns.len() >= 1
    &&& initial_row(turns[0])
    &&& forall|k: int| 0 <= k < turns.len() ==> (#[trigger] turns[k]).number == k
    &&& forall|k: int| 0 <= k < turns.len() ==> row_consistent(#[trigger] turns[k])
    &&& forall|k: int| 1 <= k < turns.len() ==> follows(turns[k - 1], #[trigger] turns[k])
}

/// A well-formed match: two slots and a well-formed turn log.
pub open spec fn match_wf(m: MatchRecord) -> bool {
    &&& m.players@.len() == 2
    &&& log_wf(m.turns@)
}

/// The last turn of a match.
pub open spec fn tail(m: MatchRecord) -> TurnRow {
    m.turns@.last()
}

/// The index in the list of the match with id `id`, if there is one.
pub open spec fn match_index(s: Seq<MatchRecord>, id: i64) -> Option<int> {
    if 1 <= id <= s.len() {
        Some(id - 1)
    } else {
        None
    }
}

/// What appending `row` to match `m` gives.
pub open spec fn append_outcome(m: MatchRecord, row: TurnRow) -> AppendOutcome {
    if row.number < m.turns@.len() {
        AppendOutcome::AlreadyTaken
    } else if row.number > m.turns@.len() {
        AppendOutcome::OutOfSequence
    } else if tail(m).status.is_over() {
        AppendOutcome::MatchOver
    } else {
        AppendOutcome::Appended
    }
}

/// `row` may be offered for appending to `m`: where it would land right
/// after an in-progress turn, it follows that turn.
pub open spec fn may_append(m: MatchRecord, row: TurnRow) -> bool {
    (1 <= row.number <= m.turns@.len() && !m.turns@[row.number - 1].status.is_over())
        ==> follows(m.turns@[row.number - 1], row)
}

/// Matches `a` and `b` differ at most in the log of match index `i`, where
/// `b`'s log extends `a`'s by `row`.
pub open spec fn pushed_at(a: Seq<MatchRecord>, b: Seq<MatchRecord>, i: int, row: TurnRow) -> bool {
    &&& a.len() == b.len()
    &&& forall|j: int| 0 <= j < a.len() && j != i ==> b[j] == a[j]
    &&& b[i].id == a[i].id
    &&& b[i].game == a[i].game
    &&& b[i].created_by == a[i].created_by
    &&& b[i].created_at == a[i].created_at
    &&& b[i].players@ == a[i].players@
    &&& b[i].turns@ == a[i].turns@.push(row)
}

/// Pushing a turn that follows the last one keeps a log well formed.
pub proof fn lemma_log_push(turns: Seq<TurnRow>, row: TurnRow)
    requires
        log_wf(turns),
        follows(turns.last(), row),
    ensures
        log_wf(turns.push(row)),
{
    let t = turns.push(row);
    assert(t[0] == turns[0]);
    assert forall|k: int| 0 <= k < t.len() implies (#[trigger] t[k]).number == k by {
        if k < turns.len() {
            assert(t[k] == turns[k]);
        }
    }
    assert forall|k: int| 1 <= k < t.len() implies follows(t[k - 1], #[trigger] t[k]) by {
        if k < turns.len() {
            assert(t[k] == turns[k]);
            assert(t[k - 1] == turns[k - 1]);
        }
    }
    assert forall|k: int| 0 <= k < t.len() implies row_consistent(#[trigger] t[k]) by {
        if k < turns.len() {
            assert(t[k] == turns[k]);
        }
    }
}

/// Each ordinal from 0 to the tail's belongs to exactly one turn of the log.
pub proof fn lemma_ordinals_dense(m: MatchRecord, k: int)
    requires
        match_wf(m),
        0 <= k < m.turns@.len(),
    ensures
        forall|j: int| 0 <= j < m.turns@.len() ==> ((#[trigger] m.turns@[j]).number == k <==> j == k),
{
}

/// Once a turn is terminal it is the tail: every earlier turn is in
/// progress, and no turn can be appended after it.
pub proof fn lemma_over_is_final(m: MatchRecord, row: TurnRow)
    requires
        match_wf(m),
    ensures
        forall|k: int| 0 <= k < m.turns@.len() - 1 ==> !(#[trigger] m.turns@[k]).status.is_over(),
        tail(m).status.is_over() ==> append_outcome(m, row) != AppendOutcome::Appended,
{
    assert forall|k: int| 0 <= k < m.turns@.len() - 1 implies !(#[trigger] m.turns@[k]).status.is_over() by {
        assert(follows(m.turns@[k], m.turns@[k + 1]));
    }
}

/// The grid and player to move after playing `cols` in turn from the empty
/// grid with player 0 to move.
pub open spec fn replay(cols: Seq<usize>) -> (Seq<Option<usize>>, usize)
    decreases cols.len(),
{
    if cols.len() == 0 {
        (empty_board(), 0)
    } else {
        let prev = replay(cols.drop_last());
        (dropped(prev.0, cols.last() as int, prev.1), other_player(prev.1))
    }
}

/// The columns played by turns 1 to `k` of a log.
pub open spec fn columns_played(turns: Seq<TurnRow>, k: int) -> Seq<usize> {
    Seq::new(k as nat, |j: int| turns[j + 1].action.unwrap().column)
}

/// The state recorded with turn `k` is the replay of the actions of turns 1 to `k`.
pub proof fn lemma_state_is_replay(turns: Seq<TurnRow>, k: int)
    requires
        log_wf(turns),
        0 <= k < turns.len(),
    ensures
        (turns[k].state.board@, turns[k].state.next_player) == replay(columns_played(turns, k)),
    decreases k,
{
    if k > 0 {
        lemma_state_is_replay(turns, k - 1);
        assert(columns_played(turns, k).drop_last() =~= columns_played(turns, k - 1));
        assert(follows(turns[k - 1], turns[k]));
        assert(row_consistent(turns[k - 1]));
    } else {
        assert(initial_row(turns[0]));
    }
}

impl MatchStore {
    /// Every match is well formed and sits at the index its id names; every
    /// agent likewise.
    pub open spec fn wf(&self) -> bool {
        &&& self.matches@.len() <= i64::MAX
        &&& self.agents@.len() <= i64::MAX
        &&& forall|i: int| 0 <= i < self.matches@.len() ==> (#[trigger] self.matches@[i]).id == i + 1
        &&& forall|i: int| 0 <= i < self.matches@.len() ==> match_wf(#[trigger] self.matches@[i])
        &&& forall|i: int| 0 <= i < self.agents@.len() ==> (#[trigger] self.agents@[i]).id == i + 1
        &&& self.users@.len() <= i64::MAX
        &&& forall|i: int| 0 <= i < self.users@.len() ==> (#[trigger] self.users@[i]).id == i + 1
        &&& forall|i: int, j: int| 0 <= i < self.users@.len() && 0 <= j < self.users@.len()
            && (#[trigger] self.users@[i]).username@ == (#[trigger] self.users@[j]).username@ ==> i == j
    }

    /// The agent with id `id`, if there is one.
    pub open spec fn agent_spec(&self, id: i64) -> Option<AgentEntry> {
        if 1 <= id <= self.agents@.len() {
            Some(self.agents@[id - 1])
        } else {
            None
        }
    }

    /// The match with id `id`, if there is one.
    pub open spec fn match_spec(&self, id: i64) -> Option<MatchRecord> {
        match match_index(self.matches@, id) {
            Some(i) => Some(self.matches@[i]),
            None => None,
        }
    }

    /// An empty store.
    pub fn new() -> (r: MatchStore)
        ensures
            r.wf(),
            r.users@.len() == 0,
            r.matches@.len() == 0,
            r.agents@.len() == 0,
    {
        MatchStore { users: Vec::new(), matches: Vec::new(), agents: Vec::new() }
    }

    /// Creates a match between two slots, with its turn 0, and returns its
    /// fresh id.
    pub fn create_match(&mut self, creator: i64, game: Game, created_at: u64, slot0: PlayerId, slot1: PlayerId) -> (r: i64)
        requires
            old(self).wf(),
            old(self).matches@.len() < i64::MAX,
        ensures
            final(self).wf(),
            r == old(self).matches@.len() + 1,
            final(self).matches@.len() == old(self).matches@.len() + 1,
            forall|i: int| 0 <= i < old(self).matches@.len() ==> final(self).matches@[i] == old(self).matches@[i],
            final(self).agents@ == old(self).agents@,
            final(self).users@ == old(self).users@,
            final(self).match_spec(r) matches Some(m) && {
                &&& m.id == r
                &&& m.game == game
                &&& m.created_by == creator
                &&& m.created_at == created_at
                &&& m.players@ == seq![slot0, slot1]
                &&& m.turns@.len() == 1
                &&& initial_row(m.turns@[0])
            },
    {
        let id: i64 = self.matches.len() as i64 + 1;
        let state = Connect4::default();
        let row = TurnRow {
            number: 0,
            player: None,
            action: None,
            status: GameStatus::InProgress { next_player: 0 },
            state,
        };
        let mut turns: Vec<TurnRow> = Vec::new();
        turns.push(row);
        let mut players: Vec<PlayerId> = Vec::new();
        players.push(slot0);
        players.push(slot1);
        let m = MatchRecord { id, game, created_by: creator, created_at, players, turns };
        proof {
            assert(m.players@ =~= seq![slot0, slot1]);
            assert(match_wf(m));
        }
        self.matches.push(m);
        id
    }

    /// The match with id `id`, if there is one.
    pub fn load_match(&self, id: i64) -> (r: Option<&MatchRecord>)
        requires
            self.wf(),
        ensures
            match self.match_spec(id) {
                Some(m) => r matches Some(x) && *x == m,
                None => r is None,
            },
    {
        if 1 <= id && id <= self.matches.len() as i64 {
            Some(&self.matches[(id - 1) as usize])
        } else {
            None
        }
    }

    /// Appends `row` to the log of match `id` when its ordinal is the next
    /// free one and the current last turn is not terminal. Otherwise the
    /// store is left as it was and the outcome says why.
    pub fn append_turn(&mut self, id: i64, row: TurnRow) -> (r: AppendOutcome)
        requires
            old(self).wf(),
            old(self).match_spec(id) matches Some(m) ==> may_append(m, row),
        ensures
            final(self).wf(),
            final(self).agents@ == old(self).agents@,
            final(self).users@ == old(self).users@,
            match old(self).match_spec(id) {
                None => r == AppendOutcome::NotFound && final(self).matches@ == old(self).matches@,
                Some(m) => {
                    &&& r == append_outcome(m, row)
                    &&& r == AppendOutcome::Appended ==> pushed_at(old(self).matches@, final(self).matches@, id - 1, row)
                    &&& r != AppendOutcome::Appended ==> final(self).matches@ == old(self).matches@
                },
            },
    {
        if id < 1 || id > self.matches.len() as i64 {
            return AppendOutcome::NotFound;
        }
        let idx = (id - 1) as usize;
        let len = self.matches[idx].turns.len();
        if row.number < len {
            return AppendOutcome::AlreadyTaken;
        }
        if row.number > len {
            return AppendOutcome::OutOfSequence;
        }
        let over = match self.matches[idx].turns[len - 1].status {
            GameStatus::Over { .. } => true,
            GameStatus::InProgress { .. } => false,
        };
        if over {
            return AppendOutcome::MatchOver;
        }
        let ghost old_matches = self.matches@;
        let mut m = MatchRecord {
            id: 0,
            game: Game::Connect4,
            created_by: 0,
            created_at: 0,
            players: Vec::new(),
            turns: Vec::new(),
        };
        self.matches.set_and_swap(idx, &mut m);
        m.turns.push(row);
        proof {
            lemma_log_push(old_matches[idx as int].turns@, row);
            assert(match_wf(m));
        }
        self.matches.set_and_swap(idx, &mut m);
        proof {
            assert forall|i: int| 0 <= i < self.matches@.len() implies match_wf(#[trigger] self.matches@[i]) by {
                if i != idx as int {
                    assert(self.matches@[i] == old_matches[i]);
                }
            }
        }
        AppendOutcome::Appended
    }

    /// Registers a user and returns the id; a username that is already
    /// registered gives back its existing id.
    pub fn add_user(&mut self, username: String) -> (r: Option<i64>)
        requires
            old(self).wf(),
        ensures
            final(self).wf(),
            final(self).matches@ == old(self).matches@,
            final(self).agents@ == old(self).agents@,
            match r {
                Some(id) => 1 <= id <= final(self).users@.len() && final(self).users@[id - 1].username@ == username@,
                None => old(self).users@.len() == i64::MAX && final(self).users@ == old(self).users@,
            },
            (exists|i: int| 0 <= i < old(self).users@.len() && old(self).users@[i].username@ == username@)
                ==> r is Some && final(self).users@ == old(self).users@,
            final(self).users@ == old(self).users@ || final(self).users@ == old(self).users@.push(UserEntry { id: r.unwrap(), username }),
    {
        match self.find_user(&username) {
            Some(id) => return Some(id),
            None => {},
        }
        if self.users.len() as u64 >= i64::MAX as u64 {
            return None;
        }
        let id = self.users.len() as i64 + 1;
        self.users.push(UserEntry { id, username });
        Some(id)
    }

    /// The id of the user named `username`, if there is one.
    pub fn find_user(&self, username: &String) -> (r: Option<i64>)
        requires
            self.wf(),
        ensures
            match r {
                Some(id) => 1 <= id <= self.users@.len() && self.users@[id - 1].username@ == username@,
                None => forall|i: int| 0 <= i < self.users@.len() ==> (#[trigger] self.users@[i]).username@ != username@,
            },
    {
        let mut i: usize = 0;
        while i < self.users.len()
            invariant
                self.wf(),
                0 <= i <= self.users@.len(),
                forall|k: int| 0 <= k < i ==> (#[trigger] self.users@[k]).username@ != username@,
            decreases self.users@.len() - i,
        {
            if self.users[i].username == *username {
                return Some(self.users[i].id);
            }
            i = i + 1;
        }
        None
    }

    /// The id of the agent that `owner` registered for `game` under `name`.
    pub fn find_agent(&self, owner: i64, game: Game, name: &String) -> (r: Option<i64>)
        requires
            self.wf(),
        ensures
            match r {
                Some(id) => 1 <= id <= self.agents@.len() && agent_is(self.agents@[id - 1], owner, game, name@),
                None => forall|i: int| 0 <= i < self.agents@.len() ==> !agent_is(#[trigger] self.agents@[i], owner, game, name@),
            },
    {
        let mut i: usize = 0;
        while i < self.agents.len()
            invariant
                self.wf(),
                0 <= i <= self.agents@.len(),
                forall|k: int| 0 <= k < i ==> !agent_is(#[trigger] self.agents@[k], owner, game, name@),
            decreases self.agents@.len() - i,
        {
            let a = &self.agents[i];
            if a.user_id == owner && a.game == game && a.name == *name {
                return Some(a.id);
            }
            i = i + 1;
        }
        None
    }

    /// The endpoint URL of the agent that `owner` registered for `game`
    /// under `name`.
    pub fn find_agent_endpoint(&self, owner: i64, name: &String, game: Game) -> (r: Option<&String>)
        requires
            self.wf(),
        ensures
            match r {
                Some(url) => exists|i: int| 0 <= i < self.agents@.len() && agent_is(self.agents@[i], owner, game, name@) && self.agents@[i].url == *url,
                None => forall|i: int| 0 <= i < self.agents@.len() ==> !agent_is(#[trigger] self.agents@[i], owner, game, name@),
            },
    {
        match self.find_agent(owner, game, name) {
            Some(id) => match self.load_agent(id) {
                Some(a) => Some(&a.url),
                None => None,
            },
            None => None,
        }
    }

    /// The agent with id `id`, if there is one.
    pub fn load_agent(&self, id: i64) -> (r: Option<&AgentEntry>)
        requires
            self.wf(),
        ensures
            match self.agent_spec(id) {
                Some(a) => r matches Some(x) && *x == a,
                None => r is None,
            },
    {
        if 1 <= id && id <= self.agents.len() as i64 {
            Some(&self.agents[(id - 1) as usize])
        } else {
            None
        }
    }

    /// Registers an agent with its endpoint, pending validation. An owner
    /// has at most one agent of a name per game.
    pub fn create_agent(&mut self, owner: i64, game: Game, name: String, url: String) -> (r: Result<i64, CreateAgentError>)
        requires
            old(self).wf(),
        ensures
            final(self).wf(),
            final(self).matches@ == old(self).matches@,
            final(self).users@ == old(self).users@,
            (exists|i: int| 0 <= i < old(self).agents@.len() && agent_is(old(self).agents@[i], owner, game, name@))
                ==> r == Err::<i64, CreateAgentError>(CreateAgentError::NameTaken) && final(self).agents@ == old(self).agents@,
            r matches Ok(id) ==> {
                &&& id == old(self).agents@.len() + 1
                &&& final(self).agents@.len() == old(self).agents@.len() + 1
                &&& final(self).agents@.drop_last() == old(self).agents@
                &&& agent_is(final(self).agents@[id - 1], owner, game, name@)
                &&& final(self).agents@[id - 1].url == url
                &&& final(self).agents@[id - 1].status is Pending
            },
            r == Err::<i64, CreateAgentError>(CreateAgentError::Exhausted) ==> old(self).agents@.len() == i64::MAX,
            r == Err::<i64, CreateAgentError>(CreateAgentError::NameTaken)
                ==> exists|i: int| 0 <= i < old(self).agents@.len() && agent_is(old(self).agents@[i], owner, game, name@),
            r is Err ==> final(self).agents@ == old(self).agents@,
    {
        match self.find_agent(owner, game, &name) {
            Some(id) => {
                assert(agent_is(self.agents@[id - 1], owner, game, name@));
                return Err(CreateAgentError::NameTaken);
            },
            None => {},
        }
        if self.agents.len() as u64 >= i64::MAX as u64 {
            return Err(CreateAgentError::Exhausted);
        }
        let id = self.agents.len() as i64 + 1;
        self.agents.push(AgentEntry { id, user_id: owner, game, name, url, status: EndpointStatus::Pending });
        proof {
            assert(self.agents@.drop_last() =~= old(self).agents@);
        }
        Ok(id)
    }

    /// Sets the validation status of agent `id`'s endpoint. Returns whether
    /// the agent exists.
    pub fn update_agent_validation(&mut self, id: i64, status: EndpointStatus) -> (r: bool)
        requires
            old(self).wf(),
        ensures
            final(self).wf(),
            final(self).matches@ == old(self).matches@,
            final(self).users@ == old(self).users@,
            r == old(self).agent_spec(id) is Some,
            r ==> final(self).agents@.len() == old(self).agents@.len()
                && final(self).agents@[id - 1].status == status
                && final(self).agents@[id - 1].url == old(self).agents@[id - 1].url
                && agent_is(final(self).agents@[id - 1], old(self).agents@[id - 1].user_id, old(self).agents@[id - 1].game, old(self).agents@[id - 1].name@)
                && forall|j: int| 0 <= j < old(self).agents@.len() && j != id - 1 ==> final(self).agents@[j] == old(self).agents@[j],
            !r ==> final(self).agents@ == old(self).agents@,
    {
        if id < 1 || id > self.agents.len() as i64 {
            return false;
        }
        let idx = (id - 1) as usize;
        let mut a = AgentEntry {
            id: 0,
            user_id: 0,
            game: Game::Connect4,
            name: String::new(),
            url: String::new(),
            status: EndpointStatus::Pending,
        };
        self.agents.set_and_swap(idx, &mut a);
        a.status = status;
        self.agents.set_and_swap(idx, &mut a);
        true
    }
}

} // verus!

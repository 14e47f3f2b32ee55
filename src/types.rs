//! Records exchanged with the platform's collaborators: identities supplied by
//! authentication, and the plain match view shown to watchers.
use vstd::prelude::*;

verus! {

/// A signed-in user, as supplied by the authentication collaborator.
#[derive(Clone, Debug)]
pub struct UserRecord {
    pub id: i64,
    pub clerk_id: String,
    pub username: String,
    pub first_name: String,
    pub last_name: String,
    pub email: String,
}

/// A stored agent and its owner.
#[derive(Clone, Debug)]
pub struct AgentRecord {
    pub id: i64,
    pub user_id: i64,
    pub name: String,
}

/// Game tags as they appear in stored rows.
#[derive(Clone, Copy, Debug, PartialEq, Eq, Structural)]
pub enum Game {
    Connect4,
}

/// A user seat, by username.
#[derive(Clone, Debug)]
pub struct User {
    pub username: String,
}

/// An agent seat: owner's username and agent name.
#[derive(Clone, Debug)]
pub struct Agent {
    pub game: Game,
    pub username: String,
    pub agentname: String,
}

/// Who sits in a player slot.
#[derive(Clone, Debug)]
pub enum Player {
    User(User),
    Agent(Agent),
}

/// A Connect-4 move as sent by players and agents.
#[derive(Clone, Copy, Debug, PartialEq, Eq, Structural)]
pub struct Connect4Action {
    pub column: usize,
}

/// The stored Connect-4 grid.
#[derive(Clone, Debug)]
pub struct Connect4State {
    pub board: Vec<Option<usize>>,
}

/// The status column of a turn row.
#[derive(Clone, Copy, Debug, PartialEq, Eq, Structural)]
pub enum Status {
    Over { winner: Option<usize> },
    InProgress { next_player: usize },
}

/// One entry of a match's turn log.
#[derive(Clone, Debug)]
pub struct Turn<A> {
    pub number: usize,
    pub player: Option<usize>,
    pub action: Option<A>,
    pub status: Status,
}

/// A match as shown to watchers.
#[derive(Clone, Debug)]
pub struct Match<A, S> {
    pub id: i64,
    pub game: Game,
    pub players: Vec<Player>,
    pub turns: Vec<Turn<A>>,
    pub turn: usize,
    pub state: S,
}

} // verus!

//! Request payloads of the web endpoints that move matches on.
use vstd::prelude::*;

verus! {

/// A human's turn as posted from the match page.
#[derive(Clone, Copy, Debug, PartialEq, Eq, Structural)]
pub struct CreateTurnFormData {
    pub player: usize,
    pub column: usize,
}

/// The query of a delivered agent response: which match, agent and slot it
/// answers for.
#[derive(Clone, Copy, Debug, PartialEq, Eq, Structural)]
pub struct AgentTurnCallbackParams {
    pub match_id: i64,
    pub agent_id: i64,
    pub player: usize,
}

/// A response relayed by a message queue: the agent's status code and body.
#[derive(Clone, Debug)]
pub struct QStashCallback {
    pub status: u16,
    pub body: String,
}

} // verus!

//! The agent driver's decisions. Whoever runs the driver performs the
//! outbound HTTP call and hands the outcome here; these functions say what to
//! do next: submit the agent's action, retry after a back-off, or give up and
//! leave the match waiting. They also find the matches that wait for an
//! agent, and keep at most one driver running per match.
use vstd::prelude::*;
use vstd::string::*;

use crate::executor::SubmitError;
use crate::games::connect4::Action;
use crate::games::{connect4_tag, Game, GameStatus};
use crate::matches::PlayerId;
use crate::store::{match_wf, tail, EndpointStatus, MatchRecord, MatchStore};

verus! {

/// Attempts made at one agent call before giving up.
pub const MAX_ATTEMPTS: u32 = 3;

/// Delay before the first retry; each later retry waits twice as long.
pub const BASE_DELAY_MS: u64 = 1000;

/// Bound on one outbound request to an agent.
pub const REQUEST_TIMEOUT_MS: u64 = 30000;

/// Delay before the retry that follows failed attempt number `attempt`
/// (counted from 0).
pub open spec fn backoff_ms(attempt: nat) -> nat
    decreases attempt,
{
    if attempt == 0 {
        1000
    } else {
        2 * backoff_ms((attempt - 1) as nat)
    }
}

/// What came of one call to an agent's endpoint.
#[derive(Debug)]
pub enum CallOutcome {
    /// A 2xx response whose body is an action.
    Replied(Action),
    /// Transport error, timeout or non-2xx status.
    Failed(String),
    /// A 2xx response whose body is not an action.
    Malformed(String),
}

/// What the driver does after a call.
#[derive(Debug)]
pub enum Decision {
    /// Submit the agent's action through the executor.
    Submit(Action),
    /// Record the failure, wait, then make attempt `attempt`.
    Retry { attempt: u32, delay_ms: u64, error: String },
    /// Record the failure and stop; the match keeps waiting for the agent.
    GiveUp { error: String },
}

/// The decision after attempt `attempt` ended with `outcome`.
pub open spec fn decision_for(attempt: u32, outcome: CallOutcome) -> Decision {
    match outcome {
        CallOutcome::Replied(a) => Decision::Submit(a),
        CallOutcome::Failed(e) => if attempt + 1 < MAX_ATTEMPTS {
            Decision::Retry { attempt: (attempt + 1) as u32, delay_ms: backoff_ms(attempt as nat) as u64, error: e }
        } else {
            Decision::GiveUp { error: e }
        },
        CallOutcome::Malformed(e) => Decision::GiveUp { error: e },
    }
}

fn backoff_delay(attempt: u32) -> (r: u64)
    requires
        attempt < MAX_ATTEMPTS,
    ensures
        r == backoff_ms(attempt as nat),
{
    let mut d: u64 = BASE_DELAY_MS;
    let mut i: u32 = 0;
    while i < attempt
        invariant
            0 <= i <= attempt < 3,
            d == backoff_ms(i as nat),
            i == 0 ==> d == 1000,
            i == 1 ==> d == 2000,
            i == 2 ==> d == 4000,
        decreases attempt - i,
    {
        d = d * 2;
        i = i + 1;
        assert(backoff_ms(i as nat) == 2 * backoff_ms((i - 1) as nat));
    }
    d
}

/// What to do after attempt `attempt` (counted from 0) ended with
/// `outcome`: submit a returned action; retry a failed call with exponential
/// back-off while attempts remain; otherwise give up. A malformed reply is
/// not retried.
pub fn decide(attempt: u32, outcome: CallOutcome) -> (r: Decision)
    requires
        attempt < MAX_ATTEMPTS,
    ensures
        r == decision_for(attempt, outcome),
{
    match outcome {
        CallOutcome::Replied(a) => Decision::Submit(a),
        CallOutcome::Failed(e) => {
            if attempt + 1 < MAX_ATTEMPTS {
                Decision::Retry { attempt: attempt + 1, delay_ms: backoff_delay(attempt), error: e }
            } else {
                Decision::GiveUp { error: e }
            }
        },
        CallOutcome::Malformed(e) => Decision::GiveUp { error: e },
    }
}

/// The endpoint status that a validation probe of a new agent leads to:
/// valid when it answered with an action, failed with the error otherwise.
pub fn probe_status(outcome: CallOutcome) -> (r: EndpointStatus)
    ensures
        match outcome {
            CallOutcome::Replied(_) => r is Valid,
            CallOutcome::Failed(e) => r == EndpointStatus::Failed(e),
            CallOutcome::Malformed(e) => r == EndpointStatus::Failed(e),
        },
{
    match outcome {
        CallOutcome::Replied(_) => EndpointStatus::Valid,
        CallOutcome::Failed(e) => EndpointStatus::Failed(e),
        CallOutcome::Malformed(e) => EndpointStatus::Failed(e),
    }
}

/// What the driver does once the executor answered a submission.
#[derive(Clone, Copy, Debug, PartialEq, Eq, Structural)]
pub enum AfterSubmit {
    /// Reload the match and look at the new tail.
    Continue,
    /// The agent's action broke the rules: record the failure, do not retry.
    AgentFault,
    /// Nothing more to do for this match.
    Stop,
}

/// The step after a submission: go on after an append or a lost race, blame
/// the agent for a rule-invalid action, stop otherwise.
pub open spec fn after_submit_spec(result: Result<usize, SubmitError>) -> AfterSubmit {
    match result {
        Ok(_) => AfterSubmit::Continue,
        Err(SubmitError::RaceLost) => AfterSubmit::Continue,
        Err(SubmitError::InvalidAction(_)) => AfterSubmit::AgentFault,
        Err(_) => AfterSubmit::Stop,
    }
}

pub fn after_submit(result: &Result<usize, SubmitError>) -> (r: AfterSubmit)
    ensures
        r == after_submit_spec(*result),
{
    match result {
        Ok(_) => AfterSubmit::Continue,
        Err(SubmitError::RaceLost) => AfterSubmit::Continue,
        Err(SubmitError::InvalidAction(_)) => AfterSubmit::AgentFault,
        Err(_) => AfterSubmit::Stop,
    }
}

/// The slot and agent that must move next in `m`, when an agent must.
pub open spec fn agent_to_move(m: MatchRecord) -> Option<(usize, i64)> {
    match tail(m).status {
        GameStatus::InProgress { next_player } => match m.players@[next_player as int] {
            PlayerId::Agent(a) => Some((next_player, a)),
            PlayerId::User(_) => None,
        },
        GameStatus::Over { .. } => None,
    }
}

/// The slot and agent that must move next, when the match is in progress
/// and an agent holds the slot to move.
pub fn next_agent_turn(m: &MatchRecord) -> (r: Option<(usize, i64)>)
    requires
        match_wf(*m),
    ensures
        r == agent_to_move(*m),
{
    proof {
        crate::executor::lemma_next_player_in_range(*m);
    }
    let last = m.turns.len() - 1;
    match m.turns[last].status {
        GameStatus::InProgress { next_player } => match m.players[next_player] {
            PlayerId::Agent(a) => Some((next_player, a)),
            PlayerId::User(_) => None,
        },
        GameStatus::Over { .. } => None,
    }
}

/// Ids of the first `n` matches whose next mover is an agent, in id order.
pub open spec fn waiting_on_agents(ms: Seq<MatchRecord>, n: int) -> Seq<i64>
    decreases n,
{
    if n <= 0 {
        Seq::empty()
    } else if agent_to_move(ms[n - 1]) is Some {
        waiting_on_agents(ms, n - 1).push(ms[n - 1].id)
    } else {
        waiting_on_agents(ms, n - 1)
    }
}

/// The recovery scan: ids of every in-progress match whose next mover is an
/// agent, in id order. The driver is started for each of them.
pub fn matches_needing_driver(store: &MatchStore) -> (r: Vec<i64>)
    requires
        store.wf(),
    ensures
        r@ == waiting_on_agents(store.matches@, store.matches@.len() as int),
{
    let mut out: Vec<i64> = Vec::new();
    let mut i: usize = 0;
    while i < store.matches.len()
        invariant
            store.wf(),
            0 <= i <= store.matches@.len(),
            out@ == waiting_on_agents(store.matches@, i as int),
        decreases store.matches@.len() - i,
    {
        let m = &store.matches[i];
        assert(match_wf(*m));
        if next_agent_turn(m).is_some() {
            out.push(m.id);
        }
        i = i + 1;
    }
    out
}

/// The endpoint records of `a` and `b` agree but for agent `id`, whose
/// status became `status`; matches and users are untouched.
pub open spec fn validation_set(a: MatchStore, b: MatchStore, id: i64, status: EndpointStatus) -> bool {
    &&& b.matches@ == a.matches@
    &&& b.users@ == a.users@
    &&& b.agents@.len() == a.agents@.len()
    &&& 1 <= id <= a.agents@.len()
    &&& b.agents@[id - 1].status == status
    &&& forall|j: int| 0 <= j < a.agents@.len() && j != id - 1 ==> b.agents@[j] == a.agents@[j]
}

/// Records a failed call against agent `id`'s endpoint: its status becomes
/// failed with `error` as the last error. Matches are untouched.
pub fn record_failure(store: &mut MatchStore, id: i64, error: String) -> (r: bool)
    requires
        old(store).wf(),
    ensures
        final(store).wf(),
        r == old(store).agent_spec(id) is Some,
        r ==> validation_set(*old(store), *final(store), id, EndpointStatus::Failed(error)),
        !r ==> final(store).agents@ == old(store).agents@ && final(store).matches@ == old(store).matches@,
{
    store.update_agent_validation(id, EndpointStatus::Failed(error))
}

/// Three failed calls in a row: the first two are retried after 1 s and
/// 2 s, the third gives up; once each failure is recorded the endpoint is
/// failed with the last error and the matches are as before.
pub proof fn lemma_three_failures(
    e1: String,
    e2: String,
    e3: String,
    s0: MatchStore,
    s1: MatchStore,
    s2: MatchStore,
    s3: MatchStore,
    id: i64,
)
    requires
        validation_set(s0, s1, id, EndpointStatus::Failed(e1)),
        validation_set(s1, s2, id, EndpointStatus::Failed(e2)),
        validation_set(s2, s3, id, EndpointStatus::Failed(e3)),
    ensures
        decision_for(0, CallOutcome::Failed(e1)) == (Decision::Retry { attempt: 1, delay_ms: 1000, error: e1 }),
        decision_for(1, CallOutcome::Failed(e2)) == (Decision::Retry { attempt: 2, delay_ms: 2000, error: e2 }),
        decision_for(2, CallOutcome::Failed(e3)) == (Decision::GiveUp { error: e3 }),
        s3.agents@[id - 1].status == EndpointStatus::Failed(e3),
        s3.matches@ == s0.matches@,
{
    assert(backoff_ms(1) == 2 * backoff_ms(0));
}

/// The matches for which a driver is running; at most one per match.
#[derive(Debug)]
pub struct DriverRegistry {
    pub active: Vec<i64>,
}

impl DriverRegistry {
    pub open spec fn wf(&self) -> bool {
        self.active@.no_duplicates()
    }

    /// No driver is running.
    pub fn new() -> (r: DriverRegistry)
        ensures
            r.wf(),
            r.active@.len() == 0,
    {
        DriverRegistry { active: Vec::new() }
    }

    /// Claims match `id` for a driver. Returns false, changing nothing, when
    /// a driver already runs for it: the second trigger coalesces.
    pub fn try_begin(&mut self, id: i64) -> (r: bool)
        requires
            old(self).wf(),
        ensures
            final(self).wf(),
            r == !old(self).active@.contains(id),
            r ==> final(self).active@ == old(self).active@.push(id),
            !r ==> final(self).active@ == old(self).active@,
    {
        let mut i: usize = 0;
        while i < self.active.len()
            invariant
                self.wf(),
                self.active@ == old(self).active@,
                0 <= i <= self.active@.len(),
                forall|k: int| 0 <= k < i ==> self.active@[k] != id,
            decreases self.active@.len() - i,
        {
            if self.active[i] == id {
                return false;
            }
            i = i + 1;
        }
        self.active.push(id);
        proof {
            assert(!old(self).active@.contains(id));
        }
        true
    }

    /// Releases match `id` once its driver stops.
    pub fn finish(&mut self, id: i64)
        requires
            old(self).wf(),
        ensures
            final(self).wf(),
            forall|x: i64| final(self).active@.contains(x) <==> (old(self).active@.contains(x) && x != id),
    {
        let mut kept: Vec<i64> = Vec::new();
        let mut i: usize = 0;
        while i < self.active.len()
            invariant
                self.wf(),
                0 <= i <= self.active@.len(),
                kept@.no_duplicates(),
                forall|x: i64| kept@.contains(x) <==> (exists|k: int| 0 <= k < i && self.active@[k] == x && x != id),
            decreases self.active@.len() - i,
        {
            let x = self.active[i];
            let ghost before = kept@;
            if x != id {
                proof {
                    if before.contains(x) {
                        let k = choose|k: int| 0 <= k < i && self.active@[k] == x && x != id;
                        assert(self.active@[k] == self.active@[i as int]);
                    }
                }
                kept.push(x);
            }
            proof {
                assert forall|y: i64| kept@.contains(y) <==> (exists|k: int| 0 <= k < i + 1 && self.active@[k] == y && y != id) by {
                    if kept@.contains(y) {
                        if before.contains(y) {
                            let k = choose|k: int| 0 <= k < i && self.active@[k] == y && y != id;
                            assert(0 <= k < i + 1 && self.active@[k] == y && y != id);
                        } else {
                            let j = choose|j: int| 0 <= j < kept@.len() && kept@[j] == y;
                            assert(j == before.len());
                            assert(self.active@[i as int] == y && y != id);
                        }
                    }
                    if exists|k: int| 0 <= k < i + 1 && self.active@[k] == y && y != id {
                        let k = choose|k: int| 0 <= k < i + 1 && self.active@[k] == y && y != id;
                        if k < i {
                            assert(before.contains(y));
                            let j = choose|j: int| 0 <= j < before.len() && before[j] == y;
                            assert(kept@[j] == y);
                        } else {
                            assert(kept@[kept@.len() - 1] == y);
                        }
                    }
                }
            }
            i = i + 1;
        }
        self.active = kept;
    }
}

/// Decimal digits of `n`.
pub open spec fn decimal(n: nat) -> Seq<char>
    decreases n,
{
    if n < 10 {
        seq![digit_char(n)]
    } else {
        decimal(n / 10).push(digit_char(n % 10))
    }
}

pub open spec fn digit_char(d: nat) -> char {
    if d == 0 { '0' } else if d == 1 { '1' } else if d == 2 { '2' } else if d == 3 { '3' } else if d == 4 { '4' }
    else if d == 5 { '5' } else if d == 6 { '6' } else if d == 7 { '7' } else if d == 8 { '8' } else { '9' }
}

fn digit_str(d: u64) -> (r: &'static str)
    requires
        d < 10,
    ensures
        r@ == seq![digit_char(d as nat)],
{
    if d == 0 { proof { reveal_strlit("0"); } "0" }
    else if d == 1 { proof { reveal_strlit("1"); } "1" }
    else if d == 2 { proof { reveal_strlit("2"); } "2" }
    else if d == 3 { proof { reveal_strlit("3"); } "3" }
    else if d == 4 { proof { reveal_strlit("4"); } "4" }
    else if d == 5 { proof { reveal_strlit("5"); } "5" }
    else if d == 6 { proof { reveal_strlit("6"); } "6" }
    else if d == 7 { proof { reveal_strlit("7"); } "7" }
    else if d == 8 { proof { reveal_strlit("8"); } "8" }
    else { proof { reveal_strlit("9"); } "9" }
}

/// `n` written in decimal.
pub fn decimal_string(n: u64) -> (r: String)
    ensures
        r@ == decimal(n as nat),
    decreases n,
{
    if n < 10 {
        String::from_str(digit_str(n))
    } else {
        let mut s = decimal_string(n / 10);
        s.append(digit_str(n % 10));
        s
    }
}

pub open spec fn header_game() -> Seq<char> {
    seq!['G', 'a', 'm', 'e', 'p', 'l', 'a', 'y', '-', 'G', 'a', 'm', 'e']
}

pub open spec fn header_match_id() -> Seq<char> {
    seq!['G', 'a', 'm', 'e', 'p', 'l', 'a', 'y', '-', 'M', 'a', 't', 'c', 'h', '-', 'I', 'D']
}

pub open spec fn header_player() -> Seq<char> {
    seq!['G', 'a', 'm', 'e', 'p', 'l', 'a', 'y', '-', 'P', 'l', 'a', 'y', 'e', 'r']
}

pub open spec fn header_status() -> Seq<char> {
    seq!['G', 'a', 'm', 'e', 'p', 'l', 'a', 'y', '-', 'M', 'a', 't', 'c', 'h', '-', 'S', 't', 'a', 't', 'u', 's']
}

pub open spec fn status_in_progress() -> Seq<char> {
    seq!['I', 'n', 'P', 'r', 'o', 'g', 'r', 'e', 's', 's']
}

pub open spec fn status_over() -> Seq<char> {
    seq!['O', 'v', 'e', 'r']
}

/// The headers of a call to an agent playing slot `player` of match
/// `match_id`; `over` marks the advisory sent once the match has ended.
pub open spec fn agent_headers_spec(match_id: u64, player: usize, over: bool) -> Seq<(Seq<char>, Seq<char>)> {
    seq![
        (header_game(), connect4_tag()),
        (header_match_id(), decimal(match_id as nat)),
        (header_player(), decimal(player as nat)),
        (header_status(), if over { status_over() } else { status_in_progress() }),
    ]
}

/// The headers of a call to an agent: game tag, match id, the slot it
/// plays, and whether the match is still in progress.
pub fn agent_headers(game: Game, match_id: u64, player: usize, over: bool) -> (r: Vec<(String, String)>)
    ensures
        r@.len() == 4,
        forall|i: int| 0 <= i < 4 ==> (#[trigger] r@[i]).0@ == agent_headers_spec(match_id, player, over)[i].0
            && r@[i].1@ == agent_headers_spec(match_id, player, over)[i].1,
{
    proof {
        reveal_strlit("Gameplay-Game");
        reveal_strlit("Gameplay-Match-ID");
        reveal_strlit("Gameplay-Player");
        reveal_strlit("Gameplay-Match-Status");
        reveal_strlit("InProgress");
        reveal_strlit("Over");
    }
    let mut r: Vec<(String, String)> = Vec::new();
    r.push((String::from_str("Gameplay-Game"), String::from_str(game.tag())));
    r.push((String::from_str("Gameplay-Match-ID"), decimal_string(match_id)));
    r.push((String::from_str("Gameplay-Player"), decimal_string(player as u64)));
    let status = if over {
        String::from_str("Over")
    } else {
        String::from_str("InProgress")
    };
    r.push((String::from_str("Gameplay-Match-Status"), status));
    r
}

} // verus!

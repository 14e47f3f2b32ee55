use gameplay::driver::{
    after_submit, decide, matches_needing_driver, next_agent_turn, record_failure, AfterSubmit, CallOutcome,
    Decision,
};
use gameplay::executor::{commit_turn, plan_turn, submit_turn, Authority, SubmitError};
use gameplay::games::connect4::{Action, Error};
use gameplay::games::{Game, GameResult, GameStatus};
use gameplay::matches::{agent_turn, create, get_by_id, to_status, user_turn, PlayerId};
use gameplay::store::{AppendOutcome, EndpointStatus, MatchStore, TurnRow};
use gameplay::types::{Connect4Action, Player, Status};
use gameplay::matches::match_view;
use gameplay::driver::probe_status;

fn two_users() -> (MatchStore, i64, i64, i64) {
    let mut store = MatchStore::new();
    let u = store.add_user("steve".to_string()).unwrap();
    let v = store.add_user("gabe".to_string()).unwrap();
    let id = create(&mut store, u, 0, PlayerId::User(u), PlayerId::User(v));
    (store, u, v, id)
}

fn user_and_agent() -> (MatchStore, i64, i64, i64) {
    let mut store = MatchStore::new();
    let u = store.add_user("steve".to_string()).unwrap();
    let a = store.create_agent(u, Game::Connect4, "mcts".to_string(), "http://localhost:8000/".to_string()).unwrap();
    let id = create(&mut store, u, 0, PlayerId::User(u), PlayerId::Agent(a));
    (store, u, a, id)
}

fn tail(store: &MatchStore, id: i64) -> &TurnRow {
    let m = get_by_id(store, id).unwrap();
    m.turns.last().unwrap()
}

#[test]
fn new_match_has_turn_zero() {
    let (store, u, v, id) = two_users();
    let m = get_by_id(&store, id).unwrap();
    assert_eq!(m.id, id);
    assert_eq!(m.players, vec![PlayerId::User(u), PlayerId::User(v)]);
    assert_eq!(m.turns.len(), 1);
    assert_eq!(m.turns[0].number, 0);
    assert_eq!(m.turns[0].player, None);
    assert_eq!(m.turns[0].action, None);
    assert_eq!(m.turns[0].status, GameStatus::InProgress { next_player: 0 });
    assert!(get_by_id(&store, id + 1).is_none());
}

#[test]
fn turns_alternate_and_ordinals_are_dense() {
    let (mut store, u, v, id) = two_users();
    assert_eq!(user_turn(&mut store, id, 0, 3, u), Ok(1));
    assert_eq!(user_turn(&mut store, id, 1, 3, v), Ok(2));
    assert_eq!(user_turn(&mut store, id, 0, 4, u), Ok(3));
    let m = get_by_id(&store, id).unwrap();
    for (k, t) in m.turns.iter().enumerate() {
        assert_eq!(t.number, k);
    }
    assert_eq!(m.turns[2].player, Some(1));
    assert_eq!(m.turns[3].status, GameStatus::InProgress { next_player: 1 });
    assert_eq!(m.turns[3].state.board[3 * 6], Some(0));
    assert_eq!(m.turns[3].state.board[3 * 6 + 1], Some(1));
    assert_eq!(m.turns[3].state.board[4 * 6], Some(0));
}

#[test]
fn unknown_match_is_not_found() {
    let (mut store, u, _, id) = two_users();
    assert_eq!(user_turn(&mut store, id + 5, 0, 0, u), Err(SubmitError::MatchNotFound));
}

#[test]
fn finished_match_refuses_any_turn() {
    let (mut store, u, v, id) = two_users();
    for (p, c, who) in [(0, 0, u), (1, 1, v), (0, 0, u), (1, 1, v), (0, 0, u), (1, 1, v), (0, 0, u)] {
        user_turn(&mut store, id, p, c, who).unwrap();
    }
    assert_eq!(tail(&store, id).status, GameStatus::Over { result: GameResult::Winner { winning_player: 0 } });
    assert_eq!(user_turn(&mut store, id, 1, 9, v), Err(SubmitError::MatchOver));
    assert_eq!(user_turn(&mut store, id, 1, 2, v), Err(SubmitError::MatchOver));
    assert_eq!(get_by_id(&store, id).unwrap().turns.len(), 8);
    assert_eq!(to_status(tail(&store, id).status), Status::Over { winner: Some(0) });
}

#[test]
fn moving_as_the_other_player_is_not_your_turn() {
    let (mut store, u, v, id) = two_users();
    assert_eq!(user_turn(&mut store, id, 1, 0, u), Err(SubmitError::NotYourTurn));
    assert_eq!(user_turn(&mut store, id, 0, 0, v), Err(SubmitError::NotYourTurn));
    assert_eq!(get_by_id(&store, id).unwrap().turns.len(), 1);
}

#[test]
fn rule_errors_are_invalid_actions() {
    let (mut store, u, _, id) = two_users();
    assert_eq!(user_turn(&mut store, id, 0, 7, u), Err(SubmitError::InvalidAction(Error::UnknownColumn(7))));
    assert_eq!(get_by_id(&store, id).unwrap().turns.len(), 1);
}

#[test]
fn concurrent_turns_one_wins_one_loses_the_race() {
    let (mut store, u, _, id) = two_users();
    let first = plan_turn(&store, id, 0, Action { column: 2 }, Authority::User(u)).unwrap();
    let second = plan_turn(&store, id, 0, Action { column: 2 }, Authority::User(u)).unwrap();
    assert_eq!(first.number, second.number);
    assert_eq!(commit_turn(&mut store, id, first), Ok(1));
    assert_eq!(commit_turn(&mut store, id, second), Err(SubmitError::RaceLost));
    let m = get_by_id(&store, id).unwrap();
    assert_eq!(m.turns.len(), 2);
    assert_eq!(tail(&store, id).number, 1);
    assert_eq!(tail(&store, id).action, Some(Action { column: 2 }));
}

#[test]
fn appending_at_a_taken_ordinal_is_a_conflict() {
    let (mut store, u, _, id) = two_users();
    let row = plan_turn(&store, id, 0, Action { column: 1 }, Authority::User(u)).unwrap();
    let again = plan_turn(&store, id, 0, Action { column: 1 }, Authority::User(u)).unwrap();
    assert_eq!(store.append_turn(id, row), AppendOutcome::Appended);
    assert_eq!(store.append_turn(id, again), AppendOutcome::AlreadyTaken);
}

#[test]
fn agent_drive_through() {
    let (mut store, u, a, id) = user_and_agent();
    assert_eq!(next_agent_turn(get_by_id(&store, id).unwrap()), None);
    assert_eq!(user_turn(&mut store, id, 0, 0, u), Ok(1));
    let (slot, agent) = next_agent_turn(get_by_id(&store, id).unwrap()).unwrap();
    assert_eq!((slot, agent), (1, a));
    let action = match decide(0, CallOutcome::Replied(Action { column: 3 })) {
        Decision::Submit(action) => action,
        other => panic!("unexpected decision {:?}", other),
    };
    let result = agent_turn(&mut store, id, slot, action.column, agent);
    assert_eq!(result, Ok(2));
    assert_eq!(after_submit(&result), AfterSubmit::Continue);
    let t = tail(&store, id);
    assert!(t.number >= 2);
    assert_eq!(t.action, Some(Action { column: 3 }));
    assert_eq!(t.status, GameStatus::InProgress { next_player: 0 });
    assert_eq!(next_agent_turn(get_by_id(&store, id).unwrap()), None);
}

#[test]
fn human_cannot_move_for_the_agent() {
    let (mut store, u, _, id) = user_and_agent();
    user_turn(&mut store, id, 0, 0, u).unwrap();
    assert_eq!(user_turn(&mut store, id, 1, 4, u), Err(SubmitError::NotYourTurn));
    assert_eq!(submit_turn(&mut store, id, 1, Action { column: 4 }, Authority::User(u)), Err(SubmitError::NotYourTurn));
}

#[test]
fn agent_cannot_move_for_the_human() {
    let (mut store, _, a, id) = user_and_agent();
    assert_eq!(agent_turn(&mut store, id, 0, 0, a), Err(SubmitError::NotYourTurn));
}

#[test]
fn recovery_scan_finds_matches_waiting_on_agents() {
    let (mut store, u, a, id) = user_and_agent();
    let other = create(&mut store, u, 0, PlayerId::Agent(a), PlayerId::User(u));
    assert_eq!(matches_needing_driver(&store), vec![other]);
    user_turn(&mut store, id, 0, 5, u).unwrap();
    assert_eq!(matches_needing_driver(&store), vec![id, other]);
    agent_turn(&mut store, id, 1, 5, a).unwrap();
    assert_eq!(matches_needing_driver(&store), vec![other]);
}

#[test]
fn three_failed_calls_mark_the_endpoint_failed() {
    let (mut store, u, a, id) = user_and_agent();
    user_turn(&mut store, id, 0, 0, u).unwrap();
    let turns_before = get_by_id(&store, id).unwrap().turns.len();
    let mut attempt = 0u32;
    let mut delays = vec![];
    loop {
        let error = format!("HTTP 500 on attempt {}", attempt);
        match decide(attempt, CallOutcome::Failed(error)) {
            Decision::Retry { attempt: next, delay_ms, error } => {
                assert!(record_failure(&mut store, a, error));
                delays.push(delay_ms);
                attempt = next;
            }
            Decision::GiveUp { error } => {
                assert!(record_failure(&mut store, a, error));
                break;
            }
            Decision::Submit(_) => panic!("no action was returned"),
        }
    }
    assert_eq!(attempt, 2);
    assert_eq!(delays, vec![1000, 2000]);
    match &store.load_agent(a).unwrap().status {
        EndpointStatus::Failed(e) => assert_eq!(e, "HTTP 500 on attempt 2"),
        other => panic!("unexpected status {:?}", other),
    }
    assert_eq!(get_by_id(&store, id).unwrap().turns.len(), turns_before);
}

#[test]
fn malformed_reply_is_not_retried() {
    match decide(0, CallOutcome::Malformed("not json".to_string())) {
        Decision::GiveUp { error } => assert_eq!(error, "not json"),
        other => panic!("unexpected decision {:?}", other),
    }
    assert_eq!(after_submit(&Err(SubmitError::InvalidAction(Error::FullColumn(2)))), AfterSubmit::AgentFault);
    assert_eq!(after_submit(&Err(SubmitError::RaceLost)), AfterSubmit::Continue);
    assert_eq!(after_submit(&Err(SubmitError::MatchOver)), AfterSubmit::Stop);
}

#[test]
fn validation_probe_sets_endpoint_status() {
    assert!(matches!(probe_status(CallOutcome::Replied(Action { column: 0 })), EndpointStatus::Valid));
    match probe_status(CallOutcome::Failed("timeout".to_string())) {
        EndpointStatus::Failed(e) => assert_eq!(e, "timeout"),
        other => panic!("unexpected {:?}", other),
    }
}

#[test]
fn match_view_names_players_and_lists_turns() {
    let (mut store, u, _, id) = user_and_agent();
    user_turn(&mut store, id, 0, 6, u).unwrap();
    let v = match_view(&store, id).unwrap();
    assert_eq!(v.id, id);
    match (&v.players[0], &v.players[1]) {
        (Player::User(a), Player::Agent(b)) => {
            assert_eq!(a.username, "steve");
            assert_eq!(b.username, "steve");
            assert_eq!(b.agentname, "mcts");
        }
        other => panic!("unexpected {:?}", other),
    }
    assert_eq!(v.turns.len(), 2);
    assert_eq!(v.turn, 1);
    assert_eq!(v.turns[1].action, Some(Connect4Action { column: 6 }));
    assert_eq!(v.turns[1].status, Status::InProgress { next_player: 1 });
    assert_eq!(v.state.board[36], Some(0));
    assert!(match_view(&store, 99).is_none());
}

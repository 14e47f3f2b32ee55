use gameplay::codec::{decode_state, encode_state};
use gameplay::games::connect4::{Action, Connect4};
use gameplay::mcts::agent;
use gameplay::types::{Connect4Action, Connect4State, Game, Match, Player, Status, Turn, User, Agent};

fn text(bytes: &[u8]) -> String {
    String::from_utf8(bytes.to_vec()).unwrap()
}

#[test]
fn empty_state_text() {
    let g = Connect4::default();
    let mut expected = String::from("{\"board\":[");
    expected.push_str(&vec!["null"; 42].join(","));
    expected.push_str("],\"next_player\":0}");
    assert_eq!(text(&encode_state(&g)), expected);
}

#[test]
fn round_trip_keeps_the_position() {
    let mut g = Connect4::default();
    for c in [3, 3, 4, 0, 6, 6, 6] {
        g.apply_action(&Action { column: c }).unwrap();
    }
    let bytes = encode_state(&g);
    let back = decode_state(&bytes).unwrap();
    assert_eq!(back.board, g.board);
    assert_eq!(back.next_player, g.next_player);
    assert_eq!(encode_state(&back), bytes);
    let t = text(&bytes);
    assert!(t.starts_with("{\"board\":[1,null,null,null,null,null,null"));
    assert!(t.ends_with("],\"next_player\":1}"));
}

#[test]
fn non_canonical_text_is_refused() {
    let g = Connect4::default();
    let good = encode_state(&g);
    let mut spaced = text(&good).replace(",", ", ").into_bytes();
    assert!(decode_state(&spaced).is_none());
    spaced = text(&good).replace("],\"next_player\":0}", "],\"next_player\":2}").into_bytes();
    assert!(decode_state(&spaced).is_none());
    let short = good[..good.len() - 1].to_vec();
    assert!(decode_state(&short).is_none());
    assert!(decode_state(&b"{}".to_vec()).is_none());
}

#[test]
fn sample_agent_picks_the_best_open_column() {
    let mut g = Connect4::default();
    for _ in 0..6 {
        let c = 2;
        g.apply_action(&Action { column: c }).unwrap();
    }
    let scores = vec![1, 5, 9, 5, 0, 5, -3];
    assert_eq!(agent(&g, &scores), Action { column: 1 });
    let flat = vec![0; 7];
    assert_eq!(agent(&Connect4::default(), &flat), Action { column: 0 });
}

#[test]
fn test_serialize() {
    let m = Match {
        id: 123,
        game: Game::Connect4,
        players: vec![
            Player::User(User { username: "user1".to_string() }),
            Player::Agent(Agent { game: Game::Connect4, username: "user2".to_string(), agentname: "agent1".to_string() }),
        ],
        turns: vec![
            Turn { number: 0, player: None, action: None, status: Status::InProgress { next_player: 0 } },
            Turn {
                number: 1,
                player: Some(0),
                action: Some(Connect4Action { column: 0 }),
                status: Status::InProgress { next_player: 1 },
            },
        ],
        turn: 0,
        state: Connect4State { board: vec![None; 42] },
    };
    let g = Connect4 { board: m.state.board.clone(), next_player: 0 };
    let bytes = encode_state(&g);
    assert_eq!(decode_state(&bytes).unwrap().board, m.state.board);
    assert_eq!(m.turns.len(), 2);
    println!("{}", text(&bytes));
}

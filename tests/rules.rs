use gameplay::board::check4;
use gameplay::connect4::{apply_action, check, ActionError, Connect4Check};
use gameplay::games::connect4::{Action, Connect4, Error};
use gameplay::games::{Game, GameResult, GameStatus};
use gameplay::types::{Connect4Action, Connect4State};

fn play(columns: &[usize]) -> (Connect4, GameStatus) {
    let mut g = Connect4::default();
    let mut status = g.status();
    for &c in columns {
        status = g.apply_action(&Action { column: c }).expect("legal move");
    }
    (g, status)
}

#[test]
fn it_works() {
    assert_eq!(4, 4);
}

#[test]
fn empty_board_is_in_progress_for_player_zero() {
    let g = Connect4::default();
    assert_eq!(g.board.len(), 42);
    assert!(g.board.iter().all(|c| c.is_none()));
    assert_eq!(g.status(), GameStatus::InProgress { next_player: 0 });
}

#[test]
fn unknown_column_is_rejected_and_state_kept() {
    let (mut g, _) = play(&[3]);
    let before = g.board.clone();
    assert_eq!(g.apply_action(&Action { column: 7 }), Err(Error::UnknownColumn(7)));
    assert_eq!(g.board, before);
    assert_eq!(g.next_player, 1);
}

#[test]
fn full_column_is_rejected() {
    let (mut g, _) = play(&[0, 0, 0, 0, 0, 0]);
    assert!(!g.valid_action(&Action { column: 0 }));
    assert_eq!(g.apply_action(&Action { column: 0 }), Err(Error::FullColumn(0)));
    assert_eq!(g.next_player, 0);
}

#[test]
fn piece_lands_in_lowest_empty_cell_and_turn_passes() {
    let (g, status) = play(&[2, 2]);
    assert_eq!(g.board[2 * 6], Some(0));
    assert_eq!(g.board[2 * 6 + 1], Some(1));
    assert_eq!(g.board[2 * 6 + 2], None);
    assert_eq!(status, GameStatus::InProgress { next_player: 0 });
}

#[test]
fn vertical_win() {
    let (_, status) = play(&[0, 1, 0, 1, 0, 1, 0]);
    assert_eq!(status, GameStatus::Over { result: GameResult::Winner { winning_player: 0 } });
}

#[test]
fn horizontal_win() {
    let (_, status) = play(&[0, 0, 1, 1, 2, 2, 3]);
    assert_eq!(status, GameStatus::Over { result: GameResult::Winner { winning_player: 0 } });
}

#[test]
fn rising_diagonal_win() {
    let (_, status) = play(&[0, 1, 1, 2, 3, 2, 2, 3, 5, 3, 3]);
    assert_eq!(status, GameStatus::Over { result: GameResult::Winner { winning_player: 0 } });
}

#[test]
fn falling_diagonal_win() {
    let (_, status) = play(&[6, 5, 5, 4, 3, 4, 4, 3, 1, 3, 3]);
    assert_eq!(status, GameStatus::Over { result: GameResult::Winner { winning_player: 0 } });
}

#[test]
fn five_scattered_pieces_keep_the_game_going() {
    let (_, status) = play(&[0, 1, 1, 2, 2, 5, 2, 6, 3]);
    assert_eq!(status, GameStatus::InProgress { next_player: 1 });
}

#[test]
fn full_board_without_line_is_a_tie() {
    let cols = [
        4, 3, 6, 0, 1, 4, 5, 5, 1, 1, 5, 0, 1, 6, 0, 1, 5, 5, 1, 0, 4, 6, 3, 2, 6, 6, 0, 4, 6, 5, 2, 0, 4, 2,
        4, 2, 2, 2, 3, 3, 3, 3,
    ];
    let (g, status) = play(&cols);
    assert!(g.board.iter().all(|c| c.is_some()));
    assert_eq!(status, GameStatus::Over { result: GameResult::Tie });
}

#[test]
fn check4_needs_four_equal_pieces() {
    assert_eq!(check4(Some(1), Some(1), Some(1), Some(1)), Some(1));
    assert_eq!(check4(Some(1), Some(1), Some(0), Some(1)), None);
    assert_eq!(check4(None, None, None, None), None);
}

#[test]
fn stored_grid_rules() {
    let mut s = Connect4State { board: vec![None; 42] };
    assert_eq!(apply_action(&mut s, &Connect4Action { column: 7 }, 0), Err(ActionError::UnknownColumn(7)));
    for p in [0usize, 1, 0, 1, 0, 1] {
        assert_eq!(apply_action(&mut s, &Connect4Action { column: 4 }, p), Ok(()));
    }
    assert_eq!(apply_action(&mut s, &Connect4Action { column: 4 }, 0), Err(ActionError::FullColumn(4)));
    assert_eq!(s.board[4 * 6 + 5], Some(1));
    assert_eq!(check(&s), Connect4Check::InProgress);
    for c in 0..4 {
        apply_action(&mut s, &Connect4Action { column: c }, 1).unwrap();
    }
    assert_eq!(check(&s), Connect4Check::Winner(1));
    assert!(ActionError::FullColumn(4).message().contains("full"));
}

#[test]
fn game_names() {
    assert_eq!(Game::from_name("connect4"), Some(Game::Connect4));
    assert_eq!(Game::from_name("Connect4"), Some(Game::Connect4));
    assert_eq!(Game::from_name("CONNECT4"), Some(Game::Connect4));
    assert_eq!(Game::from_name("chess"), None);
    assert_eq!(Game::Connect4.tag(), "connect4");
}

#[test]
fn game_from_str() {
    assert_eq!("Connect4".parse::<Game>(), Ok(Game::Connect4));
    assert_eq!("go".parse::<Game>(), Err("Unknown game: go".to_string()));
}

#[test]
fn alternating_two_columns_ends_with_a_vertical_win() {
    let mut g = Connect4::default();
    let mut status = g.status();
    for c in [0, 1, 0, 1, 0, 1, 0] {
        status = g.apply_action(&Action { column: c }).unwrap();
    }
    assert_eq!(status, GameStatus::Over { result: GameResult::Winner { winning_player: 0 } });
}

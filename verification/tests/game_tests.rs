//! Tic-tac-toe rules, scoring, rendering and the game-action wire form.

use openwire::game::{Cell, GameAction, GameResult, TicTacToe};

#[test]
fn test_new_game() {
    let game = TicTacToe::new(
        ("peer_x".into(), "Alice".into()),
        ("peer_o".into(), "Bob".into()),
        "room1".into(),
    );
    assert_eq!(game.current_turn, Cell::X);
    assert_eq!(game.result, GameResult::InProgress);
    assert!(game.board.iter().all(|c| *c == Cell::Empty));
}

#[test]
fn test_make_move() {
    let mut game = TicTacToe::new(
        ("peer_x".into(), "Alice".into()),
        ("peer_o".into(), "Bob".into()),
        "room1".into(),
    );

    // X moves to the center.
    let result = game.make_move(5, "peer_x").unwrap();
    assert_eq!(result, GameResult::InProgress);
    assert_eq!(game.board[4], Cell::X);
    assert_eq!(game.current_turn, Cell::O);
}

#[test]
fn test_wrong_turn() {
    let mut game = TicTacToe::new(
        ("peer_x".into(), "Alice".into()),
        ("peer_o".into(), "Bob".into()),
        "room1".into(),
    );

    // O tries to move first; that must fail.
    assert!(game.make_move(5, "peer_o").is_err());
}

#[test]
fn test_win_detection_row() {
    let mut game = TicTacToe::new(
        ("peer_x".into(), "Alice".into()),
        ("peer_o".into(), "Bob".into()),
        "room1".into(),
    );

    // X: 1, O: 4, X: 2, O: 5, X: 3 — X wins the top row.
    game.make_move(1, "peer_x").unwrap();
    game.make_move(4, "peer_o").unwrap();
    game.make_move(2, "peer_x").unwrap();
    game.make_move(5, "peer_o").unwrap();
    let result = game.make_move(3, "peer_x").unwrap();
    assert_eq!(result, GameResult::Win(Cell::X));
    assert_eq!(game.score.player_x_wins, 1);
}

#[test]
fn test_draw() {
    let mut game = TicTacToe::new(
        ("peer_x".into(), "Alice".into()),
        ("peer_o".into(), "Bob".into()),
        "room1".into(),
    );

    // A classic draw: X O X / X X O / O X O.
    game.make_move(1, "peer_x").unwrap();
    game.make_move(2, "peer_o").unwrap();
    game.make_move(3, "peer_x").unwrap();
    game.make_move(6, "peer_o").unwrap();
    game.make_move(4, "peer_x").unwrap();
    game.make_move(7, "peer_o").unwrap();
    game.make_move(5, "peer_x").unwrap();
    game.make_move(9, "peer_o").unwrap();
    let result = game.make_move(8, "peer_x").unwrap();
    assert_eq!(result, GameResult::Draw);
    assert_eq!(game.score.draws, 1);
}

#[test]
fn test_rematch_keeps_score() {
    let mut game = TicTacToe::new(
        ("peer_x".into(), "Alice".into()),
        ("peer_o".into(), "Bob".into()),
        "room1".into(),
    );

    // X wins.
    game.make_move(1, "peer_x").unwrap();
    game.make_move(4, "peer_o").unwrap();
    game.make_move(2, "peer_x").unwrap();
    game.make_move(5, "peer_o").unwrap();
    game.make_move(3, "peer_x").unwrap();

    assert_eq!(game.score.player_x_wins, 1);

    // Rematch.
    game.new_round();
    assert_eq!(game.result, GameResult::InProgress);
    assert_eq!(game.score.player_x_wins, 1);
    assert!(game.board.iter().all(|c| *c == Cell::Empty));
}

#[test]
fn test_game_action_serialization() {
    let action = GameAction::Move {
        position: 5,
        room_id: "room1".into(),
        player: "peer_x".into(),
    };

    let bytes = action.to_bytes();
    assert!(GameAction::is_game_message(&bytes));
    let parsed = GameAction::from_bytes(&bytes).unwrap();
    match parsed {
        GameAction::Move { position, .. } => assert_eq!(position, 5),
        _ => panic!("Wrong action type"),
    }
}

#[test]
fn test_cell_already_taken() {
    let mut game = TicTacToe::new(
        ("peer_x".into(), "Alice".into()),
        ("peer_o".into(), "Bob".into()),
        "room1".into(),
    );

    game.make_move(5, "peer_x").unwrap();
    // O tries to take the same cell.
    assert!(game.make_move(5, "peer_o").is_err());
}

#[test]
fn test_board_render() {
    let game = TicTacToe::new(
        ("peer_x".into(), "Alice".into()),
        ("peer_o".into(), "Bob".into()),
        "room1".into(),
    );
    let lines = game.render_board();
    assert_eq!(lines.len(), 7);
    assert!(lines[0].contains("\u{250c}"));
    assert!(lines[6].contains("\u{2518}"));
}

#[test]
fn test_all_game_actions_round_trip() {
    let actions = vec![
        GameAction::Challenge {
            challenger: "a".into(),
            challenger_nick: "Alice".into(),
            room_id: "r".into(),
        },
        GameAction::Accept {
            accepter: "b".into(),
            accepter_nick: "Bob".into(),
            room_id: "r".into(),
        },
        GameAction::Decline { room_id: "r".into() },
        GameAction::Move { position: 9, room_id: "r".into(), player: "a".into() },
        GameAction::Resign { room_id: "r".into(), player: "b".into() },
    ];
    for action in actions {
        let bytes = action.to_bytes();
        assert!(GameAction::is_game_message(&bytes));
        let parsed = GameAction::from_bytes(&bytes).unwrap();
        assert_eq!(format!("{:?}", parsed), format!("{:?}", action));
    }
    assert!(!GameAction::is_game_message(b"MOVE:"));
    assert!(GameAction::from_bytes(b"GAME:junk").is_none());
}

#[test]
fn test_out_of_range_and_finished_game_moves() {
    let mut game = TicTacToe::new(
        ("peer_x".into(), "Alice".into()),
        ("peer_o".into(), "Bob".into()),
        "room1".into(),
    );
    assert_eq!(
        game.make_move(0, "peer_x").unwrap_err(),
        "Position must be 1-9".to_string()
    );
    assert_eq!(
        game.make_move(10, "peer_x").unwrap_err(),
        "Position must be 1-9".to_string()
    );
    assert_eq!(
        game.make_move(1, "nobody").unwrap_err(),
        "You are not a player in this game".to_string()
    );

    game.make_move(1, "peer_x").unwrap();
    game.make_move(4, "peer_o").unwrap();
    game.make_move(2, "peer_x").unwrap();
    game.make_move(5, "peer_o").unwrap();
    game.make_move(3, "peer_x").unwrap();
    assert_eq!(
        game.make_move(6, "peer_o").unwrap_err(),
        "Game is already over!".to_string()
    );
}

#[test]
fn test_score_line_contents() {
    let mut game = TicTacToe::new(
        ("peer_x".into(), "Alice".into()),
        ("peer_o".into(), "Bob".into()),
        "room1".into(),
    );
    game.make_move(1, "peer_x").unwrap();
    game.make_move(4, "peer_o").unwrap();
    game.make_move(2, "peer_x").unwrap();
    game.make_move(5, "peer_o").unwrap();
    game.make_move(3, "peer_x").unwrap();
    assert_eq!(
        game.render_score(),
        "Score: Alice (X) 1 - 0 - 0 (O) Bob \u{2502} Games: 1"
    );
    let status = game.render_status();
    assert_eq!(status.len(), 15);
    assert!(status[11].contains("Alice wins!"));
}

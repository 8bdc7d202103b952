use tictactoe::board::check_winner;
use tictactoe::board::is_draw;
use tictactoe::board::Board;
use tictactoe::game::GameState;
use tictactoe::game::MoveOutcome;
use tictactoe::marker::Marker;

fn assert_fresh(game: &GameState) {
    assert_eq!(*game.board(), Board::new());
    assert_eq!(game.current_player(), Marker::X);
    assert_eq!(game.winner(), None);
    assert!(!game.is_game_over());
}

#[test]
fn new_game_is_fresh() {
    assert_fresh(&GameState::new());
}

#[test]
fn players_alternate_starting_with_x() {
    let mut game = GameState::new();
    let moves = [(1, 1), (0, 0), (2, 2), (0, 2), (0, 1), (2, 1), (1, 0), (1, 2)];
    for (n, (row, col)) in moves.into_iter().enumerate() {
        let expected = if n % 2 == 0 { Marker::X } else { Marker::O };
        assert_eq!(game.current_player(), expected);
        assert_eq!(game.make_move(row, col), MoveOutcome::Accepted);
        assert_eq!(game.board().get(row, col), Some(expected));
        assert!(!game.is_game_over());
    }
    assert_eq!(game.current_player(), Marker::X);
}

#[test]
fn accepted_move_places_marker_and_passes_turn() {
    let mut game = GameState::new();
    assert_eq!(game.make_move(2, 1), MoveOutcome::Accepted);
    let mut expected = Board::new();
    expected.set(2, 1, Some(Marker::X));
    assert_eq!(*game.board(), expected);
    assert_eq!(game.current_player(), Marker::O);
    assert_eq!(game.winner(), None);
    assert!(!game.is_game_over());
}

#[test]
fn occupied_cell_is_rejected_and_nothing_changes() {
    let mut game = GameState::new();
    assert_eq!(game.make_move(1, 1), MoveOutcome::Accepted);
    assert_eq!(game.make_move(0, 2), MoveOutcome::Accepted);
    let before = game;
    assert_eq!(game.make_move(1, 1), MoveOutcome::Occupied);
    assert_eq!(game, before);
    assert_eq!(game.make_move(0, 2), MoveOutcome::Occupied);
    assert_eq!(game, before);
    assert_eq!(*game.board(), *before.board());
    assert_eq!(game.current_player(), Marker::X);
    assert_eq!(game.winner(), None);
    assert!(!game.is_game_over());
}

#[test]
fn x_wins_top_row_then_every_move_is_game_over() {
    let mut game = GameState::new();
    assert_eq!(game.make_move(0, 0), MoveOutcome::Accepted);
    assert_eq!(game.make_move(1, 0), MoveOutcome::Accepted);
    assert_eq!(game.make_move(0, 1), MoveOutcome::Accepted);
    assert_eq!(game.make_move(1, 1), MoveOutcome::Accepted);
    assert!(!game.is_game_over());
    assert_eq!(game.winner(), None);
    assert_eq!(game.make_move(0, 2), MoveOutcome::Accepted);
    assert_eq!(check_winner(game.board()), Some(Marker::X));
    assert_eq!(game.winner(), Some(Marker::X));
    assert!(game.is_game_over());
    assert_eq!(game.current_player(), Marker::X);
    let before = game;
    for row in 0..3 {
        for col in 0..3 {
            assert_eq!(game.make_move(row, col), MoveOutcome::GameOver);
            assert_eq!(game, before);
        }
    }
}

#[test]
fn o_can_win_too() {
    let mut game = GameState::new();
    for (row, col) in [(0, 0), (1, 1), (0, 1), (0, 2), (2, 2)] {
        assert_eq!(game.make_move(row, col), MoveOutcome::Accepted);
        assert!(!game.is_game_over());
    }
    assert_eq!(game.make_move(2, 0), MoveOutcome::Accepted);
    assert_eq!(game.winner(), Some(Marker::O));
    assert!(game.is_game_over());
    assert_eq!(game.current_player(), Marker::O);
}

#[test]
fn full_board_without_line_is_a_draw() {
    let mut game = GameState::new();
    let moves = [(0, 0), (0, 1), (0, 2), (1, 1), (1, 0), (1, 2), (2, 1), (2, 0), (2, 2)];
    for (n, (row, col)) in moves.into_iter().enumerate() {
        assert!(!game.is_game_over());
        assert_eq!(game.make_move(row, col), MoveOutcome::Accepted, "move {}", n);
    }
    assert!(is_draw(game.board()));
    assert_eq!(check_winner(game.board()), None);
    assert_eq!(game.winner(), None);
    assert!(game.is_game_over());
    let before = game;
    assert_eq!(game.make_move(1, 1), MoveOutcome::GameOver);
    assert_eq!(game, before);
}

#[test]
fn win_on_the_last_cell_is_a_win_not_a_draw() {
    let mut game = GameState::new();
    let moves = [(0, 0), (0, 1), (0, 2), (1, 0), (1, 1), (2, 0), (1, 2), (2, 1), (2, 2)];
    for (row, col) in moves {
        assert!(!game.is_game_over());
        assert_eq!(game.make_move(row, col), MoveOutcome::Accepted);
    }
    assert!(is_draw(game.board()));
    assert_eq!(game.winner(), Some(Marker::X));
    assert!(game.is_game_over());
}

#[test]
fn game_over_answers_any_request() {
    let mut game = GameState::new();
    for (row, col) in [(0, 0), (1, 0), (0, 1), (1, 1), (0, 2)] {
        game.make_move(row, col);
    }
    assert!(game.is_game_over());
    let before = game;
    assert_eq!(game.make_move(7, 9), MoveOutcome::GameOver);
    assert_eq!(game, before);
}

#[test]
fn restart_gives_the_fresh_game() {
    let mut game = GameState::new();
    game.restart();
    assert_fresh(&game);
    assert_eq!(game, GameState::new());
    game.make_move(1, 1);
    game.make_move(0, 0);
    game.restart();
    assert_fresh(&game);
    assert_eq!(game, GameState::new());
}

#[test]
fn restart_twice_is_restart_once() {
    let mut game = GameState::new();
    for (row, col) in [(0, 0), (1, 0), (0, 1), (1, 1), (0, 2)] {
        game.make_move(row, col);
    }
    assert!(game.is_game_over());
    game.restart();
    let once = game;
    game.restart();
    assert_eq!(game, once);
    game.restart();
    assert_eq!(game, once);
    assert_fresh(&game);
}

#[test]
fn restart_after_game_over_allows_moves_again() {
    let mut game = GameState::new();
    for (row, col) in [(0, 0), (1, 0), (0, 1), (1, 1), (0, 2)] {
        game.make_move(row, col);
    }
    assert_eq!(game.make_move(2, 2), MoveOutcome::GameOver);
    game.restart();
    assert_eq!(game.make_move(2, 2), MoveOutcome::Accepted);
    assert_eq!(game.board().get(2, 2), Some(Marker::X));
    assert_eq!(game.current_player(), Marker::O);
}

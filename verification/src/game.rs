//! One game: whose turn it is, what a move does, when the game ends.

use vstd::prelude::*;
use crate::board::check_winner;
use crate::board::empty_grid;
use crate::board::first_owner;
use crate::board::is_draw;
use crate::board::is_full;
use crate::board::is_grid;
use crate::board::line;
use crate::board::line_owner;
use crate::board::winner_of;
use crate::board::Board;
use crate::board::Grid;
use crate::marker::Marker;

verus! {

/// What became of a request to move.
#[derive(Clone, Copy, Debug, PartialEq, Eq, Structural)]
pub enum MoveOutcome {
    /// The marker was placed.
    Accepted,
    /// The cell already held a marker; nothing changed.
    Occupied,
    /// The game had ended; nothing changed.
    GameOver,
}

/// A game as a mathematical value.
pub struct GameView {
    pub board: Grid,
    pub current_player: Marker,
    pub winner: Option<Marker>,
    pub game_over: bool,
}

/// The game before the first move: an empty board, X to move.
pub open spec fn initial() -> GameView {
    GameView { board: empty_grid(), current_player: Marker::X, winner: None, game_over: false }
}

/// What holds of every game: the board is 3x3, the winner is the one the
/// board shows, and the game is over exactly when there is a winner or no
/// cell is left.
pub open spec fn wf(game: GameView) -> bool {
    &&& is_grid(game.board)
    &&& game.winner == winner_of(game.board)
    &&& game.game_over == (game.winner is Some || is_full(game.board))
}

/// `grid` with `marker` at `row`, `col`.
pub open spec fn placed(grid: Grid, row: int, col: int, marker: Marker) -> Grid {
    grid.update(row, grid[row].update(col, Some(marker)))
}

/// The answer to a request to move to `row`, `col`.
pub open spec fn outcome_of(game: GameView, row: int, col: int) -> MoveOutcome {
    if game.game_over {
        MoveOutcome::GameOver
    } else if game.board[row][col] is Some {
        MoveOutcome::Occupied
    } else {
        MoveOutcome::Accepted
    }
}

/// The game after a request to move to `row`, `col`. A request that is not
/// accepted changes nothing. An accepted one places the current player's
/// marker; then the game is won, or drawn, or the turn passes.
pub open spec fn after_move(game: GameView, row: int, col: int) -> GameView {
    if outcome_of(game, row, col) != MoveOutcome::Accepted {
        game
    } else {
        let board = placed(game.board, row, col, game.current_player);
        if winner_of(board) is Some {
            GameView { board, winner: winner_of(board), game_over: true, ..game }
        } else if is_full(board) {
            GameView { board, winner: None, game_over: true, ..game }
        } else {
            GameView { board, current_player: game.current_player.other(), ..game }
        }
    }
}

/// The game after a restart, whatever it was before: the fresh one.
pub open spec fn after_restart(game: GameView) -> GameView {
    initial()
}

/// The state of the one game in play.
#[derive(Clone, Copy, Debug, PartialEq, Eq)]
pub struct GameState {
    board: Board,
    current_player: Marker,
    winner: Option<Marker>,
    game_over: bool,
}

impl View for GameState {
    type V = GameView;

    closed spec fn view(&self) -> GameView {
        GameView {
            board: self.board@,
            current_player: self.current_player,
            winner: self.winner,
            game_over: self.game_over,
        }
    }
}

impl GameState {
    #[verifier::type_invariant]
    spec fn inv(self) -> bool {
        wf(self@)
    }

    /// A fresh game.
    pub fn new() -> (game: GameState)
        ensures
            game@ == initial(),
    {
        let board = Board::new();
        proof {
            lemma_initial_wf();
        }
        GameState { board, current_player: Marker::X, winner: None, game_over: false }
    }

    /// The board as it stands.
    pub fn board(&self) -> (board: &Board)
        ensures
            board@ == self@.board,
    {
        &self.board
    }

    /// The player whose turn it is; once the game has ended, the player who
    /// made the last move.
    pub fn current_player(&self) -> (marker: Marker)
        ensures
            marker == self@.current_player,
    {
        self.current_player
    }

    /// The winner, if the game has one.
    pub fn winner(&self) -> (winner: Option<Marker>)
        ensures
            winner == self@.winner,
            winner == winner_of(self@.board),
    {
        proof {
            use_type_invariant(self);
        }
        self.winner
    }

    /// Whether the game has ended: in a win, or in a draw on a full board.
    pub fn is_game_over(&self) -> (over: bool)
        ensures
            over == self@.game_over,
            over == (winner_of(self@.board) is Some || is_full(self@.board)),
    {
        proof {
            use_type_invariant(self);
        }
        self.game_over
    }

    /// Answers a request to move to `row`, `col`. If the game has ended or
    /// the cell is taken, nothing changes. Else the current player's marker
    /// is placed there; the game then ends if that marker now holds a line
    /// or no cell is left, and otherwise the turn passes to the other
    /// player. While the game is on, the request must name a cell of the
    /// board.
    pub fn make_move(&mut self, row: usize, col: usize) -> (outcome: MoveOutcome)
        requires
            old(self)@.game_over || (row < 3 && col < 3),
        ensures
            outcome == outcome_of(old(self)@, row as int, col as int),
            final(self)@ == after_move(old(self)@, row as int, col as int),
            outcome != MoveOutcome::Accepted ==> *final(self) == *old(self),
            wf(final(self)@),
    {
        proof {
            use_type_invariant(&*self);
        }
        if self.game_over {
            return MoveOutcome::GameOver;
        }
        if self.board.get(row, col).is_some() {
            return MoveOutcome::Occupied;
        }
        let mut board = self.board;
        board.set(row, col, Some(self.current_player));
        let winner = check_winner(&board);
        if winner.is_some() {
            *self = GameState { board, current_player: self.current_player, winner, game_over: true };
        } else if is_draw(&board) {
            *self = GameState {
                board,
                current_player: self.current_player,
                winner: None,
                game_over: true,
            };
        } else {
            *self = GameState {
                board,
                current_player: self.current_player.opponent(),
                winner: self.winner,
                game_over: self.game_over,
            };
        }
        MoveOutcome::Accepted
    }

    /// Starts over: the board is cleared and X is to move.
    pub fn restart(&mut self)
        ensures
            final(self)@ == after_restart(old(self)@),
            final(self)@ == initial(),
    {
        *self = GameState::new();
    }
}

/// The fresh game is well formed.
pub proof fn lemma_initial_wf()
    ensures
        wf(initial()),
{
    let grid = empty_grid();
    assert(grid[0][0] is None);
    assert forall|k: int| 0 <= k < 8 implies (#[trigger] line_owner(grid, k)) is None by {
        let p = line(k)[0];
        assert(0 <= p.0 < 3 && 0 <= p.1 < 3);
    }
    reveal_with_fuel(first_owner, 9);
}

} // verus!

//! What the service answers to its three requests: the status of the game,
//! a move, a restart. Each takes the game and gives back plain values for
//! the transport to send.

use vstd::prelude::*;
use crate::game::after_move;
use crate::game::after_restart;
use crate::game::outcome_of;
use crate::game::GameState;
use crate::game::GameView;
use crate::game::MoveOutcome;
use crate::marker::cell_text;
use crate::marker::marker_text;
use crate::marker::text_of_cell;

verus! {

/// The status code of a request that was carried out.
pub const OK: u16 = 200;

/// The status code of a request that was refused.
pub const BAD_REQUEST: u16 = 400;

/// A snapshot of the game for the players: each cell as text, the winner as
/// text if there is one, and whether the game has ended.
#[derive(Debug, PartialEq, Eq)]
pub struct GameStatus {
    pub board: Vec<Vec<String>>,
    pub winner: Option<String>,
    pub game_over: bool,
}

/// A snapshot as a mathematical value.
pub struct StatusView {
    pub board: Seq<Seq<Seq<char>>>,
    pub winner: Option<Seq<char>>,
    pub game_over: bool,
}

impl View for GameStatus {
    type V = StatusView;

    open spec fn view(&self) -> StatusView {
        StatusView {
            board: Seq::new(
                self.board@.len(),
                |r: int| Seq::new(self.board@[r]@.len(), |c: int| self.board@[r]@[c]@),
            ),
            winner: match self.winner {
                Some(text) => Some(text@),
                None => None,
            },
            game_over: self.game_over,
        }
    }
}

/// The snapshot of `game`: three rows of three texts, the empty text for an
/// empty cell and the marker's letter for a taken one.
pub open spec fn status_of(game: GameView) -> StatusView {
    StatusView {
        board: Seq::new(3, |r: int| Seq::new(3, |c: int| cell_text(game.board[r][c]))),
        winner: match game.winner {
            Some(marker) => Some(marker_text(marker)),
            None => None,
        },
        game_over: game.game_over,
    }
}

/// A status code and a line of text.
#[derive(Clone, Copy, Debug, PartialEq, Eq)]
pub struct Reply {
    pub code: u16,
    pub text: &'static str,
}

/// The text that answers a move.
pub open spec fn move_text(outcome: MoveOutcome) -> Seq<char> {
    match outcome {
        MoveOutcome::Accepted => "Valid move"@,
        MoveOutcome::Occupied => "Invalid move"@,
        MoveOutcome::GameOver => "Game Over"@,
    }
}

/// The status code that answers a move.
pub open spec fn move_code(outcome: MoveOutcome) -> u16 {
    match outcome {
        MoveOutcome::Accepted => OK,
        MoveOutcome::Occupied => BAD_REQUEST,
        MoveOutcome::GameOver => BAD_REQUEST,
    }
}

/// The reply to a move with the given outcome.
pub fn move_reply(outcome: MoveOutcome) -> (reply: Reply)
    ensures
        reply.code == move_code(outcome),
        reply.text@ == move_text(outcome),
{
    match outcome {
        MoveOutcome::Accepted => Reply { code: OK, text: "Valid move" },
        MoveOutcome::Occupied => Reply { code: BAD_REQUEST, text: "Invalid move" },
        MoveOutcome::GameOver => Reply { code: BAD_REQUEST, text: "Game Over" },
    }
}

/// The snapshot of the game as it stands. The game is not changed.
pub fn handle_get_status(state: &GameState) -> (status: GameStatus)
    ensures
        status@ == status_of(state@),
        status.board@.len() == 3,
        forall|r: int| 0 <= r < 3 ==> (#[trigger] status.board@[r])@.len() == 3,
{
    let mut board: Vec<Vec<String>> = Vec::new();
    let mut row: usize = 0;
    while row < 3
        invariant
            row <= 3,
            board@.len() == row,
            forall|r: int| 0 <= r < row ==> (#[trigger] board@[r])@.len() == 3,
            forall|r: int, c: int|
                0 <= r < row && 0 <= c < 3 ==> (#[trigger] board@[r]@[c])@ == cell_text(
                    state@.board[r][c],
                ),
        decreases 3 - row,
    {
        let mut texts: Vec<String> = Vec::new();
        let mut col: usize = 0;
        while col < 3
            invariant
                row < 3,
                col <= 3,
                texts@.len() == col,
                forall|c: int|
                    0 <= c < col ==> (#[trigger] texts@[c])@ == cell_text(
                        state@.board[row as int][c],
                    ),
            decreases 3 - col,
        {
            texts.push(text_of_cell(state.board().get(row, col)));
            col += 1;
        }
        board.push(texts);
        row += 1;
    }
    let winner = match state.winner() {
        Some(marker) => Some(marker.text()),
        None => None,
    };
    let status = GameStatus { board, winner, game_over: state.is_game_over() };
    assert(status@.board =~~= status_of(state@).board);
    status
}

/// Answers a request to move to row `x`, column `y`: makes the move if the
/// rules allow it, and says what became of it. While the game is on, the
/// request must name a cell of the board.
pub fn handle_make_move(state: &mut GameState, x: usize, y: usize) -> (reply: Reply)
    requires
        old(state)@.game_over || (x < 3 && y < 3),
    ensures
        final(state)@ == after_move(old(state)@, x as int, y as int),
        reply.code == move_code(outcome_of(old(state)@, x as int, y as int)),
        reply.text@ == move_text(outcome_of(old(state)@, x as int, y as int)),
        outcome_of(old(state)@, x as int, y as int) != MoveOutcome::Accepted ==> *final(state)
            == *old(state),
{
    let outcome = state.make_move(x, y);
    move_reply(outcome)
}

/// Starts the game over and says so.
pub fn handle_restart(state: &mut GameState) -> (reply: Reply)
    ensures
        final(state)@ == after_restart(old(state)@),
        reply.code == OK,
        reply.text@ == "Game restarted"@,
{
    state.restart();
    Reply { code: OK, text: "Game restarted" }
}

} // verus!

//! What holds of every game, proved from the rules of `game`.

use vstd::prelude::*;
use crate::board::is_full;
use crate::board::winner_of;
use crate::game::after_move;
use crate::game::after_restart;
use crate::game::initial;
use crate::game::outcome_of;
use crate::game::wf;
use crate::game::GameView;
use crate::game::MoveOutcome;
use crate::marker::Marker;

verus! {

/// The game that `start` has become once the first `n` requests of `moves`,
/// each a (row, column), have been answered in turn.
pub open spec fn state_after(start: GameView, moves: Seq<(int, int)>, n: int) -> GameView
    decreases n,
{
    if n <= 0 {
        start
    } else {
        let before = state_after(start, moves, n - 1);
        after_move(before, moves[n - 1].0, moves[n - 1].1)
    }
}

/// Whether request `i` of `moves` may be made when its turn comes: it names
/// a cell of the board, or the game has ended by then.
pub open spec fn allowed_at(start: GameView, moves: Seq<(int, int)>, i: int) -> bool {
    ||| state_after(start, moves, i).game_over
    ||| (0 <= moves[i].0 < 3 && 0 <= moves[i].1 < 3)
}

/// Whether request `i` of `moves` names a cell of the board and is accepted
/// when its turn comes.
pub open spec fn accepted_at(start: GameView, moves: Seq<(int, int)>, i: int) -> bool {
    &&& 0 <= moves[i].0 < 3
    &&& 0 <= moves[i].1 < 3
    &&& outcome_of(state_after(start, moves, i), moves[i].0, moves[i].1) == MoveOutcome::Accepted
}

/// The player to move when `n` moves have been made since `first` was to
/// move.
pub open spec fn mover(first: Marker, n: int) -> Marker {
    if n % 2 == 0 {
        first
    } else {
        first.other()
    }
}

/// A request to move keeps a well-formed game well formed.
pub proof fn lemma_move_keeps_wf(game: GameView, row: int, col: int)
    requires
        wf(game),
        game.game_over || (0 <= row < 3 && 0 <= col < 3),
    ensures
        wf(after_move(game, row, col)),
{
}

/// However a game is played, it stays well formed: after any number of
/// requests the winner is the one the board shows, and the game is over
/// exactly when there is a winner or the board is full.
pub proof fn lemma_play_keeps_wf(start: GameView, moves: Seq<(int, int)>, n: int)
    requires
        wf(start),
        0 <= n <= moves.len(),
        forall|i: int| 0 <= i < n ==> #[trigger] allowed_at(start, moves, i),
    ensures
        wf(state_after(start, moves, n)),
    decreases n,
{
    if n > 0 {
        lemma_play_keeps_wf(start, moves, n - 1);
        assert(allowed_at(start, moves, n - 1));
        lemma_move_keeps_wf(state_after(start, moves, n - 1), moves[n - 1].0, moves[n - 1].1);
    }
}

/// A game that has ended stays as it is, whatever is requested of it and
/// however often, and every such request is answered with `GameOver`.
pub proof fn lemma_game_over_is_final(start: GameView, moves: Seq<(int, int)>, n: int)
    requires
        start.game_over,
        0 <= n <= moves.len(),
    ensures
        state_after(start, moves, n) == start,
        forall|i: int|
            0 <= i < n ==> outcome_of(
                #[trigger] state_after(start, moves, i),
                moves[i].0,
                moves[i].1,
            ) == MoveOutcome::GameOver,
    decreases n,
{
    if n > 0 {
        lemma_game_over_is_final(start, moves, n - 1);
    }
}

/// The players alternate: while the game has not ended, the player to move
/// after `n` accepted moves is the one who started if `n` is even, and the
/// other one if `n` is odd. From the fresh game that is X, O, X, O, ...
pub proof fn lemma_players_alternate(start: GameView, moves: Seq<(int, int)>, n: int)
    requires
        0 <= n <= moves.len(),
        forall|i: int| 0 <= i < n ==> #[trigger] accepted_at(start, moves, i),
        !state_after(start, moves, n).game_over,
    ensures
        state_after(start, moves, n).current_player == mover(start.current_player, n),
        start == initial() ==> state_after(start, moves, n).current_player == (if n % 2 == 0 {
            Marker::X
        } else {
            Marker::O
        }),
    decreases n,
{
    if n > 0 {
        assert(accepted_at(start, moves, n - 1));
        lemma_players_alternate(start, moves, n - 1);
    }
}

/// A move that fills the board without completing a line ends the game in a
/// draw: there is no winner and the game is over.
pub proof fn lemma_full_board_without_line_is_draw(game: GameView, row: int, col: int)
    requires
        wf(game),
        game.game_over || (0 <= row < 3 && 0 <= col < 3),
        is_full(after_move(game, row, col).board),
        winner_of(after_move(game, row, col).board) is None,
    ensures
        after_move(game, row, col).winner is None,
        after_move(game, row, col).game_over,
{
    lemma_move_keeps_wf(game, row, col);
}

/// Restarting twice is restarting once, and either way the game is the
/// fresh one.
pub proof fn lemma_restart_idempotent(game: GameView)
    ensures
        after_restart(game) == initial(),
        after_restart(after_restart(game)) == after_restart(game),
{
}

/// A request for a cell that is taken, or one made when the game has ended,
/// is rejected and changes nothing; once the game has ended every request
/// is answered with `GameOver`.
pub proof fn lemma_rejected_move_changes_nothing(game: GameView, row: int, col: int)
    ensures
        game.game_over ==> outcome_of(game, row, col) == MoveOutcome::GameOver,
        !game.game_over && game.board[row][col] is Some ==> outcome_of(game, row, col)
            == MoveOutcome::Occupied,
        outcome_of(game, row, col) != MoveOutcome::Accepted ==> after_move(game, row, col) == game,
{
}

} // verus!

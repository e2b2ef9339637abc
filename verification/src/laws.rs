//! General laws of the game rules, stated over [`GameView`] and proved once
//! for every state the invariants allow.

use vstd::prelude::*;

use crate::game::{board_full, in_range, line_won, other_player, Cell, GameView, Player};

verus! {

/// A move never breaks the game's invariants: from any well-formed state,
/// the state after a move is well-formed again.
pub proof fn lemma_move_preserves_wf(g: GameView, row: int, col: int)
    requires
        g.wf(),
    ensures
        g.move_result(row, col).wf(),
{
}

/// On a board whose cells are all empty, every in-range move places the
/// current player's mark at the chosen cell, leaves every other cell empty,
/// keeps the game running, and hands the turn to the other player.
pub proof fn lemma_first_move_places_and_alternates(g: GameView, row: int, col: int)
    requires
        g.wf(),
        forall|i: int| 0 <= i < 9 ==> g.board[i] == Cell::Empty,
        in_range(row, col),
    ensures
        !g.game_over,
        g.move_result(row, col).cell(row, col) == Cell::Occupied(g.current_player),
        forall|r: int, c: int|
            in_range(r, c) && (r != row || c != col) ==> g.move_result(row, col).cell(r, c)
                == Cell::Empty,
        g.move_result(row, col).current_player == other_player(g.current_player),
        !g.move_result(row, col).game_over,
        g.move_result(row, col).winner is None,
{
    assert(!g.game_over) by {
        assert(g.board[0] == Cell::Empty);
    }
    let b = g.board.update(3 * row + col, Cell::Occupied(g.current_player));
    assert(!board_full(b)) by {
        let w: int = if 3 * row + col == 0 {
            1
        } else {
            0
        };
        assert(b[w] == Cell::Empty);
    }
    assert(!line_won(b, g.current_player));
}

/// A rejected move is a strict no-op: asking for a move once the game is
/// over, at an out-of-range position, or into an occupied cell changes
/// neither the board, nor the current player, nor the game-over flag, nor
/// the winner.
pub proof fn lemma_rejected_move_is_no_op(g: GameView, row: int, col: int)
    requires
        g.game_over || !in_range(row, col) || g.cell(row, col) != Cell::Empty,
    ensures
        g.move_result(row, col) == g,
{
}

/// Moves are idempotent per cell: once a move at `(row, col)` has been
/// answered, repeating it has no further effect, because a first successful
/// placement leaves the cell occupied and a rejected move changes nothing.
pub proof fn lemma_move_idempotent(g: GameView, row: int, col: int)
    requires
        g.wf(),
    ensures
        g.move_result(row, col).move_result(row, col) == g.move_result(row, col),
{
}

} // verus!

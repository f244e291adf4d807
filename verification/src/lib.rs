//! A chess rules engine: given a position and a side to move it produces the
//! exhaustive set of legal moves, applies a chosen move to reach the next
//! position, and detects checkmate and stalemate.  Every operation carries a
//! contract over a mathematical model of the board, and the contracts are
//! machine-checked.

use vstd::prelude::*;

pub mod coord;
pub mod game;
pub mod moves;
pub mod pieces;

use crate::game::Game;

verus! {

/// A game in the standard starting position, White to move.
pub fn new_game() -> (r: Game)
    ensures
        r@.board == crate::game::start_board(),
        r@.state is WhiteTurn,
        r@.previous_move is None,
        r@.winner is None,
        r@.wf(),
{
    Game::new()
}

} // verus!

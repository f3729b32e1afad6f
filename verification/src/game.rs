//! The board, the positions on it, and the game state built from them.

pub mod board;
pub mod board_position;
pub mod setup;

use vstd::prelude::*;

use crate::game::board::{occupant, ChessBoardData};
use crate::game::board_position::Square;
use crate::game::setup::{initial_occupant, initialize_chess_board};
use crate::player::Player;

verus! {

/// A game: the board and the number of turns played so far.
pub struct ChessGame {
    pub board_data: ChessBoardData,
    /// White moves first: White is to move on even turns, Black on odd ones.
    pub turn: u32,
}

impl ChessGame {
    /// A game at its start: every piece on its home square, no turn played.
    pub fn new() -> (game: ChessGame)
        ensures
            game.turn == 0,
            forall|square: Square|
                #![trigger occupant(game.board_data.board, square)]
                #![trigger initial_occupant(square)]
                square.on_board() ==> occupant(game.board_data.board, square) == initial_occupant(
                    square,
                ),
            game.board_data.is_consistent(),
    {
        ChessGame { board_data: ChessBoardData { board: initialize_chess_board() }, turn: 0 }
    }

    /// The player to move.
    pub open spec fn spec_players_turn(&self) -> Player {
        if self.turn % 2 == 0 {
            Player::White
        } else {
            Player::Black
        }
    }

    /// The player to move.
    #[verifier::when_used_as_spec(spec_players_turn)]
    pub fn players_turn(&self) -> (player: Player)
        ensures
            player == self.spec_players_turn(),
    {
        if self.turn % 2 == 0 {
            Player::White
        } else {
            Player::Black
        }
    }

    /// Counts one more turn. The board stays as it is, and the move passes to
    /// the other player.
    pub fn advance_turn(&mut self)
        requires
            old(self).turn < u32::MAX,
        ensures
            final(self).turn == old(self).turn + 1,
            final(self).board_data == old(self).board_data,
            final(self).spec_players_turn() == old(self).spec_players_turn().opponent(),
    {
        self.turn += 1;
    }
}

} // verus!

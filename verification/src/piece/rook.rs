//! The rook.
//!
//! A rook slides along its column and its row. It moves onto every empty
//! square it reaches and captures the first piece of the other player that it
//! meets on a ray.

use vstd::prelude::*;

use crate::game::board::ChessBoard;
use crate::game::board_position::{BoardPosition, Square};
use crate::piece::sliding::{
    collect_sliding_captures, collect_sliding_moves, sliding_captures, sliding_moves, Direction,
};
use crate::piece::{glyph_of, ChessPieceTrait};
use crate::player::Player;

verus! {

/// A rook.
#[derive(Debug, Clone, Copy, PartialEq, Eq)]
pub struct Rook {
    pub player: Player,
    pub position: BoardPosition,
}

/// The directions a rook walks in, in the order in which its rays are
/// visited: up, down, left, right.
pub open spec fn rook_directions() -> Seq<Direction> {
    seq![
        Direction::Up,
        Direction::Down,
        Direction::Left,
        Direction::Right,
    ]
}

/// The directions of [`rook_directions`], as a table to walk through.
pub fn rook_direction_table() -> (table: [Direction; 4])
    ensures
        table@ == rook_directions(),
{
    [
        Direction::Up,
        Direction::Down,
        Direction::Left,
        Direction::Right,
    ]
}

impl ChessPieceTrait for Rook {
    open spec fn spec_player(&self) -> Player {
        self.player
    }

    open spec fn spec_board_position(&self) -> BoardPosition {
        self.position
    }

    open spec fn spec_piece_name(&self) -> Seq<char> {
        "Rook"@
    }

    open spec fn spec_letter(&self) -> char {
        'R'
    }

    /// Along each ray in turn, every empty square up to the first square
    /// that is occupied or off the board.
    open spec fn spec_valid_moves(&self, board: ChessBoard) -> Seq<Square> {
        sliding_moves(board, self.position@, rook_directions())
    }

    /// Along each ray in turn, the first occupied square, if it holds a
    /// piece of the other player.
    open spec fn spec_valid_captures(&self, board: ChessBoard) -> Seq<Square> {
        sliding_captures(board, self.position@, self.player, rook_directions())
    }

    fn get_player(&self) -> (player: &Player)
        ensures
            *player == self.player,
    {
        &self.player
    }

    fn valid_moves(&self, board: &ChessBoard) -> (moves: Vec<BoardPosition>)
        ensures
            moves.deep_view() == sliding_moves(*board, self.position@, rook_directions()),
    {
        let directions = rook_direction_table();
        collect_sliding_moves(&self.position, &directions, board)
    }

    fn valid_captures(&self, board: &ChessBoard) -> (captures: Vec<BoardPosition>)
        ensures
            captures.deep_view() == sliding_captures(
                *board,
                self.position@,
                self.player,
                rook_directions(),
            ),
    {
        let directions = rook_direction_table();
        collect_sliding_captures(&self.position, &self.player, &directions, board)
    }

    fn display_glyph(&self) -> (glyph: &'static str)
        ensures
            glyph@ == glyph_of(self.player, 'R'),
    {
        proof {
            reveal_strlit("(R)");
            reveal_strlit("[R]");
        }
        match self.player {
            Player::Black => "(R)",
            Player::White => "[R]",
        }
    }

    fn get_piece_name(&self) -> (name: &str)
        ensures
            name@ == "Rook"@,
    {
        "Rook"
    }

    fn get_board_position(&self) -> (position: &BoardPosition)
        ensures
            *position == self.position,
    {
        &self.position
    }
}

} // verus!

//! The queen.
//!
//! A queen slides along the four diagonals, the column and the row. It moves
//! onto every empty square it reaches and captures the first piece of the
//! other player that it meets on a ray.

use vstd::prelude::*;

use crate::game::board::ChessBoard;
use crate::game::board_position::{BoardPosition, Square};
use crate::piece::sliding::{
    collect_sliding_captures, collect_sliding_moves, sliding_captures, sliding_moves, Direction,
};
use crate::piece::{glyph_of, ChessPieceTrait};
use crate::player::Player;

verus! {

/// A queen.
#[derive(Debug, Clone, Copy, PartialEq, Eq)]
pub struct Queen {
    pub player: Player,
    pub position: BoardPosition,
}

/// The directions a queen walks in, in the order in which its rays are
/// visited: the four diagonals as the bishop visits them, then up, down, left
/// and right as the rook does.
pub open spec fn queen_directions() -> Seq<Direction> {
    seq![
        Direction::UpLeft,
        Direction::UpRight,
        Direction::DownLeft,
        Direction::DownRight,
        Direction::Up,
        Direction::Down,
        Direction::Left,
        Direction::Right,
    ]
}

/// The directions of [`queen_directions`], as a table to walk through.
pub fn queen_direction_table() -> (table: [Direction; 8])
    ensures
        table@ == queen_directions(),
{
    [
        Direction::UpLeft,
        Direction::UpRight,
        Direction::DownLeft,
        Direction::DownRight,
        Direction::Up,
        Direction::Down,
        Direction::Left,
        Direction::Right,
    ]
}

impl ChessPieceTrait for Queen {
    open spec fn spec_player(&self) -> Player {
        self.player
    }

    open spec fn spec_board_position(&self) -> BoardPosition {
        self.position
    }

    open spec fn spec_piece_name(&self) -> Seq<char> {
        "Queen"@
    }

    open spec fn spec_letter(&self) -> char {
        'Q'
    }

    /// Along each ray in turn, every empty square up to the first square
    /// that is occupied or off the board.
    open spec fn spec_valid_moves(&self, board: ChessBoard) -> Seq<Square> {
        sliding_moves(board, self.position@, queen_directions())
    }

    /// Along each ray in turn, the first occupied square, if it holds a
    /// piece of the other player.
    open spec fn spec_valid_captures(&self, board: ChessBoard) -> Seq<Square> {
        sliding_captures(board, self.position@, self.player, queen_directions())
    }

    fn get_player(&self) -> (player: &Player)
        ensures
            *player == self.player,
    {
        &self.player
    }

    fn valid_moves(&self, board: &ChessBoard) -> (moves: Vec<BoardPosition>)
        ensures
            moves.deep_view() == sliding_moves(*board, self.position@, queen_directions()),
    {
        let directions = queen_direction_table();
        collect_sliding_moves(&self.position, &directions, board)
    }

    fn valid_captures(&self, board: &ChessBoard) -> (captures: Vec<BoardPosition>)
        ensures
            captures.deep_view() == sliding_captures(
                *board,
                self.position@,
                self.player,
                queen_directions(),
            ),
    {
        let directions = queen_direction_table();
        collect_sliding_captures(&self.position, &self.player, &directions, board)
    }

    fn display_glyph(&self) -> (glyph: &'static str)
        ensures
            glyph@ == glyph_of(self.player, 'Q'),
    {
        proof {
            reveal_strlit("(Q)");
            reveal_strlit("[Q]");
        }
        match self.player {
            Player::Black => "(Q)",
            Player::White => "[Q]",
        }
    }

    fn get_piece_name(&self) -> (name: &str)
        ensures
            name@ == "Queen"@,
    {
        "Queen"
    }

    fn get_board_position(&self) -> (position: &BoardPosition)
        ensures
            *position == self.position,
    {
        &self.position
    }
}

} // verus!

//! The bishop.
//!
//! A bishop slides along the four diagonals and moves onto every empty square
//! it reaches. It never jumps: the first occupied square ends the walk along
//! a diagonal, whoever owns the piece on it. Generation for the bishop lists
//! quiet moves only; its list of captures stays empty.

use vstd::prelude::*;

use crate::game::board::ChessBoard;
use crate::game::board_position::{BoardPosition, Square};
use crate::piece::sliding::{collect_sliding_moves, sliding_moves, Direction};
use crate::piece::{glyph_of, ChessPieceTrait};
use crate::player::Player;

verus! {

/// A bishop.
#[derive(Debug, Clone, Copy, PartialEq, Eq)]
pub struct Bishop {
    pub player: Player,
    pub position: BoardPosition,
}

/// The directions a bishop walks in, in the order in which its rays are
/// visited: up-left, up-right, down-left, down-right.
pub open spec fn bishop_directions() -> Seq<Direction> {
    seq![
        Direction::UpLeft,
        Direction::UpRight,
        Direction::DownLeft,
        Direction::DownRight,
    ]
}

/// The directions of [`bishop_directions`], as a table to walk through.
pub fn bishop_direction_table() -> (table: [Direction; 4])
    ensures
        table@ == bishop_directions(),
{
    [
        Direction::UpLeft,
        Direction::UpRight,
        Direction::DownLeft,
        Direction::DownRight,
    ]
}

impl ChessPieceTrait for Bishop {
    open spec fn spec_player(&self) -> Player {
        self.player
    }

    open spec fn spec_board_position(&self) -> BoardPosition {
        self.position
    }

    open spec fn spec_piece_name(&self) -> Seq<char> {
        "Bishop"@
    }

    open spec fn spec_letter(&self) -> char {
        'B'
    }

    /// Along each diagonal in turn, every empty square up to the first
    /// square that is occupied or off the board.
    open spec fn spec_valid_moves(&self, board: ChessBoard) -> Seq<Square> {
        sliding_moves(board, self.position@, bishop_directions())
    }

    /// The bishop reports quiet moves only: its list of captures is empty on
    /// every board.
    open spec fn spec_valid_captures(&self, board: ChessBoard) -> Seq<Square> {
        Seq::empty()
    }

    fn get_player(&self) -> (player: &Player)
        ensures
            *player == self.player,
    {
        &self.player
    }

    fn valid_moves(&self, board: &ChessBoard) -> (moves: Vec<BoardPosition>)
        ensures
            moves.deep_view() == sliding_moves(*board, self.position@, bishop_directions()),
    {
        let directions = bishop_direction_table();
        collect_sliding_moves(&self.position, &directions, board)
    }

    fn valid_captures(&self, board: &ChessBoard) -> (captures: Vec<BoardPosition>)
        ensures
            captures@ == Seq::<BoardPosition>::empty(),
    {
        Vec::new()
    }

    fn display_glyph(&self) -> (glyph: &'static str)
        ensures
            glyph@ == glyph_of(self.player, 'B'),
    {
        proof {
            reveal_strlit("(B)");
            reveal_strlit("[B]");
        }
        match self.player {
            Player::Black => "(B)",
            Player::White => "[B]",
        }
    }

    fn get_piece_name(&self) -> (name: &str)
        ensures
            name@ == "Bishop"@,
    {
        "Bishop"
    }

    fn get_board_position(&self) -> (position: &BoardPosition)
        ensures
            *position == self.position,
    {
        &self.position
    }
}

} // verus!

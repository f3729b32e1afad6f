//! The knight.
//!
//! A knight jumps to the eight squares that lie two steps along one axis and
//! one step along the other. What stands in between does not matter.

use vstd::prelude::*;

use crate::game::board::ChessBoard;
use crate::game::board_position::{BoardPosition, Square};
use crate::piece::stepping::{
    collect_stepping_captures, collect_stepping_moves, stepping_captures, stepping_moves,
};
use crate::piece::{glyph_of, ChessPieceTrait};
use crate::player::Player;

verus! {

/// A knight.
#[derive(Debug, Clone, Copy, PartialEq, Eq)]
pub struct Knight {
    pub player: Player,
    pub position: BoardPosition,
}

/// The offsets a knight looks at, each a change of row and a change of
/// column, in the order in which they are visited: two rows up, one row up,
/// one row down, two rows down, each time left before right.
pub open spec fn knight_offsets() -> Seq<(i32, i32)> {
    seq![
        (2i32, -1i32),
        (2i32, 1i32),
        (1i32, -2i32),
        (1i32, 2i32),
        (-1i32, -2i32),
        (-1i32, 2i32),
        (-2i32, -1i32),
        (-2i32, 1i32),
    ]
}

/// The offsets of [`knight_offsets`], as a table to walk through.
pub fn knight_offset_table() -> (table: [(i32, i32); 8])
    ensures
        table@ == knight_offsets(),
{
    [
        (2i32, -1i32),
        (2i32, 1i32),
        (1i32, -2i32),
        (1i32, 2i32),
        (-1i32, -2i32),
        (-1i32, 2i32),
        (-2i32, -1i32),
        (-2i32, 1i32),
    ]
}

impl ChessPieceTrait for Knight {
    open spec fn spec_player(&self) -> Player {
        self.player
    }

    open spec fn spec_board_position(&self) -> BoardPosition {
        self.position
    }

    open spec fn spec_piece_name(&self) -> Seq<char> {
        "Knight"@
    }

    open spec fn spec_letter(&self) -> char {
        'N'
    }

    open spec fn spec_valid_moves(&self, board: ChessBoard) -> Seq<Square> {
        stepping_moves(board, self.position@, knight_offsets())
    }

    open spec fn spec_valid_captures(&self, board: ChessBoard) -> Seq<Square> {
        stepping_captures(board, self.position@, self.player, knight_offsets())
    }

    fn get_player(&self) -> (player: &Player)
        ensures
            *player == self.player,
    {
        &self.player
    }

    fn valid_moves(&self, board: &ChessBoard) -> (moves: Vec<BoardPosition>)
        ensures
            moves.deep_view() == stepping_moves(*board, self.position@, knight_offsets()),
    {
        let offsets = knight_offset_table();
        collect_stepping_moves(&self.position, &offsets, board)
    }

    fn valid_captures(&self, board: &ChessBoard) -> (captures: Vec<BoardPosition>)
        ensures
            captures.deep_view() == stepping_captures(
                *board,
                self.position@,
                self.player,
                knight_offsets(),
            ),
    {
        let offsets = knight_offset_table();
        collect_stepping_captures(&self.position, &self.player, &offsets, board)
    }

    fn display_glyph(&self) -> (glyph: &'static str)
        ensures
            glyph@ == glyph_of(self.player, 'N'),
    {
        proof {
            reveal_strlit("(N)");
            reveal_strlit("[N]");
        }
        match self.player {
            Player::Black => "(N)",
            Player::White => "[N]",
        }
    }

    fn get_piece_name(&self) -> (name: &str)
        ensures
            name@ == "Knight"@,
    {
        "Knight"
    }

    fn get_board_position(&self) -> (position: &BoardPosition)
        ensures
            *position == self.position,
    {
        &self.position
    }
}

} // verus!

//! The king.
//!
//! A king steps to any of the eight squares around its own. Whether a square
//! is attacked is not looked at: check is not modelled.

use vstd::prelude::*;

use crate::game::board::ChessBoard;
use crate::game::board_position::{BoardPosition, Square};
use crate::piece::stepping::{
    collect_stepping_captures, collect_stepping_moves, stepping_captures, stepping_moves,
};
use crate::piece::{glyph_of, ChessPieceTrait};
use crate::player::Player;

verus! {

/// A king.
#[derive(Debug, Clone, Copy, PartialEq, Eq)]
pub struct King {
    pub player: Player,
    pub position: BoardPosition,
}

/// The offsets a king looks at, each a change of row and a change of
/// column, in the order in which they are visited: the row above, the king's
/// own row, the row below, each time from left to right.
pub open spec fn king_offsets() -> Seq<(i32, i32)> {
    seq![
        (1i32, -1i32),
        (1i32, 0i32),
        (1i32, 1i32),
        (0i32, -1i32),
        (0i32, 1i32),
        (-1i32, -1i32),
        (-1i32, 0i32),
        (-1i32, 1i32),
    ]
}

/// The offsets of [`king_offsets`], as a table to walk through.
pub fn king_offset_table() -> (table: [(i32, i32); 8])
    ensures
        table@ == king_offsets(),
{
    [
        (1i32, -1i32),
        (1i32, 0i32),
        (1i32, 1i32),
        (0i32, -1i32),
        (0i32, 1i32),
        (-1i32, -1i32),
        (-1i32, 0i32),
        (-1i32, 1i32),
    ]
}

impl ChessPieceTrait for King {
    open spec fn spec_player(&self) -> Player {
        self.player
    }

    open spec fn spec_board_position(&self) -> BoardPosition {
        self.position
    }

    open spec fn spec_piece_name(&self) -> Seq<char> {
        "King"@
    }

    open spec fn spec_letter(&self) -> char {
        'K'
    }

    open spec fn spec_valid_moves(&self, board: ChessBoard) -> Seq<Square> {
        stepping_moves(board, self.position@, king_offsets())
    }

    open spec fn spec_valid_captures(&self, board: ChessBoard) -> Seq<Square> {
        stepping_captures(board, self.position@, self.player, king_offsets())
    }

    fn get_player(&self) -> (player: &Player)
        ensures
            *player == self.player,
    {
        &self.player
    }

    fn valid_moves(&self, board: &ChessBoard) -> (moves: Vec<BoardPosition>)
        ensures
            moves.deep_view() == stepping_moves(*board, self.position@, king_offsets()),
    {
        let offsets = king_offset_table();
        collect_stepping_moves(&self.position, &offsets, board)
    }

    fn valid_captures(&self, board: &ChessBoard) -> (captures: Vec<BoardPosition>)
        ensures
            captures.deep_view() == stepping_captures(
                *board,
                self.position@,
                self.player,
                king_offsets(),
            ),
    {
        let offsets = king_offset_table();
        collect_stepping_captures(&self.position, &self.player, &offsets, board)
    }

    fn display_glyph(&self) -> (glyph: &'static str)
        ensures
            glyph@ == glyph_of(self.player, 'K'),
    {
        proof {
            reveal_strlit("(K)");
            reveal_strlit("[K]");
        }
        match self.player {
            Player::Black => "(K)",
            Player::White => "[K]",
        }
    }

    fn get_piece_name(&self) -> (name: &str)
        ensures
            name@ == "King"@,
    {
        "King"
    }

    fn get_board_position(&self) -> (position: &BoardPosition)
        ensures
            *position == self.position,
    {
        &self.position
    }
}

} // verus!

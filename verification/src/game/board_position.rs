//! Candidate and validated board coordinates.
//!
//! Offset arithmetic yields a [`CandidateBoardPosition`], which may lie
//! anywhere. Validation turns it into a [`BoardPosition`], which always lies
//! on the board. Both are modelled by the [`Square`] they denote.

use vstd::prelude::*;

use crate::game::board::{holds_opponent_of, is_vacant, ChessBoard};
use crate::piece::ChessPiece;
use crate::player::Player;

verus! {

/// A square of the unbounded grid: the mathematical model of a position.
pub struct Square {
    pub row: int,
    pub column: int,
}

impl Square {
    /// Whether the square is one of the 64 squares of the board.
    pub open spec fn on_board(self) -> bool {
        0 <= self.row < 8 && 0 <= self.column < 8
    }

    /// The square reached from `self` by moving `rows` rows and `columns` columns.
    pub open spec fn offset(self, rows: int, columns: int) -> Square {
        Square { row: self.row + rows, column: self.column + columns }
    }
}

/// The letter of a column, `'a'` for column 0 up to `'h'` for column 7.
pub open spec fn column_letter(column: int) -> char
    recommends
        0 <= column < 8,
{
    seq!['a', 'b', 'c', 'd', 'e', 'f', 'g', 'h'][column]
}

/// A coordinate pair produced by arithmetic, with no guarantee that it lies on
/// the board.
#[derive(Debug, Clone, Copy, PartialEq, Eq)]
pub struct CandidateBoardPosition {
    pub row_index: i32,
    pub column_index: i32,
}

impl View for CandidateBoardPosition {
    type V = Square;

    open spec fn view(&self) -> Square {
        Square { row: self.row_index as int, column: self.column_index as int }
    }
}

/// A coordinate pair that lies on the board.
///
/// The fields are private: the only way to obtain a value is to validate a
/// [`CandidateBoardPosition`], so every value indexes the board safely.
#[derive(Debug, Clone, Copy, Hash, PartialEq, Eq, Structural)]
pub struct BoardPosition {
    row_index: usize,
    column_index: usize,
}

impl View for BoardPosition {
    type V = Square;

    closed spec fn view(&self) -> Square {
        Square { row: self.row_index as int, column: self.column_index as int }
    }
}

impl DeepView for BoardPosition {
    type V = Square;

    open spec fn deep_view(&self) -> Square {
        self@
    }
}

impl CandidateBoardPosition {
    /// Whether both coordinates lie in `[0, 8)`.
    pub fn is_position_within_bounds(&self, board: &ChessBoard) -> (within: bool)
        ensures
            within == self@.on_board(),
    {
        // The board is square.
        let board_size: i32 = board.len() as i32;
        self.row_index >= 0 && self.row_index < board_size && self.column_index >= 0
            && self.column_index < board_size
    }

    /// Validates the candidate: `Some` of the same square if it lies on the
    /// board, `None` otherwise.
    pub fn validate_candidate_position(&self, board: &ChessBoard) -> (validated: Option<
        BoardPosition,
    >)
        ensures
            validated is Some <==> self@.on_board(),
            validated matches Some(position) ==> position@ == self@ && position@.on_board(),
    {
        if self.is_position_within_bounds(board) {
            Some(
                BoardPosition {
                    row_index: self.row_index as usize,
                    column_index: self.column_index as usize,
                },
            )
        } else {
            None
        }
    }

    /// Validates a candidate that the caller knows to lie on the board.
    pub fn validate_candidate_position_and_unwrap(&self, board: &ChessBoard) -> (position:
        BoardPosition)
        requires
            self@.on_board(),
        ensures
            position@ == self@,
            position@.on_board(),
    {
        self.validate_candidate_position(board).unwrap()
    }

    /// Validates the candidate as the target of a quiet move: `Some` of the
    /// same square if it lies on the board and is empty, `None` otherwise.
    pub fn validate_move(&self, board: &ChessBoard) -> (validated: Option<BoardPosition>)
        ensures
            validated is Some <==> is_vacant(*board, self@),
            validated matches Some(position) ==> position@ == self@,
    {
        match self.validate_candidate_position(board) {
            Some(position) => if position.is_move_valid(board) {
                Some(position)
            } else {
                None
            },
            None => None,
        }
    }

    /// Validates the candidate as the target of a capture by `player`: `Some`
    /// of the same square if it lies on the board and holds a piece of the
    /// other player, `None` otherwise.
    pub fn validate_capture(&self, player: &Player, board: &ChessBoard) -> (validated: Option<
        BoardPosition,
    >)
        ensures
            validated is Some <==> holds_opponent_of(*board, self@, *player),
            validated matches Some(position) ==> position@ == self@,
    {
        match self.validate_candidate_position(board) {
            Some(position) => if position.is_capture_valid(player, board) {
                Some(position)
            } else {
                None
            },
            None => None,
        }
    }
}

impl BoardPosition {
    /// Every validated position lies on the board.
    #[verifier::type_invariant]
    pub open spec fn in_bounds(self) -> bool {
        self@.on_board()
    }

    /// The validated position that denotes `square`.
    pub closed spec fn at(square: Square) -> BoardPosition
        recommends
            square.on_board(),
    {
        BoardPosition { row_index: square.row as usize, column_index: square.column as usize }
    }

    /// `at` is the inverse of the view on the squares of the board.
    pub proof fn lemma_at(square: Square)
        requires
            square.on_board(),
        ensures
            BoardPosition::at(square)@ == square,
    {
    }

    /// Two validated positions that denote the same square are equal.
    pub proof fn lemma_view_is_injective(first: BoardPosition, second: BoardPosition)
        requires
            first@ == second@,
        ensures
            first == second,
    {
    }

    /// Whether the square is empty, so that a piece may move onto it.
    pub fn is_move_valid(&self, board: &ChessBoard) -> (valid: bool)
        ensures
            self@.on_board(),
            valid == is_vacant(*board, self@),
    {
        proof {
            use_type_invariant(self);
        }
        let space: Option<&ChessPiece> = board[self.row_index][self.column_index].as_ref();
        space.is_none()
    }

    /// Whether the square holds a piece that `player` may capture: a piece of
    /// the other player.
    pub fn is_capture_valid(&self, player: &Player, board: &ChessBoard) -> (valid: bool)
        ensures
            self@.on_board(),
            valid == holds_opponent_of(*board, self@, *player),
    {
        proof {
            use_type_invariant(self);
        }
        match board[self.row_index][self.column_index].as_ref() {
            Some(piece) => piece.owner() != *player,
            None => false,
        }
    }

    /// The row, in `[0, 8)`.
    pub fn get_row_index(&self) -> (row: usize)
        ensures
            row == self@.row,
            row < 8,
    {
        proof {
            use_type_invariant(self);
        }
        self.row_index
    }

    /// The column, in `[0, 8)`.
    pub fn get_column_index(&self) -> (column: usize)
        ensures
            column == self@.column,
            column < 8,
    {
        proof {
            use_type_invariant(self);
        }
        self.column_index
    }

    /// The letter of the column, `'a'` to `'h'`.
    pub fn get_column_letter(&self) -> (letter: char)
        ensures
            self@.on_board(),
            letter == column_letter(self@.column),
    {
        proof {
            use_type_invariant(self);
        }
        match self.column_index {
            0 => 'a',
            1 => 'b',
            2 => 'c',
            3 => 'd',
            4 => 'e',
            5 => 'f',
            6 => 'g',
            _ => 'h',
        }
    }
}

} // verus!

//! The pawn.
//!
//! A pawn steps straight toward the opponent's home rank, toward higher rows
//! for White and lower rows for Black. From its first square it may step
//! twice, but only over an empty square. It captures one step forward on
//! either neighbouring column. Promotion and en passant are not modelled: a
//! pawn on the last rank has no move.

use vstd::prelude::*;

use crate::game::board::{holds_opponent_of, is_vacant, ChessBoard};
use crate::game::board_position::{BoardPosition, CandidateBoardPosition, Square};
use crate::piece::{glyph_of, ChessPieceTrait};
use crate::player::Player;

verus! {

/// A pawn.
#[derive(Debug, Clone, Copy, PartialEq, Eq)]
pub struct Pawn {
    pub player: Player,
    pub position: BoardPosition,
    pub has_been_moved: bool,
}

/// The change of row that one step forward makes for a pawn of `player`.
pub open spec fn forward(player: Player) -> int {
    match player {
        Player::White => 1,
        Player::Black => -1,
    }
}

/// `target` alone if it holds a piece that `player` may capture, nothing
/// otherwise.
pub open spec fn capturable(board: ChessBoard, player: Player, target: Square) -> Seq<Square> {
    if holds_opponent_of(board, target, player) {
        seq![target]
    } else {
        Seq::empty()
    }
}

impl Pawn {
    /// The square one step ahead.
    pub open spec fn single_step(self) -> Square {
        self.position@.offset(forward(self.player), 0)
    }

    /// The square two steps ahead.
    pub open spec fn double_step(self) -> Square {
        self.position@.offset(2 * forward(self.player), 0)
    }

    /// The square one step ahead on the column to the left.
    pub open spec fn left_diagonal(self) -> Square {
        self.position@.offset(forward(self.player), -1)
    }

    /// The square one step ahead on the column to the right.
    pub open spec fn right_diagonal(self) -> Square {
        self.position@.offset(forward(self.player), 1)
    }

    /// One step forward, as the pawn's player counts rows.
    fn direction(&self) -> (direction: i32)
        ensures
            direction == forward(self.player),
    {
        match self.player {
            Player::White => 1,
            Player::Black => -1,
        }
    }

    /// The candidate that lies `rows` rows and `columns` columns from the pawn.
    fn candidate(&self, rows: i32, columns: i32) -> (candidate: CandidateBoardPosition)
        requires
            -2 <= rows <= 2,
            -1 <= columns <= 1,
        ensures
            candidate@ == self.position@.offset(rows as int, columns as int),
    {
        CandidateBoardPosition {
            row_index: self.position.get_row_index() as i32 + rows,
            column_index: self.position.get_column_index() as i32 + columns,
        }
    }
}

impl ChessPieceTrait for Pawn {
    open spec fn spec_player(&self) -> Player {
        self.player
    }

    open spec fn spec_board_position(&self) -> BoardPosition {
        self.position
    }

    open spec fn spec_piece_name(&self) -> Seq<char> {
        "Pawn"@
    }

    open spec fn spec_letter(&self) -> char {
        'P'
    }

    /// The single step if the square ahead is empty; after it the double
    /// step, if the pawn has not moved yet and the second square is empty
    /// too.
    open spec fn spec_valid_moves(&self, board: ChessBoard) -> Seq<Square> {
        if !is_vacant(board, self.single_step()) {
            Seq::empty()
        } else if self.has_been_moved || !is_vacant(board, self.double_step()) {
            seq![self.single_step()]
        } else {
            seq![self.single_step(), self.double_step()]
        }
    }

    /// The left diagonal, then the right diagonal, each if it holds a piece
    /// of the other player.
    open spec fn spec_valid_captures(&self, board: ChessBoard) -> Seq<Square> {
        capturable(board, self.player, self.left_diagonal()) + capturable(
            board,
            self.player,
            self.right_diagonal(),
        )
    }

    fn get_player(&self) -> (player: &Player)
        ensures
            *player == self.player,
    {
        &self.player
    }

    fn valid_moves(&self, board: &ChessBoard) -> (moves: Vec<BoardPosition>)
        ensures
            moves.deep_view() == self.spec_valid_moves(*board),
    {
        let mut valid_moves: Vec<BoardPosition> = Vec::new();
        let pawn_direction = self.direction();
        let normal_move = self.candidate(pawn_direction, 0);
        if let Some(normal_move_position) = normal_move.validate_move(board) {
            valid_moves.push(normal_move_position);
            // A pawn cannot jump: the double step is looked at only where the
            // single step is possible.
            if !self.has_been_moved {
                let initial_two_move = self.candidate(pawn_direction * 2, 0);
                if let Some(initial_two_move_position) = initial_two_move.validate_move(board) {
                    valid_moves.push(initial_two_move_position);
                }
            }
        }
        valid_moves
    }

    fn valid_captures(&self, board: &ChessBoard) -> (captures: Vec<BoardPosition>)
        ensures
            captures.deep_view() == self.spec_valid_captures(*board),
    {
        let mut valid_captures: Vec<BoardPosition> = Vec::new();
        let pawn_direction = self.direction();
        let left_diagonal_capture = self.candidate(pawn_direction, -1);
        if let Some(board_position) = left_diagonal_capture.validate_capture(&self.player, board) {
            valid_captures.push(board_position);
        }
        let right_diagonal_capture = self.candidate(pawn_direction, 1);
        if let Some(board_position) = right_diagonal_capture.validate_capture(
            &self.player,
            board,
        ) {
            valid_captures.push(board_position);
        }
        valid_captures
    }

    fn display_glyph(&self) -> (glyph: &'static str)
        ensures
            glyph@ == glyph_of(self.player, 'P'),
    {
        proof {
            reveal_strlit("(P)");
            reveal_strlit("[P]");
        }
        match self.player {
            Player::Black => "(P)",
            Player::White => "[P]",
        }
    }

    fn get_piece_name(&self) -> (name: &str)
        ensures
            name@ == "Pawn"@,
    {
        "Pawn"
    }

    fn get_board_position(&self) -> (position: &BoardPosition)
        ensures
            *position == self.position,
    {
        &self.position
    }
}

/// A pawn on the last rank of its way has no move and no capture.
pub proof fn lemma_pawn_on_last_rank_has_no_move(pawn: Pawn, board: ChessBoard)
    requires
        pawn.position@.on_board(),
        pawn.position@.row == match pawn.player {
            Player::White => 7int,
            Player::Black => 0int,
        },
    ensures
        pawn.spec_valid_moves(board) == Seq::<Square>::empty(),
        pawn.spec_valid_captures(board) == Seq::<Square>::empty(),
{
}

/// Where the square two steps ahead is on the board and empty, the double
/// step is offered exactly when the pawn has not moved yet and the single
/// step is possible.
pub proof fn lemma_double_step_offered(pawn: Pawn, board: ChessBoard)
    requires
        is_vacant(board, pawn.double_step()),
    ensures
        pawn.spec_valid_moves(board).contains(pawn.double_step()) <==> !pawn.has_been_moved
            && is_vacant(board, pawn.single_step()),
        is_vacant(board, pawn.single_step()) <==> pawn.spec_valid_moves(board).contains(
            pawn.single_step(),
        ),
{
    let moves = pawn.spec_valid_moves(board);
    if is_vacant(board, pawn.single_step()) {
        assert(moves[0] == pawn.single_step());
    }
}

/// On every board, the double step is offered only to a pawn that has not
/// moved yet, only over an empty square, and only onto an empty square of the
/// board.
pub proof fn lemma_double_step_needs_free_path(pawn: Pawn, board: ChessBoard)
    requires
        pawn.spec_valid_moves(board).contains(pawn.double_step()),
    ensures
        !pawn.has_been_moved,
        is_vacant(board, pawn.single_step()),
        is_vacant(board, pawn.double_step()),
{
}

} // verus!

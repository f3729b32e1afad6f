//! The six kinds of piece and what they have in common.
//!
//! Every kind answers the same questions: whose it is, where it stands, how
//! it is written, and where it may go on a given board. [`ChessPiece`] is the
//! closed union of the six kinds and answers by dispatching on the kind.

pub mod bishop;
pub mod king;
pub mod knight;
pub mod pawn;
pub mod queen;
pub mod rook;
pub mod sliding;
pub mod stepping;

use vstd::prelude::*;

use crate::game::board::{holds_opponent_of, is_vacant, ChessBoard};
use crate::game::board_position::{column_letter, BoardPosition, Square};
use crate::piece::bishop::{bishop_directions, Bishop};
use crate::piece::king::{king_offsets, King};
use crate::piece::knight::{knight_offsets, Knight};
use crate::piece::pawn::Pawn;
use crate::piece::queen::{queen_directions, Queen};
use crate::piece::rook::{rook_directions, Rook};
use crate::piece::sliding::{
    lemma_sliding_captures_first_occupied, lemma_sliding_moves_unobstructed,
};
use crate::piece::stepping::{
    lemma_stepping_captures_are_opposing_targets, lemma_stepping_moves_are_vacant_targets,
};
use crate::player::Player;

verus! {

/// The squares a piece may move to and the squares it may capture on.
#[derive(Debug, PartialEq, Eq)]
pub struct PieceMoveData {
    pub valid_moves: Vec<BoardPosition>,
    pub valid_captures: Vec<BoardPosition>,
}

/// The three characters that stand for a piece on a printed board: the
/// letter of its kind, in square brackets for White and in round brackets for
/// Black.
pub open spec fn glyph_of(player: Player, letter: char) -> Seq<char> {
    match player {
        Player::White => seq!['[', letter, ']'],
        Player::Black => seq!['(', letter, ')'],
    }
}

/// The digit that names a row on a printed board, `'1'` for row 0 up to `'8'`
/// for row 7.
pub open spec fn rank_digit(row: int) -> char
    recommends
        0 <= row < 8,
{
    seq!['1', '2', '3', '4', '5', '6', '7', '8'][row]
}

/// The text that names a piece and its square, such as `Pawn (a2)`.
pub open spec fn position_text(name: Seq<char>, square: Square) -> Seq<char> {
    name + seq![' ', '(', column_letter(square.column), rank_digit(square.row), ')']
}

/// The column letter as a string of one character.
fn column_text(position: &BoardPosition) -> (text: &'static str)
    ensures
        text@ == seq![column_letter(position@.column)],
{
    proof {
        reveal_strlit("a");
        reveal_strlit("b");
        reveal_strlit("c");
        reveal_strlit("d");
        reveal_strlit("e");
        reveal_strlit("f");
        reveal_strlit("g");
        reveal_strlit("h");
    }
    match position.get_column_letter() {
        'a' => "a",
        'b' => "b",
        'c' => "c",
        'd' => "d",
        'e' => "e",
        'f' => "f",
        'g' => "g",
        _ => "h",
    }
}

/// The row digit as a string of one character.
fn rank_text(position: &BoardPosition) -> (text: &'static str)
    ensures
        text@ == seq![rank_digit(position@.row)],
{
    proof {
        reveal_strlit("1");
        reveal_strlit("2");
        reveal_strlit("3");
        reveal_strlit("4");
        reveal_strlit("5");
        reveal_strlit("6");
        reveal_strlit("7");
        reveal_strlit("8");
    }
    match position.get_row_index() + 1 {
        1 => "1",
        2 => "2",
        3 => "3",
        4 => "4",
        5 => "5",
        6 => "6",
        7 => "7",
        _ => "8",
    }
}

/// What every kind of piece can tell about itself.
pub trait ChessPieceTrait {
    /// The player the piece belongs to.
    spec fn spec_player(&self) -> Player;

    /// The square the piece stands on.
    spec fn spec_board_position(&self) -> BoardPosition;

    /// The name of the kind, such as `Pawn`.
    spec fn spec_piece_name(&self) -> Seq<char>;

    /// The letter of the kind, such as `P`.
    spec fn spec_letter(&self) -> char;

    /// The squares the piece may move to without capturing, in the order in
    /// which the kind's rule visits them.
    spec fn spec_valid_moves(&self, board: ChessBoard) -> Seq<Square>;

    /// The squares on which the piece may capture, in the order in which the
    /// kind's rule visits them.
    spec fn spec_valid_captures(&self, board: ChessBoard) -> Seq<Square>;

    /// The player the piece belongs to.
    fn get_player(&self) -> (player: &Player)
        ensures
            *player == self.spec_player(),
    ;

    /// The squares the piece may move to without capturing.
    fn valid_moves(&self, board: &ChessBoard) -> (moves: Vec<BoardPosition>)
        ensures
            moves.deep_view() == self.spec_valid_moves(*board),
    ;

    /// The squares on which the piece may capture.
    fn valid_captures(&self, board: &ChessBoard) -> (captures: Vec<BoardPosition>)
        ensures
            captures.deep_view() == self.spec_valid_captures(*board),
    ;

    /// The quiet moves and the captures of the piece on `board`. The board
    /// and the piece are only read.
    fn valid_moves_and_captures(&self, board: &ChessBoard) -> (data: PieceMoveData)
        ensures
            data.valid_moves.deep_view() == self.spec_valid_moves(*board),
            data.valid_captures.deep_view() == self.spec_valid_captures(*board),
    {
        PieceMoveData {
            valid_moves: self.valid_moves(board),
            valid_captures: self.valid_captures(board),
        }
    }

    /// The three characters that stand for the piece on a printed board.
    fn display_glyph(&self) -> (glyph: &'static str)
        ensures
            glyph@ == glyph_of(self.spec_player(), self.spec_letter()),
    ;

    /// The name of the kind.
    fn get_piece_name(&self) -> (name: &str)
        ensures
            name@ == self.spec_piece_name(),
    ;

    /// The square the piece stands on.
    fn get_board_position(&self) -> (position: &BoardPosition)
        ensures
            *position == self.spec_board_position(),
    ;

    /// The name of the kind followed by the square in brackets, column letter
    /// first and row number second, rows counted from 1.
    fn get_position_str(&self) -> (text: String)
        ensures
            text@ == position_text(self.spec_piece_name(), self.spec_board_position()@),
    {
        let position = self.get_board_position();
        let mut text = String::from_str(self.get_piece_name());
        proof {
            reveal_strlit(" (");
            reveal_strlit(")");
        }
        text.append(" (");
        text.append(column_text(position));
        text.append(rank_text(position));
        text.append(")");
        text
    }
}

/// A piece of any kind.
#[derive(Debug, Clone, Copy, PartialEq, Eq)]
pub enum ChessPiece {
    Pawn(Pawn),
    Bishop(Bishop),
    Knight(Knight),
    Rook(Rook),
    Queen(Queen),
    King(King),
}

impl ChessPiece {
    /// The player the piece belongs to, read off the fields. The predicates
    /// of the board are stated over this function.
    pub open spec fn spec_owner(&self) -> Player {
        match self {
            ChessPiece::Pawn(pawn) => pawn.player,
            ChessPiece::Bishop(bishop) => bishop.player,
            ChessPiece::Knight(knight) => knight.player,
            ChessPiece::Rook(rook) => rook.player,
            ChessPiece::Queen(queen) => queen.player,
            ChessPiece::King(king) => king.player,
        }
    }

    /// The position the piece holds as its own.
    pub open spec fn spec_position(&self) -> BoardPosition {
        match self {
            ChessPiece::Pawn(pawn) => pawn.position,
            ChessPiece::Bishop(bishop) => bishop.position,
            ChessPiece::Knight(knight) => knight.position,
            ChessPiece::Rook(rook) => rook.position,
            ChessPiece::Queen(queen) => queen.position,
            ChessPiece::King(king) => king.position,
        }
    }

    /// The player the piece belongs to.
    #[verifier::when_used_as_spec(spec_owner)]
    pub fn owner(&self) -> (player: Player)
        ensures
            player == self.spec_owner(),
    {
        match self {
            ChessPiece::Pawn(pawn) => pawn.player,
            ChessPiece::Bishop(bishop) => bishop.player,
            ChessPiece::Knight(knight) => knight.player,
            ChessPiece::Rook(rook) => rook.player,
            ChessPiece::Queen(queen) => queen.player,
            ChessPiece::King(king) => king.player,
        }
    }
}

impl ChessPieceTrait for ChessPiece {
    open spec fn spec_player(&self) -> Player {
        self.spec_owner()
    }

    open spec fn spec_board_position(&self) -> BoardPosition {
        self.spec_position()
    }

    open spec fn spec_piece_name(&self) -> Seq<char> {
        match self {
            ChessPiece::Pawn(pawn) => pawn.spec_piece_name(),
            ChessPiece::Bishop(bishop) => bishop.spec_piece_name(),
            ChessPiece::Knight(knight) => knight.spec_piece_name(),
            ChessPiece::Rook(rook) => rook.spec_piece_name(),
            ChessPiece::Queen(queen) => queen.spec_piece_name(),
            ChessPiece::King(king) => king.spec_piece_name(),
        }
    }

    open spec fn spec_letter(&self) -> char {
        match self {
            ChessPiece::Pawn(pawn) => pawn.spec_letter(),
            ChessPiece::Bishop(bishop) => bishop.spec_letter(),
            ChessPiece::Knight(knight) => knight.spec_letter(),
            ChessPiece::Rook(rook) => rook.spec_letter(),
            ChessPiece::Queen(queen) => queen.spec_letter(),
            ChessPiece::King(king) => king.spec_letter(),
        }
    }

    open spec fn spec_valid_moves(&self, board: ChessBoard) -> Seq<Square> {
        match self {
            ChessPiece::Pawn(pawn) => pawn.spec_valid_moves(board),
            ChessPiece::Bishop(bishop) => bishop.spec_valid_moves(board),
            ChessPiece::Knight(knight) => knight.spec_valid_moves(board),
            ChessPiece::Rook(rook) => rook.spec_valid_moves(board),
            ChessPiece::Queen(queen) => queen.spec_valid_moves(board),
            ChessPiece::King(king) => king.spec_valid_moves(board),
        }
    }

    open spec fn spec_valid_captures(&self, board: ChessBoard) -> Seq<Square> {
        match self {
            ChessPiece::Pawn(pawn) => pawn.spec_valid_captures(board),
            ChessPiece::Bishop(bishop) => bishop.spec_valid_captures(board),
            ChessPiece::Knight(knight) => knight.spec_valid_captures(board),
            ChessPiece::Rook(rook) => rook.spec_valid_captures(board),
            ChessPiece::Queen(queen) => queen.spec_valid_captures(board),
            ChessPiece::King(king) => king.spec_valid_captures(board),
        }
    }

    fn get_player(&self) -> (player: &Player)
        ensures
            *player == self.spec_owner(),
    {
        match self {
            ChessPiece::Pawn(pawn) => pawn.get_player(),
            ChessPiece::Bishop(bishop) => bishop.get_player(),
            ChessPiece::Knight(knight) => knight.get_player(),
            ChessPiece::Rook(rook) => rook.get_player(),
            ChessPiece::Queen(queen) => queen.get_player(),
            ChessPiece::King(king) => king.get_player(),
        }
    }

    fn valid_moves(&self, board: &ChessBoard) -> (moves: Vec<BoardPosition>)
        ensures
            moves.deep_view() == self.spec_valid_moves(*board),
    {
        match self {
            ChessPiece::Pawn(pawn) => pawn.valid_moves(board),
            ChessPiece::Bishop(bishop) => bishop.valid_moves(board),
            ChessPiece::Knight(knight) => knight.valid_moves(board),
            ChessPiece::Rook(rook) => rook.valid_moves(board),
            ChessPiece::Queen(queen) => queen.valid_moves(board),
            ChessPiece::King(king) => king.valid_moves(board),
        }
    }

    fn valid_captures(&self, board: &ChessBoard) -> (captures: Vec<BoardPosition>)
        ensures
            captures.deep_view() == self.spec_valid_captures(*board),
    {
        match self {
            ChessPiece::Pawn(pawn) => pawn.valid_captures(board),
            ChessPiece::Bishop(bishop) => bishop.valid_captures(board),
            ChessPiece::Knight(knight) => knight.valid_captures(board),
            ChessPiece::Rook(rook) => rook.valid_captures(board),
            ChessPiece::Queen(queen) => queen.valid_captures(board),
            ChessPiece::King(king) => king.valid_captures(board),
        }
    }

    fn display_glyph(&self) -> (glyph: &'static str)
        ensures
            glyph@ == glyph_of(self.spec_owner(), self.spec_letter()),
    {
        match self {
            ChessPiece::Pawn(pawn) => pawn.display_glyph(),
            ChessPiece::Bishop(bishop) => bishop.display_glyph(),
            ChessPiece::Knight(knight) => knight.display_glyph(),
            ChessPiece::Rook(rook) => rook.display_glyph(),
            ChessPiece::Queen(queen) => queen.display_glyph(),
            ChessPiece::King(king) => king.display_glyph(),
        }
    }

    fn get_piece_name(&self) -> (name: &str)
        ensures
            name@ == self.spec_piece_name(),
    {
        match self {
            ChessPiece::Pawn(pawn) => pawn.get_piece_name(),
            ChessPiece::Bishop(bishop) => bishop.get_piece_name(),
            ChessPiece::Knight(knight) => knight.get_piece_name(),
            ChessPiece::Rook(rook) => rook.get_piece_name(),
            ChessPiece::Queen(queen) => queen.get_piece_name(),
            ChessPiece::King(king) => king.get_piece_name(),
        }
    }

    fn get_board_position(&self) -> (position: &BoardPosition)
        ensures
            *position == self.spec_position(),
    {
        match self {
            ChessPiece::Pawn(pawn) => pawn.get_board_position(),
            ChessPiece::Bishop(bishop) => bishop.get_board_position(),
            ChessPiece::Knight(knight) => knight.get_board_position(),
            ChessPiece::Rook(rook) => rook.get_board_position(),
            ChessPiece::Queen(queen) => queen.get_board_position(),
            ChessPiece::King(king) => king.get_board_position(),
        }
    }
}

/// Whatever the kind of the piece, every quiet move leads to an empty square
/// of the board, and every capture to a square that holds a piece of the
/// other player: no move lands on an occupied square, and no capture on an
/// empty square or on a piece of the mover's own.
pub proof fn lemma_moves_are_empty_and_captures_opposing(piece: ChessPiece, board: ChessBoard)
    ensures
        forall|i: int|
            0 <= i < piece.spec_valid_moves(board).len() ==> is_vacant(
                board,
                #[trigger] piece.spec_valid_moves(board)[i],
            ),
        forall|i: int|
            0 <= i < piece.spec_valid_captures(board).len() ==> holds_opponent_of(
                board,
                #[trigger] piece.spec_valid_captures(board)[i],
                piece.spec_owner(),
            ),
{
    let origin = piece.spec_position()@;
    let player = piece.spec_owner();
    assert forall|i: int| 0 <= i < piece.spec_valid_moves(board).len() implies is_vacant(
        board,
        #[trigger] piece.spec_valid_moves(board)[i],
    ) by {
        match piece {
            ChessPiece::Pawn(_) => {},
            ChessPiece::Bishop(_) => {
                lemma_sliding_moves_unobstructed(board, origin, bishop_directions(), i);
            },
            ChessPiece::Rook(_) => {
                lemma_sliding_moves_unobstructed(board, origin, rook_directions(), i);
            },
            ChessPiece::Queen(_) => {
                lemma_sliding_moves_unobstructed(board, origin, queen_directions(), i);
            },
            ChessPiece::Knight(_) => {
                lemma_stepping_moves_are_vacant_targets(board, origin, knight_offsets(), i);
            },
            ChessPiece::King(_) => {
                lemma_stepping_moves_are_vacant_targets(board, origin, king_offsets(), i);
            },
        }
    }
    assert forall|i: int|
        0 <= i < piece.spec_valid_captures(board).len() implies holds_opponent_of(
        board,
        #[trigger] piece.spec_valid_captures(board)[i],
        player,
    ) by {
        match piece {
            ChessPiece::Pawn(_) => {},
            ChessPiece::Bishop(_) => {},
            ChessPiece::Rook(_) => {
                lemma_sliding_captures_first_occupied(board, origin, player, rook_directions(), i);
            },
            ChessPiece::Queen(_) => {
                lemma_sliding_captures_first_occupied(
                    board,
                    origin,
                    player,
                    queen_directions(),
                    i,
                );
            },
            ChessPiece::Knight(_) => {
                lemma_stepping_captures_are_opposing_targets(
                    board,
                    origin,
                    player,
                    knight_offsets(),
                    i,
                );
            },
            ChessPiece::King(_) => {
                lemma_stepping_captures_are_opposing_targets(
                    board,
                    origin,
                    player,
                    king_offsets(),
                    i,
                );
            },
        }
    }
}

/// Two lists of validated positions that denote the same squares in the same
/// order are the same list.
pub proof fn lemma_same_squares_same_positions(
    first: Vec<BoardPosition>,
    second: Vec<BoardPosition>,
)
    requires
        first.deep_view() == second.deep_view(),
    ensures
        first@ == second@,
{
    assert(second@.len() == second.deep_view().len());
    assert forall|i: int| 0 <= i < first@.len() implies first@[i] == second@[i] by {
        assert(second.deep_view()[i] == second@[i]@);
        BoardPosition::lemma_view_is_injective(first@[i], second@[i]);
    }
}

/// Generation is a function of the piece and the board alone: two results
/// for the same piece on the same board hold the same positions in the same
/// order.
pub proof fn lemma_generation_is_repeatable<P: ChessPieceTrait>(
    piece: P,
    board: ChessBoard,
    first: PieceMoveData,
    second: PieceMoveData,
)
    requires
        first.valid_moves.deep_view() == piece.spec_valid_moves(board),
        first.valid_captures.deep_view() == piece.spec_valid_captures(board),
        second.valid_moves.deep_view() == piece.spec_valid_moves(board),
        second.valid_captures.deep_view() == piece.spec_valid_captures(board),
    ensures
        first.valid_moves@ == second.valid_moves@,
        first.valid_captures@ == second.valid_captures@,
{
    lemma_same_squares_same_positions(first.valid_moves, second.valid_moves);
    lemma_same_squares_same_positions(first.valid_captures, second.valid_captures);
}

} // verus!

//! The position from which every game starts.

use vstd::prelude::*;

use crate::game::board::{
    initialize_empty_board, occupant, pieces_know_their_squares, ChessBoard,
};
use crate::game::board_position::{BoardPosition, CandidateBoardPosition, Square};
use crate::piece::bishop::Bishop;
use crate::piece::king::King;
use crate::piece::knight::Knight;
use crate::piece::pawn::Pawn;
use crate::piece::queen::Queen;
use crate::piece::rook::Rook;
use crate::piece::ChessPiece;
use crate::player::Player;

verus! {

/// Whether pieces stand on `row` at the start: the two rows nearest to each
/// player do.
pub open spec fn is_starting_row(row: int) -> bool {
    row == 0 || row == 1 || row == 6 || row == 7
}

/// The player whose pieces start on `row`: White on rows 0 and 1, Black on
/// rows 6 and 7.
pub open spec fn initial_owner(row: int) -> Player
    recommends
        is_starting_row(row),
{
    if row <= 1 {
        Player::White
    } else {
        Player::Black
    }
}

/// What stands on `square` at the start. Rows 1 and 6 hold pawns that have
/// not moved; rows 0 and 7 hold, from column 0 to column 7, rook, knight,
/// bishop, queen, king, bishop, knight, rook; the rows between are empty.
pub open spec fn initial_occupant(square: Square) -> Option<ChessPiece>
    recommends
        square.on_board(),
{
    let player = initial_owner(square.row);
    let position = BoardPosition::at(square);
    if square.row == 1 || square.row == 6 {
        Some(ChessPiece::Pawn(Pawn { player, position, has_been_moved: false }))
    } else if square.row == 0 || square.row == 7 {
        Some(
            if square.column == 0 || square.column == 7 {
                ChessPiece::Rook(Rook { player, position })
            } else if square.column == 1 || square.column == 6 {
                ChessPiece::Knight(Knight { player, position })
            } else if square.column == 2 || square.column == 5 {
                ChessPiece::Bishop(Bishop { player, position })
            } else if square.column == 3 {
                ChessPiece::Queen(Queen { player, position })
            } else {
                ChessPiece::King(King { player, position })
            },
        )
    } else {
        None
    }
}

/// The player whose pieces start on `row_index`.
pub fn get_player_by_initial_row(row_index: usize) -> (player: Player)
    requires
        is_starting_row(row_index as int),
    ensures
        player == initial_owner(row_index as int),
{
    match row_index {
        0 | 1 => Player::White,
        _ => Player::Black,
    }
}

/// The piece that starts on the given square.
pub fn get_piece_by_initial_position(row_index: usize, column_index: usize) -> (piece: ChessPiece)
    requires
        is_starting_row(row_index as int),
        column_index < 8,
    ensures
        Some(piece) == initial_occupant(
            Square { row: row_index as int, column: column_index as int },
        ),
{
    let player = get_player_by_initial_row(row_index);
    let board = initialize_empty_board();
    let position = CandidateBoardPosition {
        row_index: row_index as i32,
        column_index: column_index as i32,
    }.validate_candidate_position_and_unwrap(&board);
    proof {
        let square = Square { row: row_index as int, column: column_index as int };
        BoardPosition::lemma_at(square);
        BoardPosition::lemma_view_is_injective(position, BoardPosition::at(square));
    }
    match row_index {
        0 | 7 => match column_index {
            0 | 7 => ChessPiece::Rook(Rook { player, position }),
            1 | 6 => ChessPiece::Knight(Knight { player, position }),
            2 | 5 => ChessPiece::Bishop(Bishop { player, position }),
            3 => ChessPiece::Queen(Queen { player, position }),
            _ => ChessPiece::King(King { player, position }),
        },
        _ => ChessPiece::Pawn(Pawn { player, position, has_been_moved: false }),
    }
}

/// The board at the start of a game.
pub fn initialize_chess_board() -> (board: ChessBoard)
    ensures
        forall|square: Square|
            #![trigger occupant(board, square)]
            #![trigger initial_occupant(square)]
            square.on_board() ==> occupant(board, square) == initial_occupant(square),
        pieces_know_their_squares(board),
{
    let mut board: ChessBoard = initialize_empty_board();
    let mut row_index: usize = 0;
    while row_index < 8
        invariant
            row_index <= 8,
            forall|square: Square|
                #![trigger square.on_board()]
                square.on_board() && square.row < row_index ==> occupant(board, square)
                    == initial_occupant(square),
            forall|square: Square|
                #![trigger square.on_board()]
                square.on_board() && square.row >= row_index ==> occupant(board, square) is None,
        decreases 8 - row_index,
    {
        let mut column_index: usize = 0;
        while column_index < 8
            invariant
                row_index < 8,
                column_index <= 8,
                forall|square: Square|
                    #![trigger square.on_board()]
                    square.on_board() && (square.row < row_index || (square.row == row_index
                        && square.column < column_index)) ==> occupant(board, square)
                        == initial_occupant(square),
                forall|square: Square|
                    #![trigger square.on_board()]
                    square.on_board() && (square.row > row_index || (square.row == row_index
                        && square.column >= column_index)) ==> occupant(board, square) is None,
            decreases 8 - column_index,
        {
            if row_index >= 2 && row_index <= 5 {
                // The four rows in the middle start empty.
            } else {
                let piece: ChessPiece = get_piece_by_initial_position(row_index, column_index);
                board[row_index][column_index] = Some(piece);
            }
            column_index += 1;
        }
        row_index += 1;
    }
    assert forall|square: Square| square.on_board() implies (#[trigger] occupant(
        board,
        square,
    ) matches Some(piece) ==> piece.spec_position()@ == square) by {
        BoardPosition::lemma_at(square);
    }
    board
}

} // verus!

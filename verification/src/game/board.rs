//! The 8x8 grid and what stands on it.

use vstd::prelude::*;

use crate::game::board_position::{BoardPosition, CandidateBoardPosition, Square};
use crate::piece::ChessPiece;
use crate::player::Player;

verus! {

/// One row of the board: eight cells, each empty or holding one piece.
pub type ChessRow = [Option<ChessPiece>; 8];

/// The board: eight rows. Row 0 is White's home rank.
pub type ChessBoard = [ChessRow; 8];

/// What stands on `square`.
pub open spec fn occupant(board: ChessBoard, square: Square) -> Option<ChessPiece>
    recommends
        square.on_board(),
{
    board[square.row][square.column]
}

/// `square` lies on the board and is empty.
pub open spec fn is_vacant(board: ChessBoard, square: Square) -> bool {
    square.on_board() && occupant(board, square) is None
}

/// `square` lies on the board and holds a piece that does not belong to
/// `player`.
pub open spec fn holds_opponent_of(board: ChessBoard, square: Square, player: Player) -> bool {
    &&& square.on_board()
    &&& occupant(board, square) matches Some(piece)
    &&& piece.spec_owner() != player
}

/// Every piece on the board stands on the square that it holds as its own
/// position.
pub open spec fn pieces_know_their_squares(board: ChessBoard) -> bool {
    forall|square: Square|
        square.on_board() ==> (#[trigger] occupant(board, square) matches Some(piece)
            ==> piece.spec_position()@ == square)
}

/// The board together with what can be read off it for each player.
///
/// The lists of a player's pieces are computed from the grid whenever they
/// are asked for, so they cannot disagree with it.
pub struct ChessBoardData {
    pub board: ChessBoard,
}

/// `square` lies on the board and holds a piece of `player`.
pub open spec fn holds_piece_of(board: ChessBoard, square: Square, player: Player) -> bool {
    &&& square.on_board()
    &&& occupant(board, square) matches Some(piece)
    &&& piece.spec_owner() == player
}

/// The square of the cell with the given number, where the cells are counted
/// row by row, from column 0 up within each row.
pub open spec fn cell_square(cell: int) -> Square {
    Square { row: cell / 8, column: cell % 8 }
}

/// The 64 squares of the board in the order of their cells.
pub open spec fn board_squares() -> Seq<Square> {
    Seq::new(64, |cell: int| cell_square(cell))
}

/// Those of `squares` on which `player` has a piece, each with that piece, in
/// the order of `squares`.
pub open spec fn pieces_on(board: ChessBoard, player: Player, squares: Seq<Square>) -> Seq<
    (Square, ChessPiece),
> {
    squares.filter(|square: Square| holds_piece_of(board, square, player)).map_values(
        |square: Square| (square, occupant(board, square)->0),
    )
}

/// The pieces of `player` on `board`, each with the square it stands on, row
/// by row.
pub open spec fn pieces_of(board: ChessBoard, player: Player) -> Seq<(Square, ChessPiece)> {
    pieces_on(board, player, board_squares())
}

/// The squares and pieces that a list of entries denotes.
pub open spec fn entries_view(entries: Seq<(BoardPosition, ChessPiece)>) -> Seq<
    (Square, ChessPiece),
> {
    entries.map_values(|entry: (BoardPosition, ChessPiece)| (entry.0@, entry.1))
}

/// One more square adds its piece to the list if `player` has one there, and
/// changes nothing otherwise.
pub proof fn lemma_pieces_on_push(
    board: ChessBoard,
    player: Player,
    squares: Seq<Square>,
    square: Square,
)
    ensures
        pieces_on(board, player, squares.push(square)) == if holds_piece_of(
            board,
            square,
            player,
        ) {
            pieces_on(board, player, squares).push((square, occupant(board, square)->0))
        } else {
            pieces_on(board, player, squares)
        },
{
    reveal(Seq::filter);
    assert(squares.push(square).drop_last() =~= squares);
}

/// The lists agree with the grid: an entry is listed for `player` exactly if
/// the grid holds that piece of `player` on that square.
pub proof fn lemma_pieces_agree_with_grid(
    board: ChessBoard,
    player: Player,
    square: Square,
    piece: ChessPiece,
)
    ensures
        pieces_of(board, player).contains((square, piece)) <==> {
            &&& square.on_board()
            &&& occupant(board, square) == Some(piece)
            &&& piece.spec_owner() == player
        },
{
    let held = |square: Square| holds_piece_of(board, square, player);
    let found = board_squares().filter(held);
    if pieces_of(board, player).contains((square, piece)) {
        let i = choose|i: int|
            0 <= i < pieces_of(board, player).len() && pieces_of(board, player)[i] == (
                square,
                piece,
            );
        board_squares().lemma_filter_pred(held, i);
    }
    if square.on_board() && occupant(board, square) == Some(piece) && piece.spec_owner()
        == player {
        let cell = square.row * 8 + square.column;
        board_squares().lemma_filter_contains(held, cell);
        let i = choose|i: int| 0 <= i < found.len() && found[i] == square;
        assert(pieces_of(board, player)[i] == (square, piece));
    }
}

impl ChessBoardData {
    /// The pieces and the grid agree on where each piece stands.
    pub open spec fn is_consistent(&self) -> bool {
        pieces_know_their_squares(self.board)
    }

    /// The pieces of `player`, each with the position it stands on, row by
    /// row.
    pub fn pieces_of(&self, player: Player) -> (entries: Vec<(BoardPosition, ChessPiece)>)
        ensures
            entries_view(entries@) == pieces_of(self.board, player),
    {
        let mut entries: Vec<(BoardPosition, ChessPiece)> = Vec::new();
        let mut row_index: usize = 0;
        while row_index < 8
            invariant
                row_index <= 8,
                entries_view(entries@) == pieces_on(
                    self.board,
                    player,
                    board_squares().take(row_index * 8),
                ),
            decreases 8 - row_index,
        {
            let mut column_index: usize = 0;
            while column_index < 8
                invariant
                    row_index < 8,
                    column_index <= 8,
                    entries_view(entries@) == pieces_on(
                        self.board,
                        player,
                        board_squares().take(row_index * 8 + column_index),
                    ),
                decreases 8 - column_index,
            {
                proof {
                    let cell = row_index * 8 + column_index;
                    assert(board_squares().take(cell + 1) =~= board_squares().take(cell).push(
                        cell_square(cell),
                    ));
                    lemma_pieces_on_push(
                        self.board,
                        player,
                        board_squares().take(cell),
                        cell_square(cell),
                    );
                }
                let position = CandidateBoardPosition {
                    row_index: row_index as i32,
                    column_index: column_index as i32,
                }.validate_candidate_position_and_unwrap(&self.board);
                match occupant_at(&self.board, &position) {
                    Some(piece) => {
                        if piece.owner() == player {
                            entries.push((position, *piece));
                        }
                    },
                    None => {},
                }
                column_index += 1;
            }
            row_index += 1;
        }
        assert(board_squares().take(64) =~= board_squares());
        entries
    }

    /// The pieces of White, each with the position it stands on.
    pub fn white_pieces(&self) -> (entries: Vec<(BoardPosition, ChessPiece)>)
        ensures
            entries_view(entries@) == pieces_of(self.board, Player::White),
    {
        self.pieces_of(Player::White)
    }

    /// The pieces of Black, each with the position it stands on.
    pub fn black_pieces(&self) -> (entries: Vec<(BoardPosition, ChessPiece)>)
        ensures
            entries_view(entries@) == pieces_of(self.board, Player::Black),
    {
        self.pieces_of(Player::Black)
    }
}

/// A board with all 64 cells empty.
pub fn initialize_empty_board() -> (board: ChessBoard)
    ensures
        forall|square: Square| square.on_board() ==> #[trigger] occupant(board, square) is None,
{
    let board: ChessBoard = [[None;8];8];
    board
}

/// The piece on a validated position, if any.
pub fn occupant_at<'a>(board: &'a ChessBoard, position: &BoardPosition) -> (piece: Option<
    &'a ChessPiece,
>)
    ensures
        position@.on_board(),
        piece is Some <==> occupant(*board, position@) is Some,
        piece matches Some(found) ==> occupant(*board, position@) == Some(*found),
{
    board[position.get_row_index()][position.get_column_index()].as_ref()
}

} // verus!

use chess_rules::game::board::{initialize_empty_board, ChessBoard};
use chess_rules::game::board_position::{BoardPosition, CandidateBoardPosition};
use chess_rules::piece::bishop::Bishop;
use chess_rules::piece::pawn::Pawn;
use chess_rules::piece::{ChessPiece, ChessPieceTrait, PieceMoveData};
use chess_rules::player::Player;

/// The validated position on the given row and column.
fn position(board: &ChessBoard, row_index: i32, column_index: i32) -> BoardPosition {
    CandidateBoardPosition {
        row_index,
        column_index,
    }
    .validate_candidate_position_and_unwrap(board)
}

/// Places a Black pawn on each of the given squares.
fn place_black_pawns(board: &mut ChessBoard, squares: &[(usize, usize)]) {
    for (row_index, column_index) in squares.iter() {
        let position: BoardPosition = position(board, *row_index as i32, *column_index as i32);
        board[*row_index][*column_index] = Some(ChessPiece::Pawn(Pawn {
            player: Player::Black,
            position,
            has_been_moved: false,
        }));
    }
}

/// A Black bishop on d4 (row 3, column 3).
fn central_bishop(board: &ChessBoard) -> ChessPiece {
    ChessPiece::Bishop(Bishop {
        player: Player::Black,
        position: position(board, 3, 3),
    })
}

/// The validated positions on the given squares, in order.
fn positions(board: &ChessBoard, squares: &[(i32, i32)]) -> Vec<BoardPosition> {
    squares
        .iter()
        .map(|(row_index, column_index)| position(board, *row_index, *column_index))
        .collect()
}

const UPWARD_LEFT: [(i32, i32); 3] = [(4, 2), (5, 1), (6, 0)];
const UPWARD_RIGHT: [(i32, i32); 4] = [(4, 4), (5, 5), (6, 6), (7, 7)];
const DOWNWARD_LEFT: [(i32, i32); 3] = [(2, 2), (1, 1), (0, 0)];
const DOWNWARD_RIGHT: [(i32, i32); 3] = [(2, 4), (1, 5), (0, 6)];

/// Checks the moves of the central bishop when the diagonals named in
/// `blocked` are closed by a Black pawn next to the bishop.
fn check_central_bishop(blocked: &[(usize, usize)], expected: &[&[(i32, i32)]]) {
    let mut board: ChessBoard = initialize_empty_board();
    place_black_pawns(&mut board, blocked);
    let bishop: ChessPiece = central_bishop(&board);
    let expected_squares: Vec<(i32, i32)> = expected.concat();
    assert_eq!(
        bishop.valid_moves_and_captures(&board),
        PieceMoveData {
            valid_moves: positions(&board, &expected_squares),
            valid_captures: vec![],
        }
    );
}

#[test]
fn bishop_test_get_black_player() {
    let board: ChessBoard = initialize_empty_board();
    let bishop = Bishop {
        player: Player::Black,
        position: CandidateBoardPosition {
            row_index: 1,
            column_index: 0,
        }
        .validate_candidate_position_and_unwrap(&board),
    };
    assert_eq!(bishop.get_player(), &Player::Black);
}

#[test]
fn bishop_test_get_white_player() {
    let board: ChessBoard = initialize_empty_board();
    let pawn = Bishop {
        player: Player::White,
        position: CandidateBoardPosition {
            row_index: 1,
            column_index: 0,
        }
        .validate_candidate_position_and_unwrap(&board),
    };
    assert_eq!(pawn.get_player(), &Player::White);
}

#[test]
fn test_upward_left_diagonal_moves_are_blocked() {
    let mut board: ChessBoard = initialize_empty_board();
    board[1][6] = Some(ChessPiece::Pawn(Pawn {
        player: Player::Black,
        position: CandidateBoardPosition {
            row_index: 1,
            column_index: 6,
        }
        .validate_candidate_position_and_unwrap(&board),
        has_been_moved: false,
    }));
    let bishop: ChessPiece = ChessPiece::Bishop(Bishop {
        player: Player::Black,
        position: CandidateBoardPosition {
            row_index: 0,
            column_index: 7,
        }
        .validate_candidate_position_and_unwrap(&board),
    });
    assert_eq!(
        bishop.valid_moves_and_captures(&board),
        PieceMoveData {
            valid_moves: vec![],
            valid_captures: vec![],
        }
    );
}

#[test]
fn test_upward_left_diagonal_move_is_available() {
    let mut board: ChessBoard = initialize_empty_board();
    board[2][5] = Some(ChessPiece::Pawn(Pawn {
        player: Player::Black,
        position: CandidateBoardPosition {
            row_index: 2,
            column_index: 5,
        }
        .validate_candidate_position_and_unwrap(&board),
        has_been_moved: false,
    }));
    let bishop: ChessPiece = ChessPiece::Bishop(Bishop {
        player: Player::Black,
        position: CandidateBoardPosition {
            row_index: 0,
            column_index: 7,
        }
        .validate_candidate_position_and_unwrap(&board),
    });
    assert_eq!(
        bishop.valid_moves_and_captures(&board),
        PieceMoveData {
            valid_moves: vec![CandidateBoardPosition {
                row_index: 1,
                column_index: 6,
            }
            .validate_candidate_position_and_unwrap(&board)],
            valid_captures: vec![],
        }
    );
}

#[test]
fn test_upward_left_diagonal_moves_are_available() {
    let mut board: ChessBoard = initialize_empty_board();
    board[3][4] = Some(ChessPiece::Pawn(Pawn {
        player: Player::Black,
        position: CandidateBoardPosition {
            row_index: 3,
            column_index: 4,
        }
        .validate_candidate_position_and_unwrap(&board),
        has_been_moved: false,
    }));
    let bishop: ChessPiece = ChessPiece::Bishop(Bishop {
        player: Player::Black,
        position: CandidateBoardPosition {
            row_index: 0,
            column_index: 7,
        }
        .validate_candidate_position_and_unwrap(&board),
    });
    assert_eq!(
        bishop.valid_moves_and_captures(&board),
        PieceMoveData {
            valid_moves: vec![
                CandidateBoardPosition {
                    row_index: 1,
                    column_index: 6,
                }
                .validate_candidate_position_and_unwrap(&board),
                CandidateBoardPosition {
                    row_index: 2,
                    column_index: 5,
                }
                .validate_candidate_position_and_unwrap(&board)
            ],
            valid_captures: vec![],
        }
    );
}

#[test]
fn test_upward_left_diagonal_invalid_move_is_ignored() {
    let mut board: ChessBoard = initialize_empty_board();
    board[6][1] = Some(ChessPiece::Pawn(Pawn {
        player: Player::Black,
        position: CandidateBoardPosition {
            row_index: 6,
            column_index: 1,
        }
        .validate_candidate_position_and_unwrap(&board),
        has_been_moved: false,
    }));
    let bishop: ChessPiece = ChessPiece::Bishop(Bishop {
        player: Player::Black,
        position: CandidateBoardPosition {
            row_index: 7,
            column_index: 0,
        }
        .validate_candidate_position_and_unwrap(&board),
    });
    assert_eq!(
        bishop.valid_moves_and_captures(&board),
        PieceMoveData {
            valid_moves: vec![],
            valid_captures: vec![],
        }
    );
}

#[test]
fn test_upward_right_diagonal_moves_are_blocked() {
    let mut board: ChessBoard = initialize_empty_board();
    board[1][1] = Some(ChessPiece::Pawn(Pawn {
        player: Player::Black,
        position: CandidateBoardPosition {
            row_index: 1,
            column_index: 1,
        }
        .validate_candidate_position_and_unwrap(&board),
        has_been_moved: false,
    }));
    let bishop: ChessPiece = ChessPiece::Bishop(Bishop {
        player: Player::Black,
        position: CandidateBoardPosition {
            row_index: 0,
            column_index: 0,
        }
        .validate_candidate_position_and_unwrap(&board),
    });
    assert_eq!(
        bishop.valid_moves_and_captures(&board),
        PieceMoveData {
            valid_moves: vec![],
            valid_captures: vec![],
        }
    );
}

#[test]
fn test_upward_right_diagonal_move_is_available() {
    let mut board: ChessBoard = initialize_empty_board();
    board[2][2] = Some(ChessPiece::Pawn(Pawn {
        player: Player::Black,
        position: CandidateBoardPosition {
            row_index: 2,
            column_index: 2,
        }
        .validate_candidate_position_and_unwrap(&board),
        has_been_moved: false,
    }));
    let bishop: ChessPiece = ChessPiece::Bishop(Bishop {
        player: Player::Black,
        position: CandidateBoardPosition {
            row_index: 0,
            column_index: 0,
        }
        .validate_candidate_position_and_unwrap(&board),
    });
    assert_eq!(
        bishop.valid_moves_and_captures(&board),
        PieceMoveData {
            valid_moves: vec![CandidateBoardPosition {
                row_index: 1,
                column_index: 1,
            }
            .validate_candidate_position_and_unwrap(&board)],
            valid_captures: vec![],
        }
    );
}

#[test]
fn test_upward_right_diagonal_moves_are_available() {
    let mut board: ChessBoard = initialize_empty_board();
    board[3][3] = Some(ChessPiece::Pawn(Pawn {
        player: Player::Black,
        position: CandidateBoardPosition {
            row_index: 3,
            column_index: 3,
        }
        .validate_candidate_position_and_unwrap(&board),
        has_been_moved: false,
    }));
    let bishop: ChessPiece = ChessPiece::Bishop(Bishop {
        player: Player::Black,
        position: CandidateBoardPosition {
            row_index: 0,
            column_index: 0,
        }
        .validate_candidate_position_and_unwrap(&board),
    });
    assert_eq!(
        bishop.valid_moves_and_captures(&board),
        PieceMoveData {
            valid_moves: vec![
                CandidateBoardPosition {
                    row_index: 1,
                    column_index: 1,
                }
                .validate_candidate_position_and_unwrap(&board),
                CandidateBoardPosition {
                    row_index: 2,
                    column_index: 2,
                }
                .validate_candidate_position_and_unwrap(&board)
            ],
            valid_captures: vec![],
        }
    );
}

#[test]
fn test_upward_right_diagonal_invalid_move_is_ignored() {
    let mut board: ChessBoard = initialize_empty_board();
    board[6][6] = Some(ChessPiece::Pawn(Pawn {
        player: Player::Black,
        position: CandidateBoardPosition {
            row_index: 6,
            column_index: 6,
        }
        .validate_candidate_position_and_unwrap(&board),
        has_been_moved: false,
    }));
    let bishop: ChessPiece = ChessPiece::Bishop(Bishop {
        player: Player::Black,
        position: CandidateBoardPosition {
            row_index: 7,
            column_index: 7,
        }
        .validate_candidate_position_and_unwrap(&board),
    });
    assert_eq!(
        bishop.valid_moves_and_captures(&board),
        PieceMoveData {
            valid_moves: vec![],
            valid_captures: vec![],
        }
    );
}

#[test]
fn test_downward_left_diagonal_moves_are_blocked() {
    let mut board: ChessBoard = initialize_empty_board();
    board[6][6] = Some(ChessPiece::Pawn(Pawn {
        player: Player::Black,
        position: CandidateBoardPosition {
            row_index: 6,
            column_index: 6,
        }
        .validate_candidate_position_and_unwrap(&board),
        has_been_moved: false,
    }));
    let bishop: ChessPiece = ChessPiece::Bishop(Bishop {
        player: Player::Black,
        position: CandidateBoardPosition {
            row_index: 7,
            column_index: 7,
        }
        .validate_candidate_position_and_unwrap(&board),
    });
    assert_eq!(
        bishop.valid_moves_and_captures(&board),
        PieceMoveData {
            valid_moves: vec![],
            valid_captures: vec![],
        }
    );
}

#[test]
fn test_downward_left_diagonal_move_is_available() {
    let mut board: ChessBoard = initialize_empty_board();
    board[5][5] = Some(ChessPiece::Pawn(Pawn {
        player: Player::Black,
        position: CandidateBoardPosition {
            row_index: 5,
            column_index: 5,
        }
        .validate_candidate_position_and_unwrap(&board),
        has_been_moved: false,
    }));
    let bishop: ChessPiece = ChessPiece::Bishop(Bishop {
        player: Player::Black,
        position: CandidateBoardPosition {
            row_index: 7,
            column_index: 7,
        }
        .validate_candidate_position_and_unwrap(&board),
    });
    assert_eq!(
        bishop.valid_moves_and_captures(&board),
        PieceMoveData {
            valid_moves: vec![CandidateBoardPosition {
                row_index: 6,
                column_index: 6,
            }
            .validate_candidate_position_and_unwrap(&board)],
            valid_captures: vec![],
        }
    );
}

#[test]
fn test_downward_left_diagonal_moves_are_available() {
    let mut board: ChessBoard = initialize_empty_board();
    board[4][4] = Some(ChessPiece::Pawn(Pawn {
        player: Player::Black,
        position: CandidateBoardPosition {
            row_index: 4,
            column_index: 4,
        }
        .validate_candidate_position_and_unwrap(&board),
        has_been_moved: false,
    }));
    let bishop: ChessPiece = ChessPiece::Bishop(Bishop {
        player: Player::Black,
        position: CandidateBoardPosition {
            row_index: 7,
            column_index: 7,
        }
        .validate_candidate_position_and_unwrap(&board),
    });
    assert_eq!(
        bishop.valid_moves_and_captures(&board),
        PieceMoveData {
            valid_moves: vec![
                CandidateBoardPosition {
                    row_index: 6,
                    column_index: 6,
                }
                .validate_candidate_position_and_unwrap(&board),
                CandidateBoardPosition {
                    row_index: 5,
                    column_index: 5,
                }
                .validate_candidate_position_and_unwrap(&board)
            ],
            valid_captures: vec![],
        }
    );
}

#[test]
fn test_downward_left_diagonal_invalid_move_is_ignored() {
    let mut board: ChessBoard = initialize_empty_board();
    board[1][1] = Some(ChessPiece::Pawn(Pawn {
        player: Player::Black,
        position: CandidateBoardPosition {
            row_index: 1,
            column_index: 1,
        }
        .validate_candidate_position_and_unwrap(&board),
        has_been_moved: false,
    }));
    let bishop: ChessPiece = ChessPiece::Bishop(Bishop {
        player: Player::Black,
        position: CandidateBoardPosition {
            row_index: 0,
            column_index: 0,
        }
        .validate_candidate_position_and_unwrap(&board),
    });
    assert_eq!(
        bishop.valid_moves_and_captures(&board),
        PieceMoveData {
            valid_moves: vec![],
            valid_captures: vec![],
        }
    );
}

#[test]
fn test_downward_right_diagonal_moves_are_blocked() {
    let mut board: ChessBoard = initialize_empty_board();
    board[6][1] = Some(ChessPiece::Pawn(Pawn {
        player: Player::Black,
        position: CandidateBoardPosition {
            row_index: 6,
            column_index: 1,
        }
        .validate_candidate_position_and_unwrap(&board),
        has_been_moved: false,
    }));
    let bishop: ChessPiece = ChessPiece::Bishop(Bishop {
        player: Player::Black,
        position: CandidateBoardPosition {
            row_index: 7,
            column_index: 0,
        }
        .validate_candidate_position_and_unwrap(&board),
    });
    assert_eq!(
        bishop.valid_moves_and_captures(&board),
        PieceMoveData {
            valid_moves: vec![],
            valid_captures: vec![],
        }
    );
}

#[test]
fn test_downward_right_diagonal_move_is_available() {
    let mut board: ChessBoard = initialize_empty_board();
    board[5][2] = Some(ChessPiece::Pawn(Pawn {
        player: Player::Black,
        position: CandidateBoardPosition {
            row_index: 5,
            column_index: 2,
        }
        .validate_candidate_position_and_unwrap(&board),
        has_been_moved: false,
    }));
    let bishop: ChessPiece = ChessPiece::Bishop(Bishop {
        player: Player::Black,
        position: CandidateBoardPosition {
            row_index: 7,
            column_index: 0,
        }
        .validate_candidate_position_and_unwrap(&board),
    });
    assert_eq!(
        bishop.valid_moves_and_captures(&board),
        PieceMoveData {
            valid_moves: vec![CandidateBoardPosition {
                row_index: 6,
                column_index: 1,
            }
            .validate_candidate_position_and_unwrap(&board)],
            valid_captures: vec![],
        }
    );
}

#[test]
fn test_downward_right_diagonal_moves_are_available() {
    let mut board: ChessBoard = initialize_empty_board();
    board[4][3] = Some(ChessPiece::Pawn(Pawn {
        player: Player::Black,
        position: CandidateBoardPosition {
            row_index: 4,
            column_index: 3,
        }
        .validate_candidate_position_and_unwrap(&board),
        has_been_moved: false,
    }));
    let bishop: ChessPiece = ChessPiece::Bishop(Bishop {
        player: Player::Black,
        position: CandidateBoardPosition {
            row_index: 7,
            column_index: 0,
        }
        .validate_candidate_position_and_unwrap(&board),
    });
    assert_eq!(
        bishop.valid_moves_and_captures(&board),
        PieceMoveData {
            valid_moves: vec![
                CandidateBoardPosition {
                    row_index: 6,
                    column_index: 1,
                }
                .validate_candidate_position_and_unwrap(&board),
                CandidateBoardPosition {
                    row_index: 5,
                    column_index: 2,
                }
                .validate_candidate_position_and_unwrap(&board)
            ],
            valid_captures: vec![],
        }
    );
}

#[test]
fn test_downward_right_diagonal_invalid_move_is_ignored() {
    let mut board: ChessBoard = initialize_empty_board();
    board[1][6] = Some(ChessPiece::Pawn(Pawn {
        player: Player::Black,
        position: CandidateBoardPosition {
            row_index: 1,
            column_index: 6,
        }
        .validate_candidate_position_and_unwrap(&board),
        has_been_moved: false,
    }));
    let bishop: ChessPiece = ChessPiece::Bishop(Bishop {
        player: Player::Black,
        position: CandidateBoardPosition {
            row_index: 0,
            column_index: 7,
        }
        .validate_candidate_position_and_unwrap(&board),
    });
    assert_eq!(
        bishop.valid_moves_and_captures(&board),
        PieceMoveData {
            valid_moves: vec![],
            valid_captures: vec![],
        }
    );
}

#[test]
fn test_upward_left_and_upward_right_moves_are_available() {
    check_central_bishop(&[(2, 2), (2, 4)], &[&UPWARD_LEFT, &UPWARD_RIGHT]);
}

#[test]
fn test_upward_left_and_downward_left_moves_are_available() {
    check_central_bishop(&[(4, 4), (2, 4)], &[&UPWARD_LEFT, &DOWNWARD_LEFT]);
}

#[test]
fn test_upward_left_and_downward_right_moves_are_available() {
    check_central_bishop(&[(4, 4), (2, 2)], &[&UPWARD_LEFT, &DOWNWARD_RIGHT]);
}

#[test]
fn test_upward_right_and_downward_left_moves_are_available() {
    check_central_bishop(&[(4, 2), (2, 4)], &[&UPWARD_RIGHT, &DOWNWARD_LEFT]);
}

#[test]
fn test_upward_right_and_downward_right_moves_are_available() {
    check_central_bishop(&[(4, 2), (2, 2)], &[&UPWARD_RIGHT, &DOWNWARD_RIGHT]);
}

#[test]
fn test_downward_left_and_downward_right_moves_are_available() {
    check_central_bishop(&[(4, 2), (4, 4)], &[&DOWNWARD_LEFT, &DOWNWARD_RIGHT]);
}

#[test]
fn test_upward_left_and_upward_right_and_downward_left_moves_are_available() {
    check_central_bishop(&[(2, 4)], &[&UPWARD_LEFT, &UPWARD_RIGHT, &DOWNWARD_LEFT]);
}

#[test]
fn test_upward_left_and_upward_right_and_downward_right_moves_are_available() {
    check_central_bishop(&[(2, 2)], &[&UPWARD_LEFT, &UPWARD_RIGHT, &DOWNWARD_RIGHT]);
}

#[test]
fn test_upward_left_and_downward_left_and_downward_right_moves_are_available() {
    check_central_bishop(&[(4, 4)], &[&UPWARD_LEFT, &DOWNWARD_LEFT, &DOWNWARD_RIGHT]);
}

#[test]
fn test_upward_right_and_downward_left_and_downward_right_moves_are_available() {
    check_central_bishop(&[(4, 2)], &[&UPWARD_RIGHT, &DOWNWARD_LEFT, &DOWNWARD_RIGHT]);
}

#[test]
fn test_all_direction_moves_are_available() {
    check_central_bishop(
        &[],
        &[&UPWARD_LEFT, &UPWARD_RIGHT, &DOWNWARD_LEFT, &DOWNWARD_RIGHT],
    );
}

#[test]
fn test_all_direction_no_moves_are_available() {
    check_central_bishop(&[(4, 2), (4, 4), (2, 2), (2, 4)], &[]);
}

#[test]
fn test_bishop_alone_in_the_corner_slides_along_the_whole_diagonal() {
    let board: ChessBoard = initialize_empty_board();
    let bishop: ChessPiece = ChessPiece::Bishop(Bishop {
        player: Player::Black,
        position: position(&board, 0, 7),
    });
    let data: PieceMoveData = bishop.valid_moves_and_captures(&board);
    assert_eq!(data.valid_moves.len(), 7);
    assert_eq!(
        data.valid_moves,
        positions(
            &board,
            &[(1, 6), (2, 5), (3, 4), (4, 3), (5, 2), (6, 1), (7, 0)]
        )
    );
    assert_eq!(data.valid_captures, vec![]);
}

#[test]
fn test_bishop_is_blocked_at_once_by_its_own_pawn() {
    let mut board: ChessBoard = initialize_empty_board();
    place_black_pawns(&mut board, &[(1, 6)]);
    let bishop: ChessPiece = ChessPiece::Bishop(Bishop {
        player: Player::Black,
        position: position(&board, 0, 7),
    });
    assert_eq!(
        bishop.valid_moves_and_captures(&board),
        PieceMoveData {
            valid_moves: vec![],
            valid_captures: vec![],
        }
    );
}

#[test]
fn test_bishop_stops_in_front_of_an_opposing_piece_and_lists_no_capture() {
    let mut board: ChessBoard = initialize_empty_board();
    board[5][5] = Some(ChessPiece::Pawn(Pawn {
        player: Player::White,
        position: position(&board, 5, 5),
        has_been_moved: true,
    }));
    place_black_pawns(&mut board, &[(4, 2), (2, 2), (2, 4)]);
    let bishop: ChessPiece = central_bishop(&board);
    assert_eq!(
        bishop.valid_moves_and_captures(&board),
        PieceMoveData {
            valid_moves: positions(&board, &[(4, 4)]),
            valid_captures: vec![],
        }
    );
}

#[test]
fn test_bishop_generation_twice_gives_the_same_lists() {
    let mut board: ChessBoard = initialize_empty_board();
    place_black_pawns(&mut board, &[(5, 5), (1, 1)]);
    let bishop: ChessPiece = central_bishop(&board);
    let first: PieceMoveData = bishop.valid_moves_and_captures(&board);
    let second: PieceMoveData = bishop.valid_moves_and_captures(&board);
    assert_eq!(first, second);
    assert_eq!(
        first.valid_moves,
        positions(
            &board,
            &[(4, 2), (5, 1), (6, 0), (4, 4), (2, 2), (2, 4), (1, 5), (0, 6)]
        )
    );
}

#[test]
fn test_bishop_name_glyph_and_position() {
    let board: ChessBoard = initialize_empty_board();
    let black: Bishop = Bishop {
        player: Player::Black,
        position: position(&board, 7, 2),
    };
    let white: Bishop = Bishop {
        player: Player::White,
        position: position(&board, 0, 5),
    };
    assert_eq!(black.get_piece_name(), "Bishop");
    assert_eq!(black.display_glyph(), "(B)");
    assert_eq!(white.display_glyph(), "[B]");
    assert_eq!(black.get_position_str(), "Bishop (c8)");
    assert_eq!(white.get_position_str(), "Bishop (f1)");
    assert_eq!(white.get_board_position(), &position(&board, 0, 5));
}

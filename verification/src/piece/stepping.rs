//! Fixed-offset stepping, shared by the knight and the king.
//!
//! A stepping piece looks at a fixed set of squares around its own, without
//! walking: each one that lies on the board and is empty is a quiet move, each
//! one that holds a piece of the other player is a capture.

use vstd::prelude::*;

use crate::game::board::{holds_opponent_of, is_vacant, ChessBoard};
use crate::game::board_position::{BoardPosition, CandidateBoardPosition, Square};
use crate::player::Player;

verus! {

/// The square that `offset`, a change of row and a change of column, leads to
/// from `origin`.
pub open spec fn step_target(origin: Square, offset: (i32, i32)) -> Square {
    origin.offset(offset.0 as int, offset.1 as int)
}

/// The squares that `offsets` lead to from `origin`, in order, on the board
/// or off it.
pub open spec fn step_targets(origin: Square, offsets: Seq<(i32, i32)>) -> Seq<Square> {
    offsets.map_values(|offset: (i32, i32)| step_target(origin, offset))
}

/// The quiet moves of a stepping piece on `origin`: the targets that are on
/// the board and empty, in the order of `offsets`.
pub open spec fn stepping_moves(
    board: ChessBoard,
    origin: Square,
    offsets: Seq<(i32, i32)>,
) -> Seq<Square> {
    step_targets(origin, offsets).filter(|target: Square| is_vacant(board, target))
}

/// The captures of a stepping piece of `player` on `origin`: the targets that
/// hold a piece of the other player, in the order of `offsets`.
pub open spec fn stepping_captures(
    board: ChessBoard,
    origin: Square,
    player: Player,
    offsets: Seq<(i32, i32)>,
) -> Seq<Square> {
    step_targets(origin, offsets).filter(|target: Square| holds_opponent_of(board, target, player))
}

/// One more offset adds its target to the quiet moves if the target is empty,
/// and changes nothing otherwise.
pub proof fn lemma_stepping_moves_push(
    board: ChessBoard,
    origin: Square,
    offsets: Seq<(i32, i32)>,
    offset: (i32, i32),
)
    ensures
        stepping_moves(board, origin, offsets.push(offset)) == if is_vacant(
            board,
            step_target(origin, offset),
        ) {
            stepping_moves(board, origin, offsets).push(step_target(origin, offset))
        } else {
            stepping_moves(board, origin, offsets)
        },
{
    reveal(Seq::filter);
    let longer = step_targets(origin, offsets.push(offset));
    assert(longer.drop_last() =~= step_targets(origin, offsets));
}

/// One more offset adds its target to the captures if the target holds a
/// piece of the other player, and changes nothing otherwise.
pub proof fn lemma_stepping_captures_push(
    board: ChessBoard,
    origin: Square,
    player: Player,
    offsets: Seq<(i32, i32)>,
    offset: (i32, i32),
)
    ensures
        stepping_captures(board, origin, player, offsets.push(offset)) == if holds_opponent_of(
            board,
            step_target(origin, offset),
            player,
        ) {
            stepping_captures(board, origin, player, offsets).push(step_target(origin, offset))
        } else {
            stepping_captures(board, origin, player, offsets)
        },
{
    reveal(Seq::filter);
    let longer = step_targets(origin, offsets.push(offset));
    assert(longer.drop_last() =~= step_targets(origin, offsets));
}

/// The candidate that `offset` leads to from `origin`, or `None` if a
/// coordinate leaves the range of `i32`: the target is then far off the board.
fn step_candidate(origin: &BoardPosition, offset: (i32, i32)) -> (candidate: Option<
    CandidateBoardPosition,
>)
    ensures
        candidate matches Some(found) ==> found@ == step_target(origin@, offset),
        candidate is None <==> step_target(origin@, offset).row > i32::MAX || step_target(
            origin@,
            offset,
        ).column > i32::MAX,
        candidate is None ==> !step_target(origin@, offset).on_board(),
{
    let row = (origin.get_row_index() as i32).checked_add(offset.0);
    let column = (origin.get_column_index() as i32).checked_add(offset.1);
    match (row, column) {
        (Some(row_index), Some(column_index)) => Some(
            CandidateBoardPosition { row_index, column_index },
        ),
        _ => None,
    }
}

/// Every quiet move of a stepping piece is an empty square of the board that
/// one of the offsets leads to.
pub proof fn lemma_stepping_moves_are_vacant_targets(
    board: ChessBoard,
    origin: Square,
    offsets: Seq<(i32, i32)>,
    index: int,
)
    requires
        0 <= index < stepping_moves(board, origin, offsets).len(),
    ensures
        is_vacant(board, stepping_moves(board, origin, offsets)[index]),
        step_targets(origin, offsets).contains(stepping_moves(board, origin, offsets)[index]),
{
    let targets = step_targets(origin, offsets);
    let vacant = |target: Square| is_vacant(board, target);
    targets.lemma_filter_pred(vacant, index);
    targets.lemma_filter_contains_rev(vacant, targets.filter(vacant)[index]);
}

/// Every capture of a stepping piece is a square that one of the offsets
/// leads to and that holds a piece of the other player.
pub proof fn lemma_stepping_captures_are_opposing_targets(
    board: ChessBoard,
    origin: Square,
    player: Player,
    offsets: Seq<(i32, i32)>,
    index: int,
)
    requires
        0 <= index < stepping_captures(board, origin, player, offsets).len(),
    ensures
        holds_opponent_of(board, stepping_captures(board, origin, player, offsets)[index], player),
        step_targets(origin, offsets).contains(
            stepping_captures(board, origin, player, offsets)[index],
        ),
{
    let targets = step_targets(origin, offsets);
    let opposing = |target: Square| holds_opponent_of(board, target, player);
    targets.lemma_filter_pred(opposing, index);
    targets.lemma_filter_contains_rev(opposing, targets.filter(opposing)[index]);
}

/// No target is passed over: every offset that leads to an empty square of
/// the board gives a quiet move, and every offset that leads to a piece of
/// the other player gives a capture.
pub proof fn lemma_stepping_misses_no_target(
    board: ChessBoard,
    origin: Square,
    player: Player,
    offsets: Seq<(i32, i32)>,
    index: int,
)
    requires
        0 <= index < offsets.len(),
    ensures
        is_vacant(board, step_target(origin, offsets[index])) ==> stepping_moves(
            board,
            origin,
            offsets,
        ).contains(step_target(origin, offsets[index])),
        holds_opponent_of(board, step_target(origin, offsets[index]), player)
            ==> stepping_captures(board, origin, player, offsets).contains(
            step_target(origin, offsets[index]),
        ),
{
    let targets = step_targets(origin, offsets);
    let vacant = |target: Square| is_vacant(board, target);
    let opposing = |target: Square| holds_opponent_of(board, target, player);
    assert(targets[index] == step_target(origin, offsets[index]));
    if vacant(targets[index]) {
        targets.lemma_filter_contains(vacant, index);
    }
    if opposing(targets[index]) {
        targets.lemma_filter_contains(opposing, index);
    }
}

/// The quiet moves of a stepping piece on `origin` that looks at each of
/// `offsets` in turn.
pub fn collect_stepping_moves(
    origin: &BoardPosition,
    offsets: &[(i32, i32)],
    board: &ChessBoard,
) -> (moves: Vec<BoardPosition>)
    ensures
        moves.deep_view() == stepping_moves(*board, origin@, offsets@),
{
    let mut moves: Vec<BoardPosition> = Vec::new();
    let mut index: usize = 0;
    while index < offsets.len()
        invariant
            index <= offsets.len(),
            moves.deep_view() == stepping_moves(*board, origin@, offsets@.take(index as int)),
        decreases offsets.len() - index,
    {
        proof {
            lemma_stepping_moves_push(
                *board,
                origin@,
                offsets@.take(index as int),
                offsets@[index as int],
            );
            assert(offsets@.take(index + 1) =~= offsets@.take(index as int).push(
                offsets@[index as int],
            ));
        }
        if let Some(candidate) = step_candidate(origin, offsets[index]) {
            if let Some(position) = candidate.validate_move(board) {
                moves.push(position);
            }
        }
        index += 1;
    }
    assert(offsets@.take(index as int) =~= offsets@);
    moves
}

/// The captures of a stepping piece of `player` on `origin` that looks at
/// each of `offsets` in turn.
pub fn collect_stepping_captures(
    origin: &BoardPosition,
    player: &Player,
    offsets: &[(i32, i32)],
    board: &ChessBoard,
) -> (captures: Vec<BoardPosition>)
    ensures
        captures.deep_view() == stepping_captures(*board, origin@, *player, offsets@),
{
    let mut captures: Vec<BoardPosition> = Vec::new();
    let mut index: usize = 0;
    while index < offsets.len()
        invariant
            index <= offsets.len(),
            captures.deep_view() == stepping_captures(
                *board,
                origin@,
                *player,
                offsets@.take(index as int),
            ),
        decreases offsets.len() - index,
    {
        proof {
            lemma_stepping_captures_push(
                *board,
                origin@,
                *player,
                offsets@.take(index as int),
                offsets@[index as int],
            );
            assert(offsets@.take(index + 1) =~= offsets@.take(index as int).push(
                offsets@[index as int],
            ));
        }
        if let Some(candidate) = step_candidate(origin, offsets[index]) {
            if let Some(position) = candidate.validate_capture(player, board) {
                captures.push(position);
            }
        }
        index += 1;
    }
    assert(offsets@.take(index as int) =~= offsets@);
    captures
}

} // verus!

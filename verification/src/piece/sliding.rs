//! Ray walking, shared by the bishop, the rook and the queen.
//!
//! A sliding piece walks outward from its square one step at a time and may
//! enter every empty square it meets. The walk along a ray ends at the first
//! square that is off the board or occupied; the piece never jumps.

use vstd::prelude::*;

use crate::game::board::{holds_opponent_of, is_vacant, ChessBoard};
use crate::game::board_position::{BoardPosition, CandidateBoardPosition, Square};
use crate::player::Player;

verus! {

/// A direction to walk in. "Up" is toward higher rows, "right" toward higher
/// columns.
#[derive(Debug, Clone, Copy, PartialEq, Eq, Structural)]
pub enum Direction {
    UpLeft,
    UpRight,
    DownLeft,
    DownRight,
    Up,
    Down,
    Left,
    Right,
}

impl Direction {
    /// The change of row made by one step.
    pub open spec fn spec_row_step(self) -> int {
        match self {
            Direction::UpLeft | Direction::UpRight | Direction::Up => 1,
            Direction::DownLeft | Direction::DownRight | Direction::Down => -1,
            Direction::Left | Direction::Right => 0,
        }
    }

    /// The change of column made by one step.
    pub open spec fn spec_column_step(self) -> int {
        match self {
            Direction::UpRight | Direction::DownRight | Direction::Right => 1,
            Direction::UpLeft | Direction::DownLeft | Direction::Left => -1,
            Direction::Up | Direction::Down => 0,
        }
    }

    /// The change of row made by one step.
    pub fn row_step(self) -> (step: i32)
        ensures
            step == self.spec_row_step(),
    {
        match self {
            Direction::UpLeft | Direction::UpRight | Direction::Up => 1,
            Direction::DownLeft | Direction::DownRight | Direction::Down => -1,
            Direction::Left | Direction::Right => 0,
        }
    }

    /// The change of column made by one step.
    pub fn column_step(self) -> (step: i32)
        ensures
            step == self.spec_column_step(),
    {
        match self {
            Direction::UpRight | Direction::DownRight | Direction::Right => 1,
            Direction::UpLeft | Direction::DownLeft | Direction::Left => -1,
            Direction::Up | Direction::Down => 0,
        }
    }
}

/// The square `distance` steps away from `origin` in `direction`.
pub open spec fn ray_square(origin: Square, direction: Direction, distance: int) -> Square {
    origin.offset(direction.spec_row_step() * distance, direction.spec_column_step() * distance)
}

/// The number of consecutive empty squares on the ray from `origin`, counted
/// from `distance` outward. No square eight or more steps away from a square
/// of the board lies on the board, so the count stops there.
pub open spec fn vacant_run(
    board: ChessBoard,
    origin: Square,
    direction: Direction,
    distance: int,
) -> nat
    decreases 8 - distance,
{
    if 1 <= distance < 8 && is_vacant(board, ray_square(origin, direction, distance)) {
        1 + vacant_run(board, origin, direction, distance + 1)
    } else {
        0
    }
}

/// How many steps a piece on `origin` can slide in `direction`.
pub open spec fn ray_reach(board: ChessBoard, origin: Square, direction: Direction) -> nat {
    vacant_run(board, origin, direction, 1)
}

/// The squares a piece on `origin` can slide to in `direction`, nearest first.
pub open spec fn ray_moves(board: ChessBoard, origin: Square, direction: Direction) -> Seq<Square> {
    Seq::new(ray_reach(board, origin, direction), |i: int| ray_square(origin, direction, i + 1))
}

/// The square on which the walk from `origin` in `direction` ends: the first
/// one that is off the board or occupied.
pub open spec fn ray_stop(board: ChessBoard, origin: Square, direction: Direction) -> Square {
    ray_square(origin, direction, ray_reach(board, origin, direction) as int + 1)
}

/// The capture that `player` can make at the end of the ray, if any.
pub open spec fn ray_captures(
    board: ChessBoard,
    origin: Square,
    direction: Direction,
    player: Player,
) -> Seq<Square> {
    if holds_opponent_of(board, ray_stop(board, origin, direction), player) {
        seq![ray_stop(board, origin, direction)]
    } else {
        Seq::empty()
    }
}

/// The quiet moves of a sliding piece on `origin`: the moves of each ray, in
/// the order of `directions`.
pub open spec fn sliding_moves(
    board: ChessBoard,
    origin: Square,
    directions: Seq<Direction>,
) -> Seq<Square>
    decreases directions.len(),
{
    if directions.len() == 0 {
        Seq::empty()
    } else {
        sliding_moves(board, origin, directions.drop_last()) + ray_moves(
            board,
            origin,
            directions.last(),
        )
    }
}

/// The captures of a sliding piece of `player` on `origin`: at most one per
/// ray, in the order of `directions`.
pub open spec fn sliding_captures(
    board: ChessBoard,
    origin: Square,
    player: Player,
    directions: Seq<Direction>,
) -> Seq<Square>
    decreases directions.len(),
{
    if directions.len() == 0 {
        Seq::empty()
    } else {
        sliding_captures(board, origin, player, directions.drop_last()) + ray_captures(
            board,
            origin,
            directions.last(),
            player,
        )
    }
}

/// A step moves at least one coordinate by exactly one, so a square
/// `distance` steps away from a square of the board lies on the board only if
/// `distance` is less than 8.
pub proof fn lemma_ray_leaves_board(origin: Square, direction: Direction, distance: int)
    requires
        origin.on_board(),
        ray_square(origin, direction, distance).on_board(),
    ensures
        -8 < distance < 8,
{
}

/// `target` lies `distance` steps from `origin` in `direction`, and every
/// square of the ray up to and including `target` is empty.
pub open spec fn reached_over_empty_squares(
    board: ChessBoard,
    origin: Square,
    direction: Direction,
    distance: int,
    target: Square,
) -> bool {
    &&& 1 <= distance
    &&& target == ray_square(origin, direction, distance)
    &&& forall|nearer: int|
        1 <= nearer <= distance ==> is_vacant(
            board,
            #[trigger] ray_square(origin, direction, nearer),
        )
}

/// `target` lies `distance` steps from `origin` in `direction`, holds a piece
/// that `player` may capture, and every square of the ray before it is empty.
pub open spec fn captured_over_empty_squares(
    board: ChessBoard,
    origin: Square,
    direction: Direction,
    player: Player,
    distance: int,
    target: Square,
) -> bool {
    &&& 1 <= distance
    &&& target == ray_square(origin, direction, distance)
    &&& holds_opponent_of(board, target, player)
    &&& forall|nearer: int|
        1 <= nearer < distance ==> is_vacant(
            board,
            #[trigger] ray_square(origin, direction, nearer),
        )
}

/// The squares counted by `vacant_run` are empty, and the count ends on a
/// square that is not, unless it ends eight steps out.
pub proof fn lemma_vacant_run(board: ChessBoard, origin: Square, direction: Direction, from: int)
    requires
        1 <= from <= 8,
    ensures
        from + vacant_run(board, origin, direction, from) <= 8,
        forall|distance: int|
            from <= distance < from + vacant_run(board, origin, direction, from) ==> is_vacant(
                board,
                #[trigger] ray_square(origin, direction, distance),
            ),
        from + vacant_run(board, origin, direction, from) < 8 ==> !is_vacant(
            board,
            ray_square(origin, direction, from + vacant_run(board, origin, direction, from)),
        ),
    decreases 8 - from,
{
    if from < 8 && is_vacant(board, ray_square(origin, direction, from)) {
        lemma_vacant_run(board, origin, direction, from + 1);
    }
}

/// A piece slides over empty squares only, and stops in front of the first
/// square that is off the board or occupied.
pub proof fn lemma_ray_reach(board: ChessBoard, origin: Square, direction: Direction)
    requires
        origin.on_board(),
    ensures
        ray_reach(board, origin, direction) < 8,
        forall|distance: int|
            1 <= distance <= ray_reach(board, origin, direction) ==> is_vacant(
                board,
                #[trigger] ray_square(origin, direction, distance),
            ),
        !is_vacant(board, ray_stop(board, origin, direction)),
{
    lemma_vacant_run(board, origin, direction, 1);
    if ray_stop(board, origin, direction).on_board() {
        lemma_ray_leaves_board(
            origin,
            direction,
            ray_reach(board, origin, direction) as int + 1,
        );
    }
}

/// A sliding piece never reaches or passes an obstacle: if the square
/// `blocked` steps out is off the board or occupied, every move on that ray
/// ends nearer than `blocked`.
pub proof fn lemma_ray_stops_before_obstacle(
    board: ChessBoard,
    origin: Square,
    direction: Direction,
    blocked: int,
)
    requires
        1 <= blocked,
        !is_vacant(board, ray_square(origin, direction, blocked)),
    ensures
        ray_moves(board, origin, direction).len() < blocked,
        forall|i: int|
            0 <= i < ray_moves(board, origin, direction).len() ==> {
                &&& (#[trigger] ray_moves(board, origin, direction)[i]) == ray_square(
                    origin,
                    direction,
                    i + 1,
                )
                &&& is_vacant(board, ray_moves(board, origin, direction)[i])
            },
{
    lemma_vacant_run(board, origin, direction, 1);
}

/// Every quiet move that sliding generation yields lies on one of the rays
/// and is reached over empty squares only: there is no occupied square on
/// the way to it, and it is not occupied itself.
pub proof fn lemma_sliding_moves_unobstructed(
    board: ChessBoard,
    origin: Square,
    directions: Seq<Direction>,
    index: int,
)
    requires
        0 <= index < sliding_moves(board, origin, directions).len(),
    ensures
        exists|ray: int, distance: int|
            0 <= ray < directions.len() && #[trigger] reached_over_empty_squares(
                board,
                origin,
                directions[ray],
                distance,
                sliding_moves(board, origin, directions)[index],
            ),
    decreases directions.len(),
{
    let earlier = sliding_moves(board, origin, directions.drop_last());
    let target = sliding_moves(board, origin, directions)[index];
    if index < earlier.len() {
        lemma_sliding_moves_unobstructed(board, origin, directions.drop_last(), index);
        let (ray, distance) = choose|ray: int, distance: int|
            0 <= ray < directions.drop_last().len() && #[trigger] reached_over_empty_squares(
                board,
                origin,
                directions.drop_last()[ray],
                distance,
                earlier[index],
            );
        assert(reached_over_empty_squares(board, origin, directions[ray], distance, target));
    } else {
        let ray = directions.len() - 1;
        let distance = index - earlier.len() + 1;
        lemma_vacant_run(board, origin, directions.last(), 1);
        assert(reached_over_empty_squares(board, origin, directions[ray], distance, target));
    }
}

/// Every capture that sliding generation yields is the first occupied square
/// of one of the rays, and holds a piece of the other player.
pub proof fn lemma_sliding_captures_first_occupied(
    board: ChessBoard,
    origin: Square,
    player: Player,
    directions: Seq<Direction>,
    index: int,
)
    requires
        0 <= index < sliding_captures(board, origin, player, directions).len(),
    ensures
        exists|ray: int, distance: int|
            0 <= ray < directions.len() && #[trigger] captured_over_empty_squares(
                board,
                origin,
                directions[ray],
                player,
                distance,
                sliding_captures(board, origin, player, directions)[index],
            ),
    decreases directions.len(),
{
    let earlier = sliding_captures(board, origin, player, directions.drop_last());
    let target = sliding_captures(board, origin, player, directions)[index];
    if index < earlier.len() {
        lemma_sliding_captures_first_occupied(
            board,
            origin,
            player,
            directions.drop_last(),
            index,
        );
        let (ray, distance) = choose|ray: int, distance: int|
            0 <= ray < directions.drop_last().len() && #[trigger] captured_over_empty_squares(
                board,
                origin,
                directions.drop_last()[ray],
                player,
                distance,
                earlier[index],
            );
        assert(captured_over_empty_squares(
            board,
            origin,
            directions[ray],
            player,
            distance,
            target,
        ));
    } else {
        let ray = directions.len() - 1;
        let distance = ray_reach(board, origin, directions.last()) as int + 1;
        lemma_vacant_run(board, origin, directions.last(), 1);
        assert(captured_over_empty_squares(
            board,
            origin,
            directions[ray],
            player,
            distance,
            target,
        ));
    }
}

/// The candidate `distance` steps away from `origin` in `direction`.
fn ray_candidate(origin: &BoardPosition, direction: Direction, distance: i32) -> (candidate:
    CandidateBoardPosition)
    requires
        1 <= distance <= 8,
    ensures
        candidate@ == ray_square(origin@, direction, distance as int),
{
    let row_step = direction.row_step();
    let column_step = direction.column_step();
    CandidateBoardPosition {
        row_index: origin.get_row_index() as i32 + row_step * distance,
        column_index: origin.get_column_index() as i32 + column_step * distance,
    }
}

/// Walks the ray from `origin` in `direction` and appends to `moves` every
/// square that a sliding piece can move to, nearest first.
pub fn walk_ray(
    origin: &BoardPosition,
    direction: Direction,
    board: &ChessBoard,
    moves: &mut Vec<BoardPosition>,
)
    ensures
        final(moves).deep_view() == old(moves).deep_view() + ray_moves(*board, origin@, direction),
{
    let ghost before = moves.deep_view();
    let mut distance: i32 = 1;
    loop
        invariant
            1 <= distance <= 8,
            ray_reach(*board, origin@, direction) == (distance - 1) + vacant_run(
                *board,
                origin@,
                direction,
                distance as int,
            ),
            moves.deep_view() == before + Seq::new(
                (distance - 1) as nat,
                |i: int| ray_square(origin@, direction, i + 1),
            ),
        ensures
            moves.deep_view() == before + ray_moves(*board, origin@, direction),
        decreases 8 - distance,
    {
        let candidate = ray_candidate(origin, direction, distance);
        proof {
            use_type_invariant(origin);
            if candidate@.on_board() {
                lemma_ray_leaves_board(origin@, direction, distance as int);
            }
        }
        match candidate.validate_move(board) {
            Some(position) => {
                let ghost earlier = moves.deep_view();
                moves.push(position);
                assert(moves.deep_view() =~= earlier.push(position@));
                distance += 1;
            },
            None => {
                break ;
            },
        }
    }
}

/// Walks the ray from `origin` in `direction` without recording anything and
/// returns the candidate on which the walk ends.
pub fn find_ray_stop(origin: &BoardPosition, direction: Direction, board: &ChessBoard) -> (stop:
    CandidateBoardPosition)
    ensures
        stop@ == ray_stop(*board, origin@, direction),
{
    let mut distance: i32 = 1;
    loop
        invariant
            1 <= distance <= 8,
            ray_reach(*board, origin@, direction) == (distance - 1) + vacant_run(
                *board,
                origin@,
                direction,
                distance as int,
            ),
        decreases 8 - distance,
    {
        let candidate = ray_candidate(origin, direction, distance);
        proof {
            use_type_invariant(origin);
            if candidate@.on_board() {
                lemma_ray_leaves_board(origin@, direction, distance as int);
            }
        }
        if candidate.validate_move(board).is_none() {
            return candidate;
        }
        distance += 1;
    }
}

/// The quiet moves of a sliding piece on `origin` that walks in each of
/// `directions` in turn.
pub fn collect_sliding_moves(
    origin: &BoardPosition,
    directions: &[Direction],
    board: &ChessBoard,
) -> (moves: Vec<BoardPosition>)
    ensures
        moves.deep_view() == sliding_moves(*board, origin@, directions@),
{
    let mut moves: Vec<BoardPosition> = Vec::new();
    let mut index: usize = 0;
    while index < directions.len()
        invariant
            index <= directions.len(),
            moves.deep_view() == sliding_moves(*board, origin@, directions@.take(index as int)),
        decreases directions.len() - index,
    {
        walk_ray(origin, directions[index], board, &mut moves);
        assert(directions@.take(index + 1).drop_last() =~= directions@.take(index as int));
        index += 1;
    }
    assert(directions@.take(index as int) =~= directions@);
    moves
}

/// The captures of a sliding piece of `player` on `origin` that walks in each
/// of `directions` in turn.
pub fn collect_sliding_captures(
    origin: &BoardPosition,
    player: &Player,
    directions: &[Direction],
    board: &ChessBoard,
) -> (captures: Vec<BoardPosition>)
    ensures
        captures.deep_view() == sliding_captures(*board, origin@, *player, directions@),
{
    let mut captures: Vec<BoardPosition> = Vec::new();
    let mut index: usize = 0;
    while index < directions.len()
        invariant
            index <= directions.len(),
            captures.deep_view() == sliding_captures(
                *board,
                origin@,
                *player,
                directions@.take(index as int),
            ),
        decreases directions.len() - index,
    {
        let stop = find_ray_stop(origin, directions[index], board);
        if let Some(position) = stop.validate_capture(player, board) {
            captures.push(position);
        }
        assert(directions@.take(index + 1).drop_last() =~= directions@.take(index as int));
        index += 1;
    }
    assert(directions@.take(index as int) =~= directions@);
    captures
}

} // verus!

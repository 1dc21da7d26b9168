use vstd::prelude::*;

use crate::board::{index_of, in_range, off_board, stones, BoardModel, IllegalMovePolicy, Move};
use crate::piece::{opposite, Piece};

verus! {

/// A grid with no stone on it counts zero stones.
proof fn lemma_no_stones(grid: Seq<Piece>)
    requires
        forall|i: int| 0 <= i < grid.len() ==> #[trigger] grid[i] == Piece::Empty,
    ensures
        stones(grid) == 0,
    decreases grid.len(),
{
    if grid.len() > 0 {
        lemma_no_stones(grid.drop_last());
    }
}

/// Putting a stone on an empty point adds exactly one stone.
proof fn lemma_stone_added(grid: Seq<Piece>, i: int, p: Piece)
    requires
        0 <= i < grid.len(),
        grid[i] == Piece::Empty,
        p.is_stone(),
    ensures
        stones(grid.update(i, p)) == stones(grid) + 1,
    decreases grid.len(),
{
    let updated = grid.update(i, p);
    if i == grid.len() - 1 {
        assert(updated.drop_last() =~= grid.drop_last());
    } else {
        assert(updated.drop_last() =~= grid.drop_last().update(i, p));
        lemma_stone_added(grid.drop_last(), i, p);
    }
}

/// Playing any move keeps a board valid: the colour to move is always a stone.
pub proof fn lemma_move_keeps_valid(m: BoardModel, mv: Move, policy: IllegalMovePolicy)
    requires
        m.valid(),
    ensures
        m.apply(mv, policy).valid(),
{
}

/// Any sequence of moves played from a valid board leaves it valid, so the
/// colour to move is never `Empty`.
pub proof fn lemma_run_keeps_valid(m: BoardModel, moves: Seq<Move>)
    requires
        m.valid(),
    ensures
        m.run(moves).valid(),
    decreases moves.len(),
{
    if moves.len() > 0 {
        lemma_run_keeps_valid(m, moves.drop_last());
    }
}

/// One move adds at most one stone and never removes any.
pub proof fn lemma_move_stones(m: BoardModel, mv: Move)
    requires
        m.valid(),
    ensures
        stones(m.grid) <= stones(m.after(mv).grid) <= stones(m.grid) + 1,
{
    if let Move::Place(row, col) = mv {
        if m.legal(mv) {
            lemma_stone_added(m.grid, index_of(row as int, col as int), m.next);
        }
    }
}

/// The first `i + 1` moves end where the first `i` moves, then move `i`, end.
proof fn lemma_run_prefix(m: BoardModel, moves: Seq<Move>, i: int)
    requires
        0 <= i < moves.len(),
    ensures
        m.run(moves.take(i + 1)) == m.run(moves.take(i)).after(moves[i]),
{
    assert(moves.take(i + 1).drop_last() =~= moves.take(i));
}

/// Along any sequence of moves from the empty board, the number of stones
/// never decreases and never exceeds the number of moves played so far.
pub proof fn lemma_stones_bounded(moves: Seq<Move>)
    ensures
        forall|i: int|
            0 <= i <= moves.len() ==> #[trigger] stones(BoardModel::initial().run(moves.take(i)).grid)
                <= i,
        forall|i: int|
            0 <= i < moves.len() ==> stones(BoardModel::initial().run(moves.take(i)).grid) <= stones(
                #[trigger] BoardModel::initial().run(moves.take(i + 1)).grid,
            ),
    decreases moves.len(),
{
    let init = BoardModel::initial();
    if moves.len() == 0 {
        assert(moves.take(0) =~= moves);
        lemma_no_stones(init.grid);
    } else {
        let n = moves.len() - 1;
        let rest = moves.drop_last();
        lemma_stones_bounded(rest);
        assert forall|i: int| 0 <= i <= n implies #[trigger] moves.take(i) == rest.take(i) by {
            assert(moves.take(i) =~= rest.take(i));
        }
        assert(moves.take(n) == rest.take(n));
        lemma_run_prefix(init, moves, n);
        lemma_run_keeps_valid(init, rest);
        assert(rest.take(n) =~= rest);
        lemma_move_stones(init.run(rest), moves[n]);
        assert forall|i: int| 0 <= i <= moves.len() implies #[trigger] stones(
            init.run(moves.take(i)).grid,
        ) <= i by {
            if i <= n {
                assert(moves.take(i) == rest.take(i));
            }
        }
        assert forall|i: int| 0 <= i < moves.len() implies stones(init.run(moves.take(i)).grid)
            <= stones(#[trigger] init.run(moves.take(i + 1)).grid) by {
            if i < n {
                assert(moves.take(i) == rest.take(i));
                assert(moves.take(i + 1) == rest.take(i + 1));
            }
        }
    }
}

/// An in-range placement onto an occupied point leaves the grid exactly as
/// it was and hands the turn to the other colour.
pub proof fn lemma_illegal_place_keeps_grid(m: BoardModel, row: u8, col: u8)
    requires
        m.valid(),
        in_range(row as int, col as int),
        !m.legal(Move::Place(row, col)),
    ensures
        m.after(Move::Place(row, col)).grid == m.grid,
        m.after(Move::Place(row, col)).next == opposite(m.next),
{
}

/// Starting from the empty board, after n moves on the board (legal or
/// not) Black is to move if n is even and White if n is odd.
pub proof fn lemma_turn_alternates(moves: Seq<Move>)
    requires
        forall|i: int| 0 <= i < moves.len() ==> !off_board(#[trigger] moves[i]),
    ensures
        BoardModel::initial().run(moves).next == if moves.len() % 2 == 0 {
            Piece::Black
        } else {
            Piece::White
        },
    decreases moves.len(),
{
    if moves.len() > 0 {
        let rest = moves.drop_last();
        assert forall|i: int| 0 <= i < rest.len() implies !off_board(#[trigger] rest[i]) by {
            assert(rest[i] == moves[i]);
        }
        lemma_turn_alternates(rest);
        assert(!off_board(moves[moves.len() - 1]));
    }
}

} // verus!

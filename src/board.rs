use vstd::prelude::*;

use crate::piece::{glyph, opposite, Piece};
use crate::text::{padded, padded_text};
use vstd::string::*;

verus! {

/// Number of points along each edge of the board.
pub const SIDE: usize = 9;

/// Number of points on the board.
pub const CELLS: usize = SIDE * SIDE;

/// One turn's move.
#[derive(Clone, Copy, Debug, PartialEq, Eq, Structural)]
pub enum Move {
    /// Give up the turn; the grid is left alone.
    Pass,
    /// Put a stone on (row, column).
    Place(u8, u8),
}

/// Why an operation on the board or on a move source did not succeed.
#[derive(Clone, Copy, Debug, PartialEq, Eq, Structural)]
pub enum GameError {
    /// A row or column outside `0..SIDE`.
    OutOfRange,
    /// A placement onto an occupied point, refused under `IllegalMovePolicy::Reject`.
    IllegalMove,
    /// A move source could not produce a move.
    ProviderFailure,
}

/// What `make_move_under` does with a move that is in range but not legal.
#[derive(Clone, Copy, Debug, PartialEq, Eq, Structural)]
pub enum IllegalMovePolicy {
    /// Leave the grid alone and hand the turn over.
    Absorb,
    /// Leave the board alone and report `GameError::IllegalMove`.
    Reject,
}

/// The mathematical content of a board: the points in row-major order and
/// the colour to move.
pub ghost struct BoardModel {
    pub grid: Seq<Piece>,
    pub next: Piece,
}

/// Whether (row, col) names a point of the board.
pub open spec fn in_range(row: int, col: int) -> bool {
    0 <= row < SIDE && 0 <= col < SIDE
}

/// Position of (row, col) in the row-major grid.
pub open spec fn index_of(row: int, col: int) -> int {
    row * SIDE + col
}

/// Whether a move names a point outside the board.
pub open spec fn off_board(mv: Move) -> bool {
    match mv {
        Move::Pass => false,
        Move::Place(row, col) => !in_range(row as int, col as int),
    }
}

impl BoardModel {
    /// A grid of the right size, with a stone's colour to move.
    pub open spec fn valid(self) -> bool {
        self.grid.len() == CELLS && self.next.is_stone()
    }

    /// The empty board with Black to move.
    pub open spec fn initial() -> BoardModel {
        BoardModel { grid: Seq::new(CELLS as nat, |i: int| Piece::Empty), next: Piece::Black }
    }

    /// The piece on (row, col).
    pub open spec fn at(self, row: int, col: int) -> Piece {
        self.grid[index_of(row, col)]
    }

    /// A pass, or a placement on an empty point of the board.
    pub open spec fn legal(self, mv: Move) -> bool {
        match mv {
            Move::Pass => true,
            Move::Place(row, col) => in_range(row as int, col as int) && self.at(
                row as int,
                col as int,
            ) == Piece::Empty,
        }
    }

    /// The board after `mv` under the given policy: a move off the board,
    /// or an illegal one under `Reject`, changes nothing; a legal placement
    /// puts down a stone of the colour to move; every other move hands the
    /// turn over and leaves the grid alone.
    pub open spec fn apply(self, mv: Move, policy: IllegalMovePolicy) -> BoardModel {
        if off_board(mv) || (!self.legal(mv) && policy == IllegalMovePolicy::Reject) {
            self
        } else {
            let grid = match mv {
                Move::Place(row, col) if self.legal(mv) => self.grid.update(
                    index_of(row as int, col as int),
                    self.next,
                ),
                _ => self.grid,
            };
            BoardModel { grid, next: opposite(self.next) }
        }
    }

    /// The board after `mv` when illegal moves are absorbed.
    pub open spec fn after(self, mv: Move) -> BoardModel {
        self.apply(mv, IllegalMovePolicy::Absorb)
    }

    /// The board after the moves in order, illegal ones absorbed.
    pub open spec fn run(self, moves: Seq<Move>) -> BoardModel
        decreases moves.len(),
    {
        if moves.len() == 0 {
            self
        } else {
            self.run(moves.drop_last()).after(moves.last())
        }
    }
}

/// Number of stones in a grid.
pub open spec fn stones(grid: Seq<Piece>) -> nat
    decreases grid.len(),
{
    if grid.len() == 0 {
        0
    } else {
        stones(grid.drop_last()) + if grid.last().is_stone() {
            1nat
        } else {
            0nat
        }
    }
}

/// What `make_move_under` reports for `mv` on `m`.
pub open spec fn outcome(m: BoardModel, mv: Move, policy: IllegalMovePolicy) -> Result<(), GameError> {
    if off_board(mv) {
        Err(GameError::OutOfRange)
    } else if !m.legal(mv) && policy == IllegalMovePolicy::Reject {
        Err(GameError::IllegalMove)
    } else {
        Ok(())
    }
}

/// The column-number line of a rendering, for the first `k` columns.
pub open spec fn header(k: nat) -> Seq<char>
    decreases k,
{
    if k == 0 {
        Seq::empty()
    } else {
        header((k - 1) as nat) + padded((k - 1) as nat, 2)
    }
}

/// The glyphs of a run of points, each followed by a space.
pub open spec fn row_text(row: Seq<Piece>) -> Seq<char>
    decreases row.len(),
{
    if row.len() == 0 {
        Seq::empty()
    } else {
        row_text(row.drop_last()) + seq![glyph(row.last())] + " "@
    }
}

/// The line of a rendering that shows row `r`.
pub open spec fn row_line(grid: Seq<Piece>, r: nat) -> Seq<char> {
    padded(r, 3) + ": "@ + row_text(grid.subrange(index_of(r as int, 0), index_of(r as int, SIDE as int)))
        + "\n"@
}

/// The lines that show the first `k` rows.
pub open spec fn rows_text(grid: Seq<Piece>, k: nat) -> Seq<char>
    decreases k,
{
    if k == 0 {
        Seq::empty()
    } else {
        rows_text(grid, (k - 1) as nat) + row_line(grid, (k - 1) as nat)
    }
}

/// The text of a board: a line of column numbers, one line per row with
/// its number and the glyph of each point, then the colour to move.
pub open spec fn rendering(m: BoardModel) -> Seq<char> {
    "    "@ + header(SIDE as nat) + "\n"@ + rows_text(m.grid, SIDE as nat) + "\n     Next move: "@
        + seq![glyph(m.next)] + "\n\n"@
}

/// A Go board: the stones on the grid and the colour to move next.
pub struct Board {
    grid: Vec<Piece>,
    next: Piece,
}

impl View for Board {
    type V = BoardModel;

    closed spec fn view(&self) -> BoardModel {
        BoardModel { grid: self.grid@, next: self.next }
    }
}

impl Board {
    #[verifier::type_invariant]
    spec fn well_formed(&self) -> bool {
        self@.valid()
    }

    /// An empty board with Black to move.
    pub fn new() -> (b: Board)
        ensures
            b@ == BoardModel::initial(),
            b@.valid(),
    {
        let mut grid: Vec<Piece> = Vec::new();
        let mut i: usize = 0;
        while i < CELLS
            invariant
                i <= CELLS,
                grid@ == Seq::new(i as nat, |k: int| Piece::Empty),
            decreases CELLS - i,
        {
            grid.push(Piece::Empty);
            i = i + 1;
        }
        let b = Board { grid, next: Piece::Black };
        assert(b@.grid =~= BoardModel::initial().grid);
        b
    }
    /// Row-major position of an in-range (row, col).
    fn position(row: usize, col: usize) -> (i: usize)
        requires
            in_range(row as int, col as int),
        ensures
            i == index_of(row as int, col as int),
            i < CELLS,
    {
        row * SIDE + col
    }

    /// The piece on (row, col), or `OutOfRange` when that is not a point of the board.
    pub fn cell_at(&self, row: usize, col: usize) -> (r: Result<Piece, GameError>)
        ensures
            r == if in_range(row as int, col as int) {
                Ok::<Piece, GameError>(self@.at(row as int, col as int))
            } else {
                Err::<Piece, GameError>(GameError::OutOfRange)
            },
    {
        proof {
            use_type_invariant(self);
        }
        if row < SIDE && col < SIDE {
            Ok(self.grid[Self::position(row, col)])
        } else {
            Err(GameError::OutOfRange)
        }
    }

    /// The colour that plays the next move; never `Empty`.
    pub fn next_to_move(&self) -> (r: Piece)
        ensures
            r == self@.next,
            r.is_stone(),
    {
        proof {
            use_type_invariant(self);
        }
        self.next
    }

    /// Whether `mv` is legal: a pass, or a placement on an empty point of the board.
    pub fn is_valid_move(&self, mv: &Move) -> (r: bool)
        ensures
            r == self@.legal(*mv),
    {
        proof {
            use_type_invariant(self);
        }
        match *mv {
            Move::Pass => true,
            Move::Place(row, col) => {
                let (row, col) = (row as usize, col as usize);
                row < SIDE && col < SIDE && self.grid[Self::position(row, col)] == Piece::Empty
            },
        }
    }

    /// The line that shows row `r`.
    fn row_line_text(&self, r: usize) -> (t: String)
        requires
            r < SIDE,
        ensures
            t@ == row_line(self@.grid, r as nat),
    {
        proof {
            use_type_invariant(self);
        }
        let ghost base = index_of(r as int, 0);
        let mut t = padded_text(r, 3);
        t.append(": ");
        let ghost start = t@;
        let mut c: usize = 0;
        while c < SIDE
            invariant
                r < SIDE,
                c <= SIDE,
                self.grid@.len() == CELLS,
                base == index_of(r as int, 0),
                t@ == start + row_text(self.grid@.subrange(base, base + c)),
            decreases SIDE - c,
        {
            let g = self.grid[Self::position(r, c)].to_string();
            t.append(g.as_str());
            t.append(" ");
            proof {
                let run = self.grid@.subrange(base, base + c + 1);
                assert(run.drop_last() =~= self.grid@.subrange(base, base + c));
                assert(run.last() == self.grid@[index_of(r as int, c as int)]);
            }
            c = c + 1;
        }
        t.append("\n");
        t
    }

    /// A text picture of the board: column numbers, each row with its
    /// number and glyphs (`.` empty, `X` black, `O` white), and the colour
    /// to move.
    pub fn render(&self) -> (t: String)
        ensures
            t@ == rendering(self@),
    {
        proof {
            use_type_invariant(self);
        }
        let mut t = String::from_str("    ");
        let mut c: usize = 0;
        while c < SIDE
            invariant
                c <= SIDE,
                t@ == "    "@ + header(c as nat),
            decreases SIDE - c,
        {
            let num = padded_text(c, 2);
            t.append(num.as_str());
            c = c + 1;
        }
        t.append("\n");
        let ghost top = t@;
        let mut r: usize = 0;
        while r < SIDE
            invariant
                r <= SIDE,
                t@ == top + rows_text(self@.grid, r as nat),
            decreases SIDE - r,
        {
            let line = self.row_line_text(r);
            t.append(line.as_str());
            r = r + 1;
        }
        t.append("\n     Next move: ");
        let g = self.next.to_string();
        t.append(g.as_str());
        t.append("\n\n");
        t
    }

    /// Plays `mv`. A move off the board is refused with `OutOfRange` and
    /// changes nothing. A legal move puts down its stone, if any, and hands
    /// the turn over. An illegal placement is dealt with as `policy` says.
    pub fn make_move_under(&mut self, mv: &Move, policy: IllegalMovePolicy) -> (r: Result<
        (),
        GameError,
    >)
        ensures
            r == outcome(old(self)@, *mv, policy),
            final(self)@ == old(self)@.apply(*mv, policy),
            final(self)@.valid(),
    {
        proof {
            use_type_invariant(&*self);
        }
        if let Move::Place(row, col) = *mv {
            if !((row as usize) < SIDE && (col as usize) < SIDE) {
                return Err(GameError::OutOfRange);
            }
        }
        let legal = self.is_valid_move(mv);
        if !legal && policy == IllegalMovePolicy::Reject {
            return Err(GameError::IllegalMove);
        }
        if legal {
            if let Move::Place(row, col) = *mv {
                let i = Self::position(row as usize, col as usize);
                self.grid[i] = self.next;
            }
        }
        self.next = self.next.opponent();
        Ok(())
    }

    /// Plays `mv`, absorbing an illegal placement: the grid stays as it was
    /// and the turn passes to the other colour. A move off the board is
    /// refused with `OutOfRange` and changes nothing.
    pub fn make_move(&mut self, mv: &Move) -> (r: Result<(), GameError>)
        ensures
            r == (if off_board(*mv) {
                Err::<(), GameError>(GameError::OutOfRange)
            } else {
                Ok::<(), GameError>(())
            }),
            final(self)@ == old(self)@.after(*mv),
            final(self)@.valid(),
    {
        self.make_move_under(mv, IllegalMovePolicy::Absorb)
    }
}

impl Default for Board {
    fn default() -> (b: Board)
        ensures
            b@ == BoardModel::initial(),
    {
        Board::new()
    }
}

} // verus!

use vstd::prelude::*;

verus! {

/// What occupies one point of the board.
#[derive(Clone, Copy, Debug, PartialEq, Eq, Structural)]
pub enum Piece {
    Empty,
    Black,
    White,
}

/// The colour that moves after `p`.
pub open spec fn opposite(p: Piece) -> Piece {
    match p {
        Piece::Black => Piece::White,
        Piece::White => Piece::Black,
        Piece::Empty => Piece::Empty,
    }
}

/// The one-character glyph of a piece in a rendered board.
pub open spec fn glyph(p: Piece) -> char {
    match p {
        Piece::Empty => '.',
        Piece::Black => 'X',
        Piece::White => 'O',
    }
}

impl Piece {
    /// Whether this is a stone of either colour.
    pub open spec fn is_stone(self) -> bool {
        self != Piece::Empty
    }

    /// The colour that plays after this one; a stone is required.
    pub fn opponent(&self) -> (r: Piece)
        requires
            self.is_stone(),
        ensures
            r == opposite(*self),
            r.is_stone(),
    {
        match self {
            Piece::Black => Piece::White,
            _ => Piece::Black,
        }
    }

    /// The glyph of this piece as a one-character string.
    pub fn to_string(&self) -> (r: String)
        ensures
            r@ == seq![glyph(*self)],
    {
        let s = match self {
            Piece::Empty => ".",
            Piece::Black => "X",
            Piece::White => "O",
        };
        proof {
            reveal_strlit(".");
            reveal_strlit("X");
            reveal_strlit("O");
        }
        String::from_str(s)
    }
}

} // verus!

use vstd::prelude::*;
use vstd::string::*;

use crate::board::{rendering, Board, GameError, Move};

verus! {

/// A source of moves. Given a read-only view of the board, it produces the
/// move to play, or `GameError::ProviderFailure` when it could not get one.
pub trait Player {
    fn get_move(&self, board: &Board) -> Result<Move, GameError>;
}

/// A move source driven from the console by a named person.
pub struct ConsolePlayer {
    name: String,
}

impl View for ConsolePlayer {
    type V = Seq<char>;

    /// The player's name.
    closed spec fn view(&self) -> Seq<char> {
        self.name@
    }
}

impl ConsolePlayer {
    /// A console player with the given name.
    pub fn new(name: String) -> (p: ConsolePlayer)
        ensures
            p@ == name@,
    {
        ConsolePlayer { name }
    }

    /// The player's name.
    pub fn name(&self) -> (r: &str)
        ensures
            r@ == self@,
    {
        self.name.as_str()
    }

    /// The text shown to the player when asked for a move: a line that
    /// names them, a blank line, then the board.
    pub fn prompt(&self, board: &Board) -> (t: String)
        ensures
            t@ == "Your turn "@ + self@ + ".\n\n"@ + rendering(board@) + "\n"@,
    {
        let mut t = String::from_str("Your turn ");
        t.append(self.name.as_str());
        t.append(".\n\n");
        let picture = board.render();
        t.append(picture.as_str());
        t.append("\n");
        t
    }
}

impl Player for ConsolePlayer {
    /// No input is read yet: the console player always passes.
    fn get_move(&self, board: &Board) -> (r: Result<Move, GameError>)
        ensures
            r == Ok::<Move, GameError>(Move::Pass),
    {
        Ok(Move::Pass)
    }
}

} // verus!

//! The two players.

use vstd::prelude::*;

verus! {

/// One of the two sides of a game.
#[derive(Debug, Clone, Copy, PartialEq, Eq, Structural)]
pub enum Player {
    Black,
    White,
}

impl Player {
    /// The other player.
    pub open spec fn opponent(self) -> Player {
        match self {
            Player::Black => Player::White,
            Player::White => Player::Black,
        }
    }

    /// The name of the player as it is written out.
    pub open spec fn spec_name(self) -> Seq<char> {
        match self {
            Player::Black => "Black"@,
            Player::White => "White"@,
        }
    }

    /// The name of the player, `Black` or `White`.
    pub fn name(&self) -> (name: &'static str)
        ensures
            name@ == self.spec_name(),
    {
        match self {
            Player::Black => "Black",
            Player::White => "White",
        }
    }
}

} // verus!

use vstd::prelude::*;

verus! {

/// One of the two sides of a game.
#[derive(Clone, Copy, Debug, PartialEq, Eq, Structural)]
pub enum Player {
    P1,
    P2,
}

impl Player {
    /// The opponent of this player.
    pub open spec fn opponent(self) -> Player {
        match self {
            Player::P1 => Player::P2,
            Player::P2 => Player::P1,
        }
    }

    /// Slot of this player's treasury.
    pub open spec fn slot(self) -> int {
        match self {
            Player::P1 => 0,
            Player::P2 => 1,
        }
    }

    /// The opponent of this player.
    pub fn other(self) -> (r: Player)
        ensures
            r == self.opponent(),
    {
        match self {
            Player::P1 => Player::P2,
            Player::P2 => Player::P1,
        }
    }
}

impl Default for Player {
    fn default() -> (r: Player)
        ensures
            r == Player::P1,
    {
        Player::P1
    }
}

} // verus!

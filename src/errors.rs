use vstd::prelude::*;

verus! {

/// Why a command was refused.
#[derive(Clone, Copy, Debug, PartialEq, Eq, Structural)]
pub enum CommandError {
    Move(MoveError),
    Purchase(PurchaseError),
    Battle(BattleError),
}

/// A move was refused: no piece stands on its origin, or the piece cannot get to its target.
#[derive(Clone, Copy, Debug, PartialEq, Eq, Structural)]
pub struct MoveError;

/// A purchase was refused: the treasury is short, the tile is not the player's
/// baseline, or it is taken.
#[derive(Clone, Copy, Debug, PartialEq, Eq, Structural)]
pub struct PurchaseError;

/// A battle was refused: battles are not resolved yet.
#[derive(Clone, Copy, Debug, PartialEq, Eq, Structural)]
pub struct BattleError;

impl CommandError {
    /// Text of the error, for the user.
    pub fn message(&self) -> (r: &'static str)
        ensures
            r@ == self.spec_message(),
    {
        match self {
            CommandError::Move(_) => "Move Error",
            CommandError::Purchase(_) => "Purchase Error",
            CommandError::Battle(_) => "Battle Error",
        }
    }

    /// Text of the error, for the user.
    pub open spec fn spec_message(&self) -> Seq<char> {
        match self {
            CommandError::Move(_) => "Move Error"@,
            CommandError::Purchase(_) => "Purchase Error"@,
            CommandError::Battle(_) => "Battle Error"@,
        }
    }
}

} // verus!

use vstd::prelude::*;

use crate::board::Board;
use crate::coord::Coord;
use crate::movement::{is_destination, reachable_squares};
use crate::player::Player;
use crate::text::string_of;
use std::ops::RangeInclusive;

verus! {

/// The kinds of unit that a player can field.
#[derive(Clone, Copy, Debug, PartialEq, Eq, Structural)]
pub enum PieceType {
    Artillery,
    Convoy,
    Infantry,
    Recon,
}

impl PieceType {
    /// Price of a unit of this kind.
    pub open spec fn spec_cost(self) -> u8 {
        match self {
            PieceType::Convoy => 3,
            PieceType::Infantry => 2,
            PieceType::Recon | PieceType::Artillery => 4,
        }
    }

    /// Combat strength of a unit of this kind.
    pub open spec fn spec_power(self) -> u8 {
        match self {
            PieceType::Convoy => 0,
            PieceType::Infantry | PieceType::Artillery => 2,
            PieceType::Recon => 1,
        }
    }

    /// Shortest distance at which a unit of this kind attacks.
    pub open spec fn spec_min_range(self) -> u8 {
        match self {
            PieceType::Artillery => 2,
            PieceType::Convoy => 0,
            PieceType::Infantry | PieceType::Recon => 1,
        }
    }

    /// Longest distance at which a unit of this kind attacks.
    pub open spec fn spec_max_range(self) -> u8 {
        match self {
            PieceType::Artillery => 3,
            PieceType::Convoy => 0,
            PieceType::Infantry | PieceType::Recon => 1,
        }
    }

    /// Number of orthogonal steps a unit of this kind makes in one move.
    pub open spec fn spec_speed(self) -> u8 {
        match self {
            PieceType::Convoy => 3,
            PieceType::Infantry | PieceType::Artillery => 2,
            PieceType::Recon => 4,
        }
    }

    /// One-letter label of the kind, as drawn on the board.
    pub open spec fn spec_label(self) -> char {
        match self {
            PieceType::Artillery => 'A',
            PieceType::Convoy => 'C',
            PieceType::Infantry => 'I',
            PieceType::Recon => 'R',
        }
    }

    pub fn cost(&self) -> (r: u8)
        ensures
            r == self.spec_cost(),
    {
        match self {
            PieceType::Convoy => 3,
            PieceType::Infantry => 2,
            PieceType::Recon | PieceType::Artillery => 4,
        }
    }

    pub fn power(&self) -> (r: u8)
        ensures
            r == self.spec_power(),
    {
        match self {
            PieceType::Convoy => 0,
            PieceType::Infantry | PieceType::Artillery => 2,
            PieceType::Recon => 1,
        }
    }

    /// Distances at which a unit of this kind attacks, both ends included.
    pub fn range(&self) -> (r: RangeInclusive<u8>)
        ensures
            r@.start == self.spec_min_range(),
            r@.end == self.spec_max_range(),
            !r@.exhausted,
    {
        match self {
            PieceType::Artillery => RangeInclusive::new(2, 3),
            PieceType::Convoy => RangeInclusive::new(0, 0),
            PieceType::Infantry | PieceType::Recon => RangeInclusive::new(1, 1),
        }
    }

    pub fn speed(&self) -> (r: u8)
        ensures
            r == self.spec_speed(),
    {
        match self {
            PieceType::Convoy => 3,
            PieceType::Infantry | PieceType::Artillery => 2,
            PieceType::Recon => 4,
        }
    }

    /// The label of the kind as text.
    pub fn to_string(&self) -> (r: String)
        ensures
            r@ == seq![self.spec_label()],
    {
        let mut chars: Vec<char> = Vec::new();
        chars.push(self.label());
        assert(chars@ =~= seq![self.spec_label()]);
        string_of(chars)
    }

    /// One-letter label of the kind: `A`, `C`, `I` or `R`.
    pub fn label(&self) -> (r: char)
        ensures
            r == self.spec_label(),
    {
        match self {
            PieceType::Artillery => 'A',
            PieceType::Convoy => 'C',
            PieceType::Infantry => 'I',
            PieceType::Recon => 'R',
        }
    }
}

/// A unit on the board.
#[derive(Clone, Copy, Debug, PartialEq, Eq, Structural)]
pub struct Piece {
    pub owner: Player,
    pub exhausted: bool,
    pub piece_type: PieceType,
}

impl Piece {
    /// A freshly bought unit: it cannot act before its owner's next upkeep.
    pub fn new(owner: Player, piece_type: PieceType) -> (r: Piece)
        ensures
            r == (Piece { owner, exhausted: true, piece_type }),
    {
        Piece { owner, exhausted: true, piece_type }
    }

    /// Every square where this piece, standing at `pos` on `board`, may end a move: those
    /// reached in at most its speed of orthogonal steps, each onto an empty tile.
    pub fn get_moves(&self, pos: Coord, board: &Board) -> (r: Vec<Coord>)
        ensures
            r@.no_duplicates(),
            forall|d: Coord|
                r@.contains(d) <==> is_destination(
                    board@,
                    pos,
                    self.piece_type.spec_speed() as nat,
                    d,
                ),
    {
        match self.piece_type {
            PieceType::Artillery | PieceType::Convoy | PieceType::Infantry | PieceType::Recon => {
                reachable_squares(board, pos, self.piece_type.speed())
            },
        }
    }
}

} // verus!

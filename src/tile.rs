use vstd::prelude::*;

use crate::pieces::Piece;
use crate::player::Player;

verus! {

/// What a tile is, apart from what stands on it.
#[derive(Clone, Copy, Debug, PartialEq, Eq, Structural)]
pub enum TileType {
    Regular,
    Town,
    Baseline(Player),
}

/// One square of the board: at most one piece, and a terrain.
#[derive(Clone, Copy, Debug, PartialEq, Eq, Structural)]
pub struct Tile {
    pub piece_option: Option<Piece>,
    pub tile_type: TileType,
}

impl Tile {
    /// True when the tile supplies troops of `player`: a town, or that player's baseline.
    pub open spec fn spec_has_supplies(self, player: Player) -> bool {
        match self.tile_type {
            TileType::Baseline(owner) => owner == player,
            TileType::Town => true,
            TileType::Regular => false,
        }
    }

    /// True when the tile is a town.
    pub open spec fn spec_gives_income(self) -> bool {
        self.tile_type is Town
    }

    /// True when `player` may buy units on the tile: it is that player's baseline.
    pub open spec fn spec_produces_troops(self, player: Player) -> bool {
        self.tile_type == TileType::Baseline(player)
    }

    pub fn has_supplies(self, cur_player: Player) -> (r: bool)
        ensures
            r == self.spec_has_supplies(cur_player),
    {
        match self.tile_type {
            TileType::Baseline(owner) => match (owner, cur_player) {
                (Player::P1, Player::P1) | (Player::P2, Player::P2) => true,
                _ => false,
            },
            TileType::Town => true,
            TileType::Regular => false,
        }
    }

    pub fn gives_income(self) -> (r: bool)
        ensures
            r == self.spec_gives_income(),
    {
        match self.tile_type {
            TileType::Town => true,
            _ => false,
        }
    }

    pub fn produces_troops(self, cur_player: Player) -> (r: bool)
        ensures
            r == self.spec_produces_troops(cur_player),
    {
        match self.tile_type {
            TileType::Baseline(owner) => match (owner, cur_player) {
                (Player::P1, Player::P1) | (Player::P2, Player::P2) => true,
                _ => false,
            },
            _ => false,
        }
    }
}

impl Default for TileType {
    fn default() -> (r: TileType)
        ensures
            r == TileType::Regular,
    {
        TileType::Regular
    }
}

impl Default for Tile {
    /// An empty regular tile.
    fn default() -> (r: Tile)
        ensures
            r == (Tile { piece_option: None, tile_type: TileType::Regular }),
    {
        Tile { piece_option: None, tile_type: TileType::Regular }
    }
}

} // verus!

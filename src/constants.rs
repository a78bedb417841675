use vstd::prelude::*;

verus! {

/// Number of ranks (rows) of the board.
pub const BOARD_RANKS: u8 = 8;

/// Number of files (columns) of the board.
pub const BOARD_FILES: u8 = 8;

/// Number of tiles of the board.
pub const BOARD_TILES: usize = 64;

/// Treasury of each player when a game starts.
pub const STARTING_MONEY: u8 = 3;

/// Income every player earns at upkeep, before towns are counted.
pub const BASE_INCOME: u8 = 2;

} // verus!

use vstd::prelude::*;

use crate::constants::{BOARD_FILES, BOARD_RANKS, BOARD_TILES};
use crate::coord::{on_board, Coord};
use crate::movement::is_destination;
use crate::player::Player;
use crate::tile::{Tile, TileType};

verus! {

/// Position of the square (rank, file) in the rank-major list of tiles.
pub open spec fn square(rank: int, file: int) -> int {
    rank * BOARD_FILES + file
}

/// The tile at `c` in a rank-major list of tiles.
pub open spec fn tile_at(tiles: Seq<Tile>, c: Coord) -> Tile {
    tiles[square(c.r(), c.f())]
}

/// Terrain of a square of rank `rank` when a game starts: the first rank is the
/// baseline of the first player, the last one that of the second player.
pub open spec fn starting_type(rank: int) -> TileType {
    if rank == 0 {
        TileType::Baseline(Player::P1)
    } else if rank == BOARD_RANKS - 1 {
        TileType::Baseline(Player::P2)
    } else {
        TileType::Regular
    }
}

/// The tiles of a board when a game starts: all empty, with their starting terrain.
pub open spec fn starting_tiles() -> Seq<Tile> {
    Seq::new(
        BOARD_TILES as nat,
        |i: int| Tile { piece_option: None, tile_type: starting_type(i / BOARD_FILES as int) },
    )
}

/// The list holding `t` when `present`, and nothing otherwise.
pub open spec fn seq_if(present: bool, t: Tile) -> Seq<Tile> {
    if present {
        seq![t]
    } else {
        seq![]
    }
}

/// The tiles orthogonally next to (rank, file) that lie on the board, in the order
/// rank + 1, rank - 1, file + 1, file - 1.
pub open spec fn neighbour_tiles(tiles: Seq<Tile>, rank: int, file: int) -> Seq<Tile> {
    seq_if(on_board(rank + 1, file), tiles[square(rank + 1, file)])
        + seq_if(on_board(rank - 1, file), tiles[square(rank - 1, file)])
        + seq_if(on_board(rank, file + 1), tiles[square(rank, file + 1)])
        + seq_if(on_board(rank, file - 1), tiles[square(rank, file - 1)])
}

/// True when the piece standing at `from` may move to `to`; false when `from` is empty.
pub open spec fn can_move(tiles: Seq<Tile>, from: Coord, to: Coord) -> bool {
    match tile_at(tiles, from).piece_option {
        Some(piece) => is_destination(tiles, from, piece.piece_type.spec_speed() as nat, to),
        None => false,
    }
}

/// The grid of tiles, stored rank by rank.
#[derive(Debug, PartialEq, Eq)]
pub struct Board {
    tiles: Vec<Tile>,
}

impl View for Board {
    type V = Seq<Tile>;

    /// The tiles, rank by rank.
    closed spec fn view(&self) -> Seq<Tile> {
        self.tiles@
    }
}

/// Position of `c` in the list of tiles.
pub(crate) fn index_of(c: Coord) -> (r: usize)
    ensures
        r == square(c.r(), c.f()),
        r < BOARD_TILES,
{
    let rank = c.rank();
    let file = c.file();
    assert(rank * BOARD_FILES <= 56) by (nonlinear_arith)
        requires
            rank < 8,
            BOARD_FILES == 8,
    ;
    rank as usize * BOARD_FILES as usize + file as usize
}

impl Clone for Board {
    fn clone(&self) -> (r: Board)
        ensures
            r@ == self@,
    {
        proof {
            use_type_invariant(self);
        }
        let mut tiles: Vec<Tile> = Vec::new();
        let mut i: usize = 0;
        while i < self.tiles.len()
            invariant
                i <= self.tiles@.len(),
                tiles@ == self.tiles@.subrange(0, i as int),
            decreases self.tiles@.len() - i,
        {
            tiles.push(self.tiles[i]);
            i = i + 1;
        }
        assert(tiles@ =~= self.tiles@);
        Board { tiles }
    }
}

impl Board {
    #[verifier::type_invariant]
    pub open spec fn inv(self) -> bool {
        self@.len() == BOARD_TILES
    }

    /// A board as a game starts.
    pub fn new() -> (r: Board)
        ensures
            r@ == starting_tiles(),
    {
        let mut tiles: Vec<Tile> = Vec::new();
        let mut rank: u8 = 0;
        while rank < BOARD_RANKS
            invariant
                rank <= BOARD_RANKS,
                tiles@.len() == rank * BOARD_FILES,
                forall|i: int| 0 <= i < tiles@.len() ==> tiles@[i] == starting_tiles()[i],
            decreases BOARD_RANKS - rank,
        {
            let tile_type = if rank == 0 {
                TileType::Baseline(Player::P1)
            } else if rank == BOARD_RANKS - 1 {
                TileType::Baseline(Player::P2)
            } else {
                TileType::Regular
            };
            let mut file: u8 = 0;
            while file < BOARD_FILES
                invariant
                    rank < BOARD_RANKS,
                    file <= BOARD_FILES,
                    tile_type == starting_type(rank as int),
                    tiles@.len() == rank * BOARD_FILES + file,
                    forall|i: int| 0 <= i < tiles@.len() ==> tiles@[i] == starting_tiles()[i],
                decreases BOARD_FILES - file,
            {
                proof {
                    let i = rank * BOARD_FILES + file;
                    assert(i / (BOARD_FILES as int) == rank as int);
                }
                tiles.push(Tile { piece_option: None, tile_type });
                file = file + 1;
            }
            rank = rank + 1;
        }
        assert(tiles@ =~= starting_tiles());
        Board { tiles }
    }

    /// All tiles, rank by rank: every tile once, in the order of the ranks and then of the files.
    pub fn iter(&self) -> (r: &[Tile])
        ensures
            r@ == self@,
    {
        self.tiles.as_slice()
    }

    /// The ranks of the board in order, each the list of its tiles in the order of the files.
    pub fn rows(&self) -> (r: Vec<Vec<Tile>>)
        ensures
            r@.len() == BOARD_RANKS,
            forall|i: int|
                0 <= i < BOARD_RANKS ==> #[trigger] r@[i]@ == self@.subrange(
                    i * BOARD_FILES,
                    i * BOARD_FILES + BOARD_FILES,
                ),
    {
        proof {
            use_type_invariant(self);
        }
        let mut rows: Vec<Vec<Tile>> = Vec::new();
        let mut rank: usize = 0;
        while rank < BOARD_RANKS as usize
            invariant
                rank <= BOARD_RANKS,
                self@.len() == BOARD_TILES,
                rows@.len() == rank,
                forall|i: int|
                    0 <= i < rank ==> #[trigger] rows@[i]@ == self@.subrange(
                        i * BOARD_FILES,
                        i * BOARD_FILES + BOARD_FILES,
                    ),
            decreases BOARD_RANKS - rank,
        {
            let mut row: Vec<Tile> = Vec::new();
            let mut file: usize = 0;
            let first = rank * BOARD_FILES as usize;
            while file < BOARD_FILES as usize
                invariant
                    rank < BOARD_RANKS,
                    file <= BOARD_FILES,
                    first == rank * BOARD_FILES,
                    self@.len() == BOARD_TILES,
                    row@ == self@.subrange(first as int, first + file),
                decreases BOARD_FILES - file,
            {
                row.push(self.tiles[first + file]);
                file = file + 1;
                assert(row@ =~= self@.subrange(first as int, first + file));
            }
            rows.push(row);
            rank = rank + 1;
        }
        rows
    }

    /// The tiles orthogonally next to `c` that lie on the board, in the order
    /// rank + 1, rank - 1, file + 1, file - 1.
    pub fn get_neighbours(&self, c: Coord) -> (r: Vec<Tile>)
        ensures
            r@ == neighbour_tiles(self@, c.r(), c.f()),
    {
        proof {
            use_type_invariant(self);
        }
        let rank = c.rank() as usize;
        let file = c.file() as usize;
        let mut r: Vec<Tile> = Vec::new();
        if let Some(n) = Coord::new(rank + 1, file) {
            r.push(self.get(n));
        }
        if rank > 0 {
            r.push(self.get(Coord::at((rank - 1) as u8, file as u8)));
        }
        if let Some(n) = Coord::new(rank, file + 1) {
            r.push(self.get(n));
        }
        if file > 0 {
            r.push(self.get(Coord::at(rank as u8, (file - 1) as u8)));
        }
        assert(r@ =~= neighbour_tiles(self@, c.r(), c.f()));
        r
    }

    /// Where the piece at `c` may move, or nothing when no piece stands there.
    pub fn get_moves(&self, c: Coord) -> (r: Option<Vec<Coord>>)
        ensures
            r is None <==> tile_at(self@, c).piece_option is None,
            r matches Some(moves) ==> moves@.no_duplicates() && forall|d: Coord|
                moves@.contains(d) <==> can_move(self@, c, d),
    {
        match self.get(c).piece_option {
            Some(piece) => Some(piece.get_moves(c, self)),
            None => None,
        }
    }

    /// The board holding `tiles`, rank by rank; nothing when they are not one tile per square.
    pub fn from_tiles(tiles: Vec<Tile>) -> (r: Option<Board>)
        ensures
            r is Some <==> tiles@.len() == BOARD_TILES,
            r matches Some(b) ==> b@ == tiles@,
    {
        if tiles.len() == BOARD_TILES {
            Some(Board { tiles })
        } else {
            None
        }
    }

    /// The tile at `c`.
    pub fn get(&self, c: Coord) -> (r: Tile)
        ensures
            r == tile_at(self@, c),
    {
        proof {
            use_type_invariant(self);
        }
        self.tiles[index_of(c)]
    }

    /// Replaces the tile at position `i` of the rank-major list.
    pub(crate) fn replace(&mut self, i: usize, tile: Tile)
        requires
            i < BOARD_TILES,
        ensures
            final(self)@ == old(self)@.update(i as int, tile),
    {
        proof {
            use_type_invariant(&*self);
        }
        self.tiles[i] = tile;
    }

    /// Replaces the tile at `c`.
    pub fn set(&mut self, c: Coord, tile: Tile)
        ensures
            final(self)@ == old(self)@.update(square(c.r(), c.f()), tile),
    {
        proof {
            use_type_invariant(&*self);
        }
        let i = index_of(c);
        self.tiles[i] = tile;
    }
}

impl std::ops::Index<Coord> for Board {
    type Output = Tile;

    /// The tile at `c`.
    fn index(&self, c: Coord) -> (r: &Tile)
        ensures
            *r == tile_at(self@, c),
    {
        proof {
            use_type_invariant(self);
        }
        &self.tiles[index_of(c)]
    }
}

impl Default for Board {
    /// A board as a game starts.
    fn default() -> (r: Board)
        ensures
            r@ == starting_tiles(),
    {
        Board::new()
    }
}

} // verus!

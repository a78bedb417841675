use vstd::prelude::*;

use crate::constants::{BOARD_FILES, BOARD_RANKS};
use crate::text::string_of;

verus! {

/// A square of the board. A value of this type always lies on the board.
#[derive(Clone, Copy, Debug, PartialEq, Eq, Structural)]
pub struct Coord {
    pub(crate) rank: u8,
    pub(crate) file: u8,
}

/// True when (rank, file) names a square of the board.
pub open spec fn on_board(rank: int, file: int) -> bool {
    0 <= rank < BOARD_RANKS && 0 <= file < BOARD_FILES
}

/// Manhattan distance between two squares.
pub open spec fn manhattan(r1: int, f1: int, r2: int, f2: int) -> int {
    (if r1 >= r2 { r1 - r2 } else { r2 - r1 }) + (if f1 >= f2 { f1 - f2 } else { f2 - f1 })
}

/// Letter that names a rank: `A` for rank 0, `B` for rank 1, and so on.
pub open spec fn rank_letter(rank: int) -> char {
    (65 + rank) as char
}

/// Digit that names a file.
pub open spec fn file_digit(file: int) -> char {
    (48 + file) as char
}

/// Absolute difference of two small numbers.
fn gap(a: u8, b: u8) -> (r: u8)
    ensures
        r == (if a >= b { a - b } else { b - a }),
{
    if a >= b {
        a - b
    } else {
        b - a
    }
}

impl Coord {
    #[verifier::type_invariant]
    pub open spec fn inv(self) -> bool {
        on_board(self.r(), self.f())
    }

    /// The rank of the square, as a mathematical integer.
    pub closed spec fn r(self) -> int {
        self.rank as int
    }

    /// The file of the square, as a mathematical integer.
    pub closed spec fn f(self) -> int {
        self.file as int
    }

    /// The square at (rank, file), which the caller knows to be on the board.
    pub(crate) fn at(rank: u8, file: u8) -> (r: Coord)
        requires
            on_board(rank as int, file as int),
        ensures
            r.r() == rank,
            r.f() == file,
            r == Coord::spec_at(rank as int, file as int),
    {
        Coord { rank, file }
    }

    /// The square at (rank, file), for ranks and files on the board.
    pub closed spec fn spec_at(rank: int, file: int) -> Coord {
        Coord { rank: rank as u8, file: file as u8 }
    }

    pub proof fn lemma_spec_at(rank: int, file: int)
        requires
            on_board(rank, file),
        ensures
            Coord::spec_at(rank, file).r() == rank,
            Coord::spec_at(rank, file).f() == file,
            Coord::spec_at(rank, file).inv(),
    {
    }

    /// Two squares with the same rank and file are the same square.
    pub proof fn lemma_ext(a: Coord, b: Coord)
        requires
            a.r() == b.r(),
            a.f() == b.f(),
        ensures
            a == b,
    {
    }

    /// Builds the square at (rank, file), or nothing when it is off the board.
    pub fn new(rank: usize, file: usize) -> (r: Option<Coord>)
        ensures
            r is Some <==> on_board(rank as int, file as int),
            r matches Some(c) ==> c.r() == rank && c.f() == file,
    {
        if rank < BOARD_RANKS as usize && file < BOARD_FILES as usize {
            Some(Coord { rank: rank as u8, file: file as u8 })
        } else {
            None
        }
    }

    pub fn rank(&self) -> (r: u8)
        ensures
            r == self.r(),
            r < BOARD_RANKS,
    {
        proof {
            use_type_invariant(self);
        }
        self.rank
    }

    pub fn file(&self) -> (r: u8)
        ensures
            r == self.f(),
            r < BOARD_FILES,
    {
        proof {
            use_type_invariant(self);
        }
        self.file
    }

    /// Name of the square: the letter of its rank followed by the digit of its file
    /// (`A3` is rank 0, file 3).
    pub fn to_string(&self) -> (r: String)
        ensures
            r@ == seq![rank_letter(self.r()), file_digit(self.f())],
    {
        proof {
            use_type_invariant(self);
        }
        let letter = (65u8 + self.rank) as char;
        let digit = (48u8 + self.file) as char;
        let mut chars: Vec<char> = Vec::new();
        chars.push(letter);
        chars.push(digit);
        assert(chars@ =~= seq![rank_letter(self.r()), file_digit(self.f())]);
        string_of(chars)
    }

    /// Manhattan distance to `other`: the sum of the differences of ranks and of files.
    pub fn distance(&self, other: Coord) -> (r: u8)
        ensures
            r == manhattan(self.r(), self.f(), other.r(), other.f()),
    {
        proof {
            use_type_invariant(self);
            use_type_invariant(&other);
        }
        gap(self.rank, other.rank) + gap(self.file, other.file)
    }
}

impl Default for Coord {
    /// The corner square at rank 0, file 0.
    fn default() -> (r: Coord)
        ensures
            r.r() == 0 && r.f() == 0,
    {
        Coord { rank: 0, file: 0 }
    }
}

/// A move of the piece standing at `from` to `to`.
#[derive(Clone, Copy, Debug, PartialEq, Eq, Structural)]
pub struct Move {
    pub from: Coord,
    pub to: Coord,
}

} // verus!

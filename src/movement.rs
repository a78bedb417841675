use vstd::prelude::*;

use crate::board::{index_of, square, Board};
use crate::constants::{BOARD_FILES, BOARD_RANKS, BOARD_TILES};
use crate::coord::{on_board, Coord};
use crate::tile::Tile;

verus! {

/// True when a piece standing at `start` can get to (rank, file) in at most `steps`
/// orthogonal steps, each of them onto an empty tile of the board.
pub open spec fn reachable(tiles: Seq<Tile>, start: Coord, steps: nat, rank: int, file: int) -> bool
    decreases steps,
{
    if steps == 0 {
        rank == start.r() && file == start.f()
    } else {
        let k = (steps - 1) as nat;
        reachable(tiles, start, k, rank, file) || (on_board(rank, file)
            && tiles[square(rank, file)].piece_option is None && (reachable(
            tiles,
            start,
            k,
            rank + 1,
            file,
        ) || reachable(tiles, start, k, rank - 1, file) || reachable(tiles, start, k, rank, file + 1)
            || reachable(tiles, start, k, rank, file - 1)))
    }
}

/// True when a piece at `start` that makes up to `steps` steps may end its move on `d`.
pub open spec fn is_destination(tiles: Seq<Tile>, start: Coord, steps: nat, d: Coord) -> bool {
    d != start && reachable(tiles, start, steps, d.r(), d.f())
}

/// Whatever is reachable lies on the board.
pub proof fn lemma_reachable_on_board(
    tiles: Seq<Tile>,
    start: Coord,
    steps: nat,
    rank: int,
    file: int,
)
    requires
        on_board(start.r(), start.f()),
        reachable(tiles, start, steps, rank, file),
    ensures
        on_board(rank, file),
    decreases steps,
{
    if steps > 0 {
        let k = (steps - 1) as nat;
        if reachable(tiles, start, k, rank, file) {
            lemma_reachable_on_board(tiles, start, k, rank, file);
        }
    }
}

/// Marks over the squares of the board, rank by rank, that flag exactly what is
/// reachable in `steps` steps.
spec fn marks_reach(marks: Seq<bool>, tiles: Seq<Tile>, start: Coord, steps: nat) -> bool {
    &&& marks.len() == BOARD_TILES
    &&& forall|rank: int, file: int|
        on_board(rank, file) ==> #[trigger] marks[square(rank, file)] == reachable(
            tiles,
            start,
            steps,
            rank,
            file,
        )
}

/// Mark of (rank, file), or false off the board.
spec fn mark_or_false(marks: Seq<bool>, rank: int, file: int) -> bool {
    on_board(rank, file) && marks[square(rank, file)]
}

proof fn lemma_mark_or_false(
    marks: Seq<bool>,
    tiles: Seq<Tile>,
    start: Coord,
    steps: nat,
    rank: int,
    file: int,
)
    requires
        on_board(start.r(), start.f()),
        marks_reach(marks, tiles, start, steps),
    ensures
        mark_or_false(marks, rank, file) == reachable(tiles, start, steps, rank, file),
{
    if reachable(tiles, start, steps, rank, file) {
        lemma_reachable_on_board(tiles, start, steps, rank, file);
    }
    if on_board(rank, file) {
        assert(marks[square(rank, file)] == reachable(tiles, start, steps, rank, file));
    }
}

/// Extends the marks of what is reachable in `steps` steps by one more step.
fn spread(tiles: &[Tile], start: Coord, marks: &Vec<bool>, Ghost(steps): Ghost<nat>) -> (r: Vec<
    bool,
>)
    requires
        tiles@.len() == BOARD_TILES,
        on_board(start.r(), start.f()),
        marks_reach(marks@, tiles@, start, steps),
    ensures
        marks_reach(r@, tiles@, start, steps + 1),
{
    let mut next: Vec<bool> = Vec::new();
    let mut rank: usize = 0;
    while rank < BOARD_RANKS as usize
        invariant
            rank <= BOARD_RANKS,
            tiles@.len() == BOARD_TILES,
            on_board(start.r(), start.f()),
            marks_reach(marks@, tiles@, start, steps),
            next@.len() == rank * BOARD_FILES,
            forall|r: int, f: int|
                on_board(r, f) && square(r, f) < next@.len() ==> #[trigger] next@[square(r, f)]
                    == reachable(tiles@, start, steps + 1, r, f),
        decreases BOARD_RANKS - rank,
    {
        let mut file: usize = 0;
        while file < BOARD_FILES as usize
            invariant
                rank < BOARD_RANKS,
                file <= BOARD_FILES,
                tiles@.len() == BOARD_TILES,
                on_board(start.r(), start.f()),
                marks_reach(marks@, tiles@, start, steps),
                next@.len() == rank * BOARD_FILES + file,
                forall|r: int, f: int|
                    on_board(r, f) && square(r, f) < next@.len() ==> #[trigger] next@[square(r, f)]
                        == reachable(tiles@, start, steps + 1, r, f),
            decreases BOARD_FILES - file,
        {
            let i = rank * BOARD_FILES as usize + file;
            let here = marks[i];
            let empty = match tiles[i].piece_option {
                None => true,
                Some(_) => false,
            };
            let up = rank + 1 < BOARD_RANKS as usize && marks[i + BOARD_FILES as usize];
            let down = rank > 0 && marks[i - BOARD_FILES as usize];
            let right = file + 1 < BOARD_FILES as usize && marks[i + 1];
            let left = file > 0 && marks[i - 1];
            proof {
                let (r, f) = (rank as int, file as int);
                lemma_mark_or_false(marks@, tiles@, start, steps, r, f);
                lemma_mark_or_false(marks@, tiles@, start, steps, r + 1, f);
                lemma_mark_or_false(marks@, tiles@, start, steps, r - 1, f);
                lemma_mark_or_false(marks@, tiles@, start, steps, r, f + 1);
                lemma_mark_or_false(marks@, tiles@, start, steps, r, f - 1);
                assert(i == square(r, f));
                assert(rank + 1 < BOARD_RANKS ==> i + BOARD_FILES == square(r + 1, f));
                assert(rank > 0 ==> i - BOARD_FILES == square(r - 1, f));
            }
            next.push(here || (empty && (up || down || right || left)));
            proof {
                assert forall|r: int, f: int|
                    on_board(r, f) && square(r, f) < next@.len() implies #[trigger] next@[square(
                        r,
                        f,
                    )] == reachable(tiles@, start, steps + 1, r, f) by {
                    if square(r, f) == i {
                        assert(r == rank && f == file);
                    }
                }
            }
            file = file + 1;
        }
        rank = rank + 1;
    }
    next
}

/// Every square other than `start` that a piece at `start` reaches in at most `steps`
/// orthogonal steps over empty tiles, each once, rank by rank.
pub fn reachable_squares(board: &Board, start: Coord, steps: u8) -> (r: Vec<Coord>)
    ensures
        forall|d: Coord| r@.contains(d) <==> is_destination(board@, start, steps as nat, d),
        r@.no_duplicates(),
{
    proof {
        use_type_invariant(board);
        use_type_invariant(&start);
    }
    let tiles = board.iter();
    let s = index_of(start);
    let mut marks: Vec<bool> = Vec::new();
    let mut i: usize = 0;
    while i < BOARD_TILES
        invariant
            i <= BOARD_TILES,
            marks@.len() == i,
            forall|j: int| 0 <= j < i ==> marks@[j] == (j == s),
        decreases BOARD_TILES - i,
    {
        marks.push(i == s);
        i = i + 1;
    }
    proof {
        assert forall|r: int, f: int| on_board(r, f) implies #[trigger] marks@[square(r, f)]
            == reachable(tiles@, start, 0, r, f) by {
            if square(r, f) == s {
                assert(r == start.r() && f == start.f());
            }
        }
    }
    let mut k: u8 = 0;
    while k < steps
        invariant
            k <= steps,
            tiles@ == board@,
            tiles@.len() == BOARD_TILES,
            on_board(start.r(), start.f()),
            marks_reach(marks@, tiles@, start, k as nat),
        decreases steps - k,
    {
        marks = spread(tiles, start, &marks, Ghost(k as nat));
        k = k + 1;
    }
    collect(start, &marks, Ghost(tiles@), Ghost(steps as nat))
}

/// The squares other than `start` flagged by `marks`, rank by rank.
fn collect(start: Coord, marks: &Vec<bool>, Ghost(tiles): Ghost<Seq<Tile>>, Ghost(steps): Ghost<
    nat,
>) -> (r: Vec<Coord>)
    requires
        on_board(start.r(), start.f()),
        marks_reach(marks@, tiles, start, steps),
    ensures
        forall|d: Coord| r@.contains(d) <==> is_destination(tiles, start, steps, d),
        r@.no_duplicates(),
{
    let s = index_of(start);
    let mut out: Vec<Coord> = Vec::new();
    let mut rank: u8 = 0;
    proof {
        assert forall|d: Coord| is_destination(tiles, start, steps, d) implies square(d.r(), d.f())
            >= 0 by {
            lemma_reachable_on_board(tiles, start, steps, d.r(), d.f());
        }
    }
    while rank < BOARD_RANKS
        invariant
            rank <= BOARD_RANKS,
            s == square(start.r(), start.f()),
            on_board(start.r(), start.f()),
            marks_reach(marks@, tiles, start, steps),
            forall|d: Coord|
                out@.contains(d) <==> (is_destination(tiles, start, steps, d) && square(
                    d.r(),
                    d.f(),
                ) < rank * BOARD_FILES),
            forall|a: int, b: int|
                0 <= a < b < out@.len() ==> square(out@[a].r(), out@[a].f()) < square(
                    out@[b].r(),
                    out@[b].f(),
                ),
            forall|a: int|
                0 <= a < out@.len() ==> square(out@[a].r(), out@[a].f()) < rank * BOARD_FILES,
        decreases BOARD_RANKS - rank,
    {
        let mut file: u8 = 0;
        while file < BOARD_FILES
            invariant
                rank < BOARD_RANKS,
                file <= BOARD_FILES,
                s == square(start.r(), start.f()),
                on_board(start.r(), start.f()),
                marks_reach(marks@, tiles, start, steps),
                forall|d: Coord|
                    out@.contains(d) <==> (is_destination(tiles, start, steps, d) && square(
                        d.r(),
                        d.f(),
                    ) < rank * BOARD_FILES + file),
                forall|a: int, b: int|
                    0 <= a < b < out@.len() ==> square(out@[a].r(), out@[a].f()) < square(
                        out@[b].r(),
                        out@[b].f(),
                    ),
                forall|a: int|
                    0 <= a < out@.len() ==> square(out@[a].r(), out@[a].f()) < rank * BOARD_FILES
                        + file,
            decreases BOARD_FILES - file,
        {
            let i = rank as usize * BOARD_FILES as usize + file as usize;
            assert(marks@[square(rank as int, file as int)] == reachable(
                tiles,
                start,
                steps,
                rank as int,
                file as int,
            ));
            if marks[i] && i != s {
                let c = Coord::at(rank, file);
                let ghost old_out = out@;
                out.push(c);
                proof {
                    assert(c != start) by {
                        if c == start {
                            assert(square(c.r(), c.f()) == s);
                        }
                    }
                    assert(is_destination(tiles, start, steps, c));
                    assert forall|d: Coord|
                        out@.contains(d) <==> (is_destination(tiles, start, steps, d) && square(
                            d.r(),
                            d.f(),
                        ) < rank * BOARD_FILES + file + 1) by {
                        if out@.contains(d) {
                            if d != c {
                                let j = choose|j: int| 0 <= j < out@.len() && out@[j] == d;
                                if j == old_out.len() {
                                    assert(out@[j] == c);
                                } else {
                                    assert(old_out[j] == d);
                                    assert(old_out.contains(d));
                                }
                            }
                        }
                        if is_destination(tiles, start, steps, d) && square(d.r(), d.f()) < rank
                            * BOARD_FILES + file + 1 {
                            lemma_reachable_on_board(tiles, start, steps, d.r(), d.f());
                            if square(d.r(), d.f()) == i {
                                assert(d.r() == rank && d.f() == file);
                                Coord::lemma_ext(d, c);
                                assert(out@[old_out.len() as int] == c);
                            } else {
                                assert(old_out.contains(d));
                                let j = choose|j: int| 0 <= j < old_out.len() && old_out[j] == d;
                                assert(out@[j] == d);
                            }
                        }
                    }
                }
            } else {
                proof {
                    assert forall|d: Coord|
                        out@.contains(d) <==> (is_destination(tiles, start, steps, d) && square(
                            d.r(),
                            d.f(),
                        ) < rank * BOARD_FILES + file + 1) by {
                        if is_destination(tiles, start, steps, d) {
                            lemma_reachable_on_board(tiles, start, steps, d.r(), d.f());
                            if square(d.r(), d.f()) == i {
                                assert(d.r() == rank && d.f() == file);
                                if d != start {
                                    assert(marks@[i as int]);
                                    assert(i == s);
                                    assert(d.r() == start.r() && d.f() == start.f());
                                    Coord::lemma_ext(d, start);
                                }
                            }
                        }
                    }
                }
            }
            file = file + 1;
        }
        rank = rank + 1;
    }
    proof {
        assert forall|d: Coord| is_destination(tiles, start, steps, d) implies out@.contains(d) by {
            lemma_reachable_on_board(tiles, start, steps, d.r(), d.f());
        }
        assert forall|a: int, b: int| 0 <= a < out@.len() && 0 <= b < out@.len() && a != b implies out@[a]
            != out@[b] by {
            if a < b {
                assert(square(out@[a].r(), out@[a].f()) < square(out@[b].r(), out@[b].f()));
            } else {
                assert(square(out@[b].r(), out@[b].f()) < square(out@[a].r(), out@[a].f()));
            }
        }
    }
    out
}

} // verus!

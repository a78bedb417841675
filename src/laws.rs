use vstd::prelude::*;

use crate::board::{square, tile_at};
use crate::coord::{Coord, Move};
use crate::game::{
    after_command, after_end_turn, after_move, command_result, move_allowed, purchase_allowed,
    Action, Command, GameView,
};
use crate::pieces::Piece;
use crate::player::Player;
use crate::tile::Tile;

verus! {

/// A refused command leaves the state as it was, so submitting it again is refused
/// again, with the same error, and again changes nothing.
pub proof fn lemma_rejection_idempotent(v: GameView, c: Command)
    requires
        command_result(v, c) is Err,
    ensures
        after_command(v, c) == v,
        command_result(after_command(v, c), c) == command_result(v, c),
        after_command(after_command(v, c), c) == v,
{
}

/// What a command takes from the treasury of `p`: the cost of an allowed purchase of
/// the current player, and nothing otherwise.
pub open spec fn spent(v: GameView, c: Command, p: Player) -> int {
    match c {
        Command::Purchase(t, at) => if purchase_allowed(v, t, at) && p == v.cur_player {
            t.spec_cost() as int
        } else {
            0
        },
        _ => 0,
    }
}

/// No command takes more from a treasury than it holds: the treasury after a command is
/// what it held minus what the command spent, and that is never negative. Ending a turn
/// never lowers a treasury.
pub proof fn lemma_treasury_never_negative(v: GameView, c: Command, p: Player)
    requires
        v.wf(),
    ensures
        0 <= v.money_of(p) - spent(v, c, p),
        after_command(v, c).money_of(p) == v.money_of(p) - spent(v, c, p),
        after_end_turn(v).money_of(p) >= v.money_of(p),
{
}

/// The state after one action.
pub open spec fn after_action(v: GameView, a: Action) -> GameView {
    match a {
        Action::Command(c) => after_command(v, c),
        Action::EndTurn => after_end_turn(v),
    }
}

/// The state after a sequence of actions, taken in order.
pub open spec fn after_actions(v: GameView, actions: Seq<Action>) -> GameView
    decreases actions.len(),
{
    if actions.len() == 0 {
        v
    } else {
        after_action(after_actions(v, actions.drop_last()), actions.last())
    }
}

/// True when every square that the action names lies on the board.
pub open spec fn action_valid(a: Action) -> bool {
    match a {
        Action::Command(c) => c.coords_valid(),
        Action::EndTurn => true,
    }
}

/// Every action keeps one tile per square and one treasury per player.
pub proof fn lemma_action_keeps_shape(v: GameView, a: Action)
    requires
        v.wf(),
        action_valid(a),
    ensures
        after_action(v, a).wf(),
{
    if let Action::Command(c) = a {
        match c {
            Command::Move(m) => {
                assert(0 <= square(m.to.r(), m.to.f()) < v.tiles.len());
                assert(0 <= square(m.from.r(), m.from.f()) < v.tiles.len());
            },
            Command::Purchase(_, at) => {
                assert(0 <= square(at.r(), at.f()) < v.tiles.len());
            },
            Command::Battle { .. } => {},
        }
    }
}

/// Along any sequence of actions the state keeps its shape, and each command spends at
/// most what the treasury holds, so no treasury ever goes below zero.
pub proof fn lemma_treasuries_along_actions(v: GameView, actions: Seq<Action>, p: Player)
    requires
        v.wf(),
        forall|i: int| 0 <= i < actions.len() ==> action_valid(#[trigger] actions[i]),
    ensures
        after_actions(v, actions).wf(),
        forall|c: Command|
            0 <= #[trigger] after_actions(v, actions).money_of(p) - spent(
                after_actions(v, actions),
                c,
                p,
            ),
    decreases actions.len(),
{
    if actions.len() > 0 {
        let before = actions.drop_last();
        assert forall|i: int| 0 <= i < before.len() implies action_valid(#[trigger] before[i]) by {
            assert(before[i] == actions[i]);
        }
        lemma_treasuries_along_actions(v, before, p);
        lemma_action_keeps_shape(after_actions(v, before), actions.last());
    }
    let w = after_actions(v, actions);
    assert forall|c: Command| 0 <= #[trigger] w.money_of(p) - spent(w, c, p) by {
        lemma_treasury_never_negative(w, c, p);
    }
}

/// Ending a turn hands it to the other player; ending two turns gives it back. A command
/// never changes whose turn it is.
pub proof fn lemma_turn_alternation(v: GameView, c: Command)
    ensures
        after_end_turn(v).cur_player == v.cur_player.opponent(),
        after_end_turn(v).cur_player != v.cur_player,
        after_end_turn(after_end_turn(v)).cur_player == v.cur_player,
        after_command(v, c).cur_player == v.cur_player,
{
}

/// A command never refreshes a piece: every piece that is not exhausted after a command
/// stood on the same tile, unchanged, before it. So a piece that moved or was bought is
/// exhausted.
pub proof fn lemma_commands_keep_exhaustion(v: GameView, c: Command, i: int)
    requires
        v.wf(),
        c.coords_valid(),
        0 <= i < v.tiles.len(),
        after_command(v, c).tiles[i].piece_option matches Some(p) && !p.exhausted,
    ensures
        after_command(v, c).tiles[i] == v.tiles[i],
{
    match c {
        Command::Move(m) => {
            if move_allowed(v, m) {
                let to = square(m.to.r(), m.to.f());
                let from = square(m.from.r(), m.from.f());
                assert(0 <= to < v.tiles.len() && 0 <= from < v.tiles.len());
                if i != to && i != from {
                    assert(after_command(v, c).tiles[i] == v.tiles[i]);
                }
            }
        },
        Command::Purchase(t, at) => {
            if purchase_allowed(v, t, at) {
                assert(0 <= square(at.r(), at.f()) < v.tiles.len());
            }
        },
        Command::Battle { .. } => {},
    }
}

/// Ending a turn refreshes every piece of the player whose turn it was and touches no
/// other tile.
pub proof fn lemma_end_turn_refreshes(v: GameView, i: int)
    requires
        v.wf(),
        0 <= i < v.tiles.len(),
    ensures
        ({
            let after = after_end_turn(v).tiles[i];
            after.piece_option is Some && after.piece_option->Some_0.owner == v.cur_player
                ==> !after.piece_option->Some_0.exhausted
        }),
        match v.tiles[i].piece_option {
            Some(p) => if p.owner == v.cur_player {
                after_end_turn(v).tiles[i] == Tile {
                    piece_option: Some(Piece { exhausted: false, ..p }),
                    tile_type: v.tiles[i].tile_type,
                }
            } else {
                after_end_turn(v).tiles[i] == v.tiles[i]
            },
            None => after_end_turn(v).tiles[i] == v.tiles[i],
        },
{
}

/// An allowed move leaves its origin empty and its target holding the moved piece,
/// exhausted, and changes no other tile.
pub proof fn lemma_move_occupancy(v: GameView, m: Move)
    requires
        v.wf(),
        m.from.inv(),
        m.to.inv(),
        move_allowed(v, m),
    ensures
        m.from != m.to,
        tile_at(after_move(v, m).tiles, m.from).piece_option is None,
        tile_at(after_move(v, m).tiles, m.to).piece_option == Some(
            Piece { exhausted: true, ..tile_at(v.tiles, m.from).piece_option->Some_0 },
        ),
        forall|i: int|
            0 <= i < v.tiles.len() && i != square(m.from.r(), m.from.f()) && i != square(
                m.to.r(),
                m.to.f(),
            ) ==> after_move(v, m).tiles[i] == v.tiles[i],
{
    if square(m.from.r(), m.from.f()) == square(m.to.r(), m.to.f()) {
        Coord::lemma_ext(m.from, m.to);
    }
}

} // verus!

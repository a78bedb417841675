use vstd::prelude::*;

use crate::board::{can_move, square, starting_tiles, tile_at, Board};
use crate::constants::{BASE_INCOME, BOARD_TILES, STARTING_MONEY};
use crate::coord::{Coord, Move};
use crate::errors::{BattleError, CommandError, MoveError, PurchaseError};
use crate::pieces::{Piece, PieceType};
use crate::player::Player;
use crate::tile::{Tile, TileType};

verus! {

/// What a player does: a command, or handing the turn over.
#[derive(Clone, Debug, PartialEq, Eq)]
pub enum Action {
    Command(Command),
    EndTurn,
}

/// Where the game stands after an action.
#[must_use]
#[derive(Clone, Debug, PartialEq, Eq)]
pub enum ActionOutcome {
    Ongoing(Box<Game>),
    Draw,
    Winner(Player),
}

/// A command that the current player submits.
#[derive(Clone, Debug, PartialEq, Eq)]
pub enum Command {
    Move(Move),
    Purchase(PieceType, Coord),
    Battle { attack_commands: Vec<AttackCommand>, defense_commands: Vec<DefenseCommand>, target: Coord },
}

impl Command {
    /// True when every square the command names lies on the board, as every square
    /// built by this library does.
    pub open spec fn coords_valid(self) -> bool {
        match self {
            Command::Move(m) => m.from.inv() && m.to.inv(),
            Command::Purchase(_, c) => c.inv(),
            Command::Battle { target, .. } => target.inv(),
        }
    }
}

/// What an attacking piece does in a battle.
#[derive(Clone, Copy, Debug, PartialEq, Eq, Structural)]
pub enum AttackCommand {
    Attack(Coord),
    MoveAttack(Move),
}

/// What a defending piece does in a battle.
#[derive(Clone, Copy, Debug, PartialEq, Eq, Structural)]
pub enum DefenseCommand {
    Defend(Coord),
    Retreat(Move),
}

/// The whole state of a game: the board, the treasuries and whose turn it is.
#[derive(Clone, Debug, PartialEq, Eq)]
pub struct Game {
    board: Board,
    player_money: [u8; 2],
    cur_player: Player,
}

/// The state of a game as mathematical values.
#[verifier::ext_equal]
pub struct GameView {
    /// The tiles, rank by rank.
    pub tiles: Seq<Tile>,
    /// The treasuries, first player's first.
    pub money: Seq<u8>,
    /// The player whose turn it is.
    pub cur_player: Player,
}

impl GameView {
    /// The treasury of `player`.
    pub open spec fn money_of(self, player: Player) -> u8 {
        self.money[player.slot()]
    }

    /// Shape of every state: one tile per square, one treasury per player.
    pub open spec fn wf(self) -> bool {
        self.tiles.len() == BOARD_TILES && self.money.len() == 2
    }
}

impl View for Game {
    type V = GameView;

    closed spec fn view(&self) -> GameView {
        GameView { tiles: self.board@, money: self.player_money@, cur_player: self.cur_player }
    }
}

/// A game as it starts: the starting board, each treasury at its starting amount,
/// the first player to move.
pub open spec fn starting_view() -> GameView {
    GameView {
        tiles: starting_tiles(),
        money: seq![STARTING_MONEY, STARTING_MONEY],
        cur_player: Player::P1,
    }
}

/// True when move `m` is allowed in state `v`.
pub open spec fn move_allowed(v: GameView, m: Move) -> bool {
    can_move(v.tiles, m.from, m.to)
}

/// The state after the allowed move `m`: the piece leaves `m.from` for `m.to`, exhausted.
pub open spec fn after_move(v: GameView, m: Move) -> GameView {
    let from = tile_at(v.tiles, m.from);
    let to = tile_at(v.tiles, m.to);
    let piece = from.piece_option->Some_0;
    let moved = Piece { owner: piece.owner, exhausted: true, piece_type: piece.piece_type };
    GameView {
        tiles: v.tiles.update(
            square(m.to.r(), m.to.f()),
            Tile { piece_option: Some(moved), tile_type: to.tile_type },
        ).update(square(m.from.r(), m.from.f()), Tile { piece_option: None, tile_type: from.tile_type }),
        money: v.money,
        cur_player: v.cur_player,
    }
}

/// True when the current player may buy a unit of kind `t` on `c`: the treasury covers
/// its cost, `c` is that player's baseline, and nothing stands there.
pub open spec fn purchase_allowed(v: GameView, t: PieceType, c: Coord) -> bool {
    &&& t.spec_cost() <= v.money_of(v.cur_player)
    &&& tile_at(v.tiles, c).spec_produces_troops(v.cur_player)
    &&& tile_at(v.tiles, c).piece_option is None
}

/// The state after the allowed purchase: the cost leaves the treasury, and an exhausted
/// unit of the current player stands on `c`.
pub open spec fn after_purchase(v: GameView, t: PieceType, c: Coord) -> GameView {
    let piece = Piece { owner: v.cur_player, exhausted: true, piece_type: t };
    GameView {
        tiles: v.tiles.update(
            square(c.r(), c.f()),
            Tile { piece_option: Some(piece), tile_type: tile_at(v.tiles, c).tile_type },
        ),
        money: v.money.update(
            v.cur_player.slot(),
            (v.money_of(v.cur_player) - t.spec_cost()) as u8,
        ),
        cur_player: v.cur_player,
    }
}

/// What a command returns in state `v`.
pub open spec fn command_result(v: GameView, c: Command) -> Result<(), CommandError> {
    match c {
        Command::Move(m) => if move_allowed(v, m) {
            Ok(())
        } else {
            Err(CommandError::Move(MoveError))
        },
        Command::Purchase(t, at) => if purchase_allowed(v, t, at) {
            Ok(())
        } else {
            Err(CommandError::Purchase(PurchaseError))
        },
        Command::Battle { .. } => Err(CommandError::Battle(BattleError)),
    }
}

/// The state after a command in state `v`; a refused command changes nothing.
pub open spec fn after_command(v: GameView, c: Command) -> GameView {
    match c {
        Command::Move(m) => if move_allowed(v, m) {
            after_move(v, m)
        } else {
            v
        },
        Command::Purchase(t, at) => if purchase_allowed(v, t, at) {
            after_purchase(v, t, at)
        } else {
            v
        },
        Command::Battle { .. } => v,
    }
}

/// True when `t` is a town on which a convoy of `player` stands.
pub open spec fn holds_town(t: Tile, player: Player) -> bool {
    &&& t.spec_gives_income()
    &&& t.piece_option matches Some(p) && p.owner == player && p.piece_type == PieceType::Convoy
}

/// Number of towns in `tiles` on which a convoy of `player` stands.
pub open spec fn towns_held(tiles: Seq<Tile>, player: Player) -> nat
    decreases tiles.len(),
{
    if tiles.len() == 0 {
        0
    } else {
        towns_held(tiles.drop_last(), player) + if holds_town(tiles.last(), player) {
            1nat
        } else {
            0nat
        }
    }
}

/// What `player` earns at upkeep: the base income and one for each town held.
pub open spec fn income(tiles: Seq<Tile>, player: Player) -> nat {
    (BASE_INCOME + towns_held(tiles, player)) as nat
}

/// The tile after upkeep of `player`: a piece of that player is no longer exhausted.
pub open spec fn refreshed(t: Tile, player: Player) -> Tile {
    match t.piece_option {
        Some(p) => if p.owner == player {
            Tile {
                piece_option: Some(Piece { owner: p.owner, exhausted: false, piece_type: p.piece_type }),
                tile_type: t.tile_type,
            }
        } else {
            t
        },
        None => t,
    }
}

/// A treasury after income `gain`, held at the largest amount a treasury can hold.
pub open spec fn credited(money: u8, gain: nat) -> u8 {
    if money + gain > u8::MAX {
        u8::MAX
    } else {
        (money + gain) as u8
    }
}

/// The state after the current player ends the turn: the turn passes to the opponent,
/// and the player who ended it earns income and has every piece refreshed.
pub open spec fn after_end_turn(v: GameView) -> GameView {
    let p = v.cur_player;
    GameView {
        tiles: Seq::new(v.tiles.len(), |i: int| refreshed(v.tiles[i], p)),
        money: v.money.update(p.slot(), credited(v.money_of(p), income(v.tiles, p))),
        cur_player: p.opponent(),
    }
}

/// True when `c` is in `moves`.
fn listed(moves: &Vec<Coord>, c: Coord) -> (r: bool)
    ensures
        r == moves@.contains(c),
{
    let mut i: usize = 0;
    while i < moves.len()
        invariant
            i <= moves@.len(),
            forall|j: int| 0 <= j < i ==> moves@[j] != c,
        decreases moves@.len() - i,
    {
        if moves[i] == c {
            return true;
        }
        i = i + 1;
    }
    false
}

impl Default for Game {
    /// A game as it starts.
    fn default() -> (r: Game)
        ensures
            r@ == starting_view(),
    {
        let r = Game {
            board: Board::new(),
            player_money: [STARTING_MONEY, STARTING_MONEY],
            cur_player: Player::P1,
        };
        assert(r@ =~= starting_view());
        r
    }
}

impl std::ops::Index<Player> for Game {
    type Output = u8;

    /// The treasury of `player`.
    fn index(&self, player: Player) -> (r: &u8)
        ensures
            *r == self@.money_of(player),
    {
        match player {
            Player::P1 => &self.player_money[0],
            Player::P2 => &self.player_money[1],
        }
    }
}

impl Game {
    /// A game as it starts: the starting board, each treasury at its starting amount,
    /// the first player to move.
    pub fn new() -> (r: Box<Game>)
        ensures
            r@ == starting_view(),
    {
        Box::new(Game::default())
    }

    /// The game with this board, these treasuries (first player's first) and this player
    /// to move, as a saved game is restored.
    pub fn from_parts(board: Board, player_money: [u8; 2], cur_player: Player) -> (r: Game)
        ensures
            r@ == (GameView { tiles: board@, money: player_money@, cur_player }),
    {
        Game { board, player_money, cur_player }
    }

    pub fn board(&self) -> (r: &Board)
        ensures
            r@ == self@.tiles,
    {
        &self.board
    }

    pub fn cur_player(&self) -> (r: Player)
        ensures
            r == self@.cur_player,
    {
        self.cur_player
    }

    /// The treasury of `player`.
    pub fn money(&self, player: Player) -> (r: u8)
        ensures
            r == self@.money_of(player),
    {
        match player {
            Player::P1 => self.player_money[0],
            Player::P2 => self.player_money[1],
        }
    }

    /// Sets the treasury of `player`.
    fn set_money(&mut self, player: Player, amount: u8)
        ensures
            final(self)@ == (GameView {
                money: old(self)@.money.update(player.slot(), amount),
                ..old(self)@
            }),
    {
        match player {
            Player::P1 => self.player_money[0] = amount,
            Player::P2 => self.player_money[1] = amount,
        }
        assert(self@ =~= (GameView { money: old(self)@.money.update(player.slot(), amount), ..old(self)@ }));
    }

    /// Moves the piece at `m.from` to `m.to`, exhausted; refuses, changing nothing, a move
    /// that the piece cannot make.
    pub fn do_move(&mut self, m: Move) -> (r: Result<(), MoveError>)
        ensures
            r is Ok <==> move_allowed(old(self)@, m),
            final(self)@ == (if r is Ok {
                after_move(old(self)@, m)
            } else {
                old(self)@
            }),
    {
        let allowed = match self.board.get_moves(m.from) {
            Some(moves) => listed(&moves, m.to),
            None => false,
        };
        if !allowed {
            return Err(MoveError);
        }
        let from = self.board.get(m.from);
        let to = self.board.get(m.to);
        let moved = match from.piece_option {
            Some(p) => Some(Piece { owner: p.owner, exhausted: true, piece_type: p.piece_type }),
            None => None,
        };
        self.board.set(m.to, Tile { piece_option: moved, tile_type: to.tile_type });
        self.board.set(m.from, Tile { piece_option: None, tile_type: from.tile_type });
        assert(self@ =~= after_move(old(self)@, m));
        Ok(())
    }

    /// Buys a unit of kind `piece_type` for the current player on `coord`; refuses,
    /// changing nothing, when the treasury is short, `coord` is not that player's
    /// baseline, or a piece stands there.
    pub fn do_purchase(&mut self, piece_type: PieceType, coord: Coord) -> (r: Result<
        (),
        PurchaseError,
    >)
        ensures
            r is Ok <==> purchase_allowed(old(self)@, piece_type, coord),
            final(self)@ == (if r is Ok {
                after_purchase(old(self)@, piece_type, coord)
            } else {
                old(self)@
            }),
    {
        let cur = self.cur_player;
        let cost = piece_type.cost();
        let money = self.money(cur);
        if cost > money {
            return Err(PurchaseError);
        }
        let tile = self.board.get(coord);
        if !tile.produces_troops(cur) {
            return Err(PurchaseError);
        }
        if tile.piece_option.is_some() {
            return Err(PurchaseError);
        }
        self.set_money(cur, money - cost);
        self.board.set(
            coord,
            Tile { piece_option: Some(Piece::new(cur, piece_type)), tile_type: tile.tile_type },
        );
        assert(self@ =~= after_purchase(old(self)@, piece_type, coord));
        Ok(())
    }

    /// Resolves a battle. Battles are not resolved yet: this always refuses, changing nothing.
    pub fn do_battle(
        &mut self,
        attack_commands: Vec<AttackCommand>,
        defense_commands: Vec<DefenseCommand>,
        target: Coord,
    ) -> (r: Result<(), BattleError>)
        ensures
            r == Err::<(), BattleError>(BattleError),
            final(self)@ == old(self)@,
    {
        Err(BattleError)
    }

    /// Carries out `command`; a refused command changes nothing.
    pub fn do_command(&mut self, command: Command) -> (r: Result<(), CommandError>)
        ensures
            r == command_result(old(self)@, command),
            final(self)@ == after_command(old(self)@, command),
    {
        match command {
            Command::Move(m) => match self.do_move(m) {
                Ok(()) => Ok(()),
                Err(e) => Err(CommandError::Move(e)),
            },
            Command::Purchase(piece_type, coord) => match self.do_purchase(piece_type, coord) {
                Ok(()) => Ok(()),
                Err(e) => Err(CommandError::Purchase(e)),
            },
            Command::Battle { attack_commands, defense_commands, target } => match self.do_battle(
                attack_commands,
                defense_commands,
                target,
            ) {
                Ok(()) => Ok(()),
                Err(e) => Err(CommandError::Battle(e)),
            },
        }
    }

    /// Number of towns on which a convoy of `player` stands.
    fn count_towns(&self, player: Player) -> (r: u8)
        ensures
            r == towns_held(self@.tiles, player),
            r <= BOARD_TILES,
    {
        let tiles = self.board.iter();
        let ghost all = self@.tiles;
        proof {
            use_type_invariant(&self.board);
        }
        let mut count: u8 = 0;
        let mut i: usize = 0;
        while i < tiles.len()
            invariant
                tiles@ == all,
                all.len() == BOARD_TILES,
                i <= all.len(),
                count <= i,
                count == towns_held(all.subrange(0, i as int), player),
            decreases all.len() - i,
        {
            let t = tiles[i];
            let held = match t.piece_option {
                Some(p) => p.owner == player && match p.piece_type {
                    PieceType::Convoy => true,
                    _ => false,
                } && t.gives_income(),
                None => false,
            };
            proof {
                assert(all.subrange(0, i + 1).drop_last() =~= all.subrange(0, i as int));
                assert(held == holds_town(all[i as int], player));
            }
            if held {
                count = count + 1;
            }
            i = i + 1;
        }
        assert(all.subrange(0, all.len() as int) =~= all);
        count
    }

    /// Upkeep of `player`: the treasury earns the income, and every piece of that player
    /// is refreshed.
    fn do_upkeep(&mut self, player: Player)
        ensures
            final(self)@ == (GameView {
                tiles: Seq::new(old(self)@.tiles.len(), |i: int| refreshed(old(self)@.tiles[i], player)),
                money: old(self)@.money.update(
                    player.slot(),
                    credited(old(self)@.money_of(player), income(old(self)@.tiles, player)),
                ),
                cur_player: old(self)@.cur_player,
            }),
    {
        let towns = self.count_towns(player);
        let money = self.money(player);
        self.set_money(player, money.saturating_add(BASE_INCOME + towns));
        proof {
            use_type_invariant(&self.board);
        }
        let ghost before = self@.tiles;
        let mut i: usize = 0;
        while i < BOARD_TILES
            invariant
                self@.tiles.len() == BOARD_TILES,
                before.len() == BOARD_TILES,
                i <= BOARD_TILES,
                self@.money == old(self)@.money.update(
                    player.slot(),
                    credited(old(self)@.money_of(player), income(old(self)@.tiles, player)),
                ),
                self@.cur_player == old(self)@.cur_player,
                before == old(self)@.tiles,
                forall|j: int| 0 <= j < i ==> self@.tiles[j] == refreshed(before[j], player),
                forall|j: int| i <= j < BOARD_TILES ==> self@.tiles[j] == before[j],
            decreases BOARD_TILES - i,
        {
            let t = self.board.iter()[i];
            if let Some(p) = t.piece_option {
                if p.owner == player {
                    let fresh = Piece { owner: p.owner, exhausted: false, piece_type: p.piece_type };
                    self.board.replace(i, Tile { piece_option: Some(fresh), tile_type: t.tile_type });
                }
            }
            i = i + 1;
        }
        assert(self@.tiles =~= Seq::new(before.len(), |i: int| refreshed(before[i], player)));
        assert(self@ =~= (GameView {
            tiles: Seq::new(before.len(), |i: int| refreshed(before[i], player)),
            money: old(self)@.money.update(
                player.slot(),
                credited(old(self)@.money_of(player), income(old(self)@.tiles, player)),
            ),
            cur_player: old(self)@.cur_player,
        }));
    }

    /// Resupply: hands the turn to the other player. Supply lines are not traced yet.
    fn do_resupply(&mut self)
        ensures
            final(self)@ == (GameView { cur_player: old(self)@.cur_player.opponent(), ..old(self)@ }),
    {
        self.cur_player = self.cur_player.other();
        assert(self@ =~= (GameView { cur_player: old(self)@.cur_player.opponent(), ..old(self)@ }));
    }

    /// Ends the turn of the current player in place: resupply, then upkeep of the player
    /// whose turn it was.
    pub(crate) fn finish_turn(&mut self)
        ensures
            final(self)@ == after_end_turn(old(self)@),
    {
        let ending = self.cur_player;
        self.do_resupply();
        self.do_upkeep(ending);
        assert(self@ =~= after_end_turn(old(self)@));
    }

    /// Ends the turn of the current player: the turn passes to the opponent, and the
    /// player whose turn it was earns income and has every piece refreshed.
    pub fn end_turn(mut self: Box<Self>) -> (r: ActionOutcome)
        ensures
            r matches ActionOutcome::Ongoing(g) && g@ == after_end_turn(self@),
    {
        self.finish_turn();
        ActionOutcome::Ongoing(self)
    }

    /// Carries out `action`. A refused command hands the game back, unchanged, with the
    /// error.
    pub fn take_action(mut self: Box<Self>, action: Action) -> (r: Result<
        ActionOutcome,
        (Box<Self>, CommandError),
    >)
        ensures
            match action {
                Action::Command(c) => match command_result(self@, c) {
                    Ok(()) => r matches Ok(ActionOutcome::Ongoing(g)) && g@ == after_command(self@, c),
                    Err(e) => r matches Err((g, e2)) && e2 == e && g@ == self@,
                },
                Action::EndTurn => r matches Ok(ActionOutcome::Ongoing(g)) && g@ == after_end_turn(
                    self@,
                ),
            },
    {
        match action {
            Action::Command(command) => match self.do_command(command) {
                Ok(()) => Ok(ActionOutcome::Ongoing(self)),
                Err(err) => Err((self, err)),
            },
            Action::EndTurn => Ok(self.end_turn()),
        }
    }
}

} // verus!

use vstd::prelude::*;

use crate::coord::{on_board, Coord, Move};
use crate::game::{after_command, after_end_turn, Command, Game, GameView};
use crate::pieces::PieceType;

verus! {

/// What a click on a tile is taken to mean.
#[derive(Clone, Copy, Debug, PartialEq, Eq, Structural)]
pub enum ActionMode {
    /// Moving: the square of the piece picked to move, once one is picked.
    Move(Option<Coord>),
    /// Buying: the kind of unit picked to buy, once one is picked.
    Purchase(Option<PieceType>),
    /// Fighting.
    Battle,
}

impl Default for ActionMode {
    /// Moving, with no piece picked.
    fn default() -> (r: ActionMode)
        ensures
            r == ActionMode::Move(None),
    {
        ActionMode::Move(None)
    }
}

/// An input of the player, as the front end reports it.
#[derive(Clone, Copy, Debug, PartialEq, Eq, Structural)]
pub enum Message {
    ChangeActionMode(ActionMode),
    ChangePieceType(PieceType),
    EndTurn,
    /// A click on the tile at (rank, file).
    TileClicked(usize, usize),
}

/// A game together with what the player has picked so far.
#[derive(Clone, Debug)]
pub struct State {
    game: Game,
    action_mode: ActionMode,
}

impl View for State {
    type V = (GameView, ActionMode);

    closed spec fn view(&self) -> (GameView, ActionMode) {
        (self.game@, self.action_mode)
    }
}

/// The game and the mode after a click on the square `clicked`.
pub open spec fn after_click(g: GameView, mode: ActionMode, clicked: Coord) -> (
    GameView,
    ActionMode,
) {
    match mode {
        ActionMode::Move(Some(picked)) => if picked == clicked {
            (g, ActionMode::Move(None))
        } else {
            (
                after_command(g, Command::Move(Move { from: picked, to: clicked })),
                ActionMode::Move(None),
            )
        },
        ActionMode::Move(None) => (g, ActionMode::Move(Some(clicked))),
        ActionMode::Purchase(Some(t)) => {
            let bought = after_command(g, Command::Purchase(t, clicked));
            if bought.money_of(bought.cur_player) < t.spec_cost() {
                (bought, ActionMode::Purchase(None))
            } else {
                (bought, mode)
            }
        },
        _ => (g, mode),
    }
}

/// The game and the mode after `message`.
pub open spec fn after_message(g: GameView, mode: ActionMode, message: Message) -> (
    GameView,
    ActionMode,
) {
    match message {
        Message::ChangeActionMode(m) => (g, m),
        Message::ChangePieceType(t) => match mode {
            ActionMode::Purchase(picked) => if picked == Some(t) {
                (g, ActionMode::Purchase(None))
            } else {
                (g, ActionMode::Purchase(Some(t)))
            },
            _ => (g, mode),
        },
        Message::EndTurn => (after_end_turn(g), ActionMode::Move(None)),
        Message::TileClicked(rank, file) => after_click(
            g,
            mode,
            Coord::spec_at(rank as int, file as int),
        ),
    }
}

/// True when `message` names only squares of the board.
pub open spec fn message_on_board(message: Message) -> bool {
    message matches Message::TileClicked(rank, file) ==> on_board(rank as int, file as int)
}

impl Default for State {
    /// A new game, moving, with nothing picked.
    fn default() -> (r: State)
        ensures
            r@.1 == ActionMode::Move(None),
            r@.0 == crate::game::starting_view(),
    {
        State { game: Game::default(), action_mode: ActionMode::Move(None) }
    }
}

impl State {
    pub fn game(&self) -> (r: &Game)
        ensures
            r@ == self@.0,
    {
        &self.game
    }

    pub fn action_mode(&self) -> (r: ActionMode)
        ensures
            r == self@.1,
    {
        self.action_mode
    }

    /// Takes in one input of the player: changes the mode, picks or unpicks a piece or a
    /// kind of unit, or carries out a move, a purchase or the end of the turn. Refused
    /// commands leave the game as it was.
    pub fn update(&mut self, message: Message)
        requires
            message_on_board(message),
        ensures
            final(self)@ == after_message(old(self)@.0, old(self)@.1, message),
    {
        match message {
            Message::ChangeActionMode(select_mode) => {
                self.action_mode = select_mode;
            },
            Message::ChangePieceType(new_type) => {
                if let ActionMode::Purchase(picked) = self.action_mode {
                    let same = match picked {
                        Some(cur_type) => cur_type == new_type,
                        None => false,
                    };
                    if same {
                        self.action_mode = ActionMode::Purchase(None);
                    } else {
                        self.action_mode = ActionMode::Purchase(Some(new_type));
                    }
                }
            },
            Message::EndTurn => {
                self.action_mode = ActionMode::Move(None);
                self.game.finish_turn();
            },
            Message::TileClicked(row, col) => {
                let tile_coord = Coord::at(row as u8, col as u8);
                match self.action_mode {
                    ActionMode::Move(Some(picked)) => {
                        if picked != tile_coord {
                            let _ = self.game.do_command(
                                Command::Move(Move { from: picked, to: tile_coord }),
                            );
                        }
                        self.action_mode = ActionMode::Move(None);
                    },
                    ActionMode::Move(None) => {
                        self.action_mode = ActionMode::Move(Some(tile_coord));
                    },
                    ActionMode::Purchase(Some(piece_type)) => {
                        let _ = self.game.do_command(Command::Purchase(piece_type, tile_coord));
                        let cur = self.game.cur_player();
                        if self.game.money(cur) < piece_type.cost() {
                            self.action_mode = ActionMode::Purchase(None);
                        }
                    },
                    _ => {},
                }
            },
        }
    }
}

} // verus!

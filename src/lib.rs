pub mod board;
pub mod constants;
pub mod controller;
pub mod coord;
mod errors;
pub mod game;
pub mod laws;
pub mod movement;
pub mod pieces;
pub mod player;
mod text;
pub mod tile;

pub use errors::{BattleError, CommandError, MoveError, PurchaseError};
pub use game::{Action, ActionOutcome, AttackCommand, Command, DefenseCommand, Game};
pub use player::Player;


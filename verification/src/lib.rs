//! Core of a two-player memory (pair-flip) card game server: the deck, the
//! per-room game state machine, and the registry of rooms. Transport and
//! scheduling live outside; this crate decides every state transition.

pub mod cards;
pub mod game;
pub mod room;
pub mod registry;
pub mod dispatch;
pub mod laws;
pub mod messages;
pub mod counting;
mod rng;

pub use cards::Card;
pub use game::{GameState, GameStatus, Player};
pub use game::{all_cards_matched, determine_winner};
pub use messages::{ClientMessage, ServerMessage};
pub use registry::Registry;
pub use room::Room;

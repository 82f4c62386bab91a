//! The decoded messages the transport hands in and the messages the core
//! hands back to be encoded and sent.

use vstd::prelude::*;

use crate::game::GameState;

verus! {

/// What a client can ask for.
#[derive(Debug)]
pub enum ClientMessage {
    CreateGame,
    JoinGame { room_id: String },
    StartGame { room_id: String },
    FlipCard { card_id: u8 },
}

/// What the server sends back; every state update is a full snapshot.
#[derive(Debug)]
pub enum ServerMessage {
    GameCreated { room_id: String, player_id: String },
    GameJoined { state: GameState },
    GameStateUpdate { state: GameState },
    GameStarted { timer: u16 },
    GameOver { winner: String, scores: (u8, u8) },
    PlayerLeft,
    Error { message: String },
}

} // verus!

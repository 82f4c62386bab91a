//! One decoded client message in, one decided set of actions out. The
//! transport performs the actions: it sends the reply to the requesting
//! connection, broadcasts to the room's outputs, registers the
//! connection's output channel, and starts, schedules or cancels the
//! room's timer work.

use vstd::prelude::*;
use vstd::string::StringExecFns;

use crate::game::{GameStatus, PlayerV, StateV};
use crate::messages::{ClientMessage, ServerMessage};
use crate::registry::{create_post, has_room, room_idx, JoinError, Registry};
use crate::room::{flip_result, FlipOutV, FlipOutcome, StartOutcome};

verus! {

/// Everything the transport must do after one message was handled.
pub struct Actions {
    /// Sent to the requesting connection only.
    pub reply: Option<ServerMessage>,
    /// Sent to every output registered for the room.
    pub broadcast: Option<ServerMessage>,
    /// The room the broadcast, registration and timer work belong to.
    pub room: Option<String>,
    /// Register the requesting connection's output channel with the room.
    pub register_output: bool,
    /// Start the room's countdown task, ticking once per second.
    pub start_timer: Option<u16>,
    /// Turn this mismatched pair face down after the fixed delay.
    pub schedule_unflip: Option<(u8, u8)>,
    /// Cancel the room's countdown task: the game is over.
    pub stop_timer: bool,
}

/// Nothing to do: the silent-ignore conditions produce no reply and no
/// state change.
pub open spec fn no_actions(a: Actions) -> bool {
    &&& a.reply is None
    &&& a.broadcast is None
    &&& a.room is None
    &&& !a.register_output
    &&& a.start_timer is None
    &&& a.schedule_unflip is None
    &&& !a.stop_timer
}

fn empty_actions() -> (a: Actions)
    ensures
        no_actions(a),
{
    Actions {
        reply: None,
        broadcast: None,
        room: None,
        register_output: false,
        start_timer: None,
        schedule_unflip: None,
        stop_timer: false,
    }
}

impl Registry {
    /// Decides what one decoded client message does: the registry is
    /// mutated as the per-operation transition functions say, and the
    /// returned actions carry every message and every piece of timer work
    /// the transport owes for it.
    pub fn handle_client_message(
        &mut self,
        msg: ClientMessage,
        player_id: &String,
        session_room: &mut Option<String>,
    ) -> (a: Actions)
        requires
            old(self).wf(),
        ensures
            final(self).wf(),
            msg matches ClientMessage::CreateGame ==> ({
                &&& (a.reply matches Some(ServerMessage::GameCreated { room_id, player_id: p })
                    && p@ == player_id@ && room_id@.len() == 8 && create_post(
                    old(self).rooms@,
                    final(self).rooms@,
                    room_id@,
                    player_id@,
                ) && (*final(session_room) matches Some(sr) && sr@ == room_id@) && (
                a.room matches Some(rm) && rm@ == room_id@))
                &&& a.broadcast is None
                &&& a.register_output
                &&& a.start_timer is None
                &&& a.schedule_unflip is None
                &&& !a.stop_timer
            }),
            msg matches ClientMessage::JoinGame { room_id: rid } ==> ({
                let rs0 = old(self).rooms@;
                &&& !has_room(rs0, rid@) ==> ({
                    &&& (a.reply matches Some(ServerMessage::Error { message }) && message@
                        == "Room not found"@)
                    &&& final(self).rooms@ == rs0
                    &&& *final(session_room) == *old(session_room)
                    &&& a.broadcast is None
                    &&& a.room is None
                    &&& !a.register_output
                    &&& a.start_timer is None
                    &&& a.schedule_unflip is None
                    &&& !a.stop_timer
                })
                &&& has_room(rs0, rid@) && rs0[room_idx(rs0, rid@)]@.state.p2 is Some ==> ({
                    &&& (a.reply matches Some(ServerMessage::Error { message }) && message@
                        == "Room is full"@)
                    &&& final(self).rooms@ == rs0
                    &&& *final(session_room) == *old(session_room)
                    &&& a.broadcast is None
                    &&& a.room is None
                    &&& !a.register_output
                    &&& a.start_timer is None
                    &&& a.schedule_unflip is None
                    &&& !a.stop_timer
                })
                &&& has_room(rs0, rid@) && rs0[room_idx(rs0, rid@)]@.state.p2 is None ==> ({
                    let k = room_idx(rs0, rid@);
                    let st1 = StateV {
                        p2: Some(PlayerV { id: player_id@, name: "Player 2"@ }),
                        ..rs0[k]@.state
                    };
                    &&& final(self).rooms@.len() == rs0.len()
                    &&& forall|m: int| 0 <= m < rs0.len() && m != k ==> final(self).rooms@[m]
                        == rs0[m]
                    &&& final(self).rooms@[k]@.id == rs0[k]@.id
                    &&& final(self).rooms@[k]@.creator_id == rs0[k]@.creator_id
                    &&& final(self).rooms@[k]@.state == st1
                    &&& (a.reply matches Some(ServerMessage::GameJoined { state }) && state@
                        == st1)
                    &&& (a.broadcast matches Some(ServerMessage::GameStateUpdate { state })
                        && state@ == st1)
                    &&& (a.room matches Some(rm) && rm@ == rid@)
                    &&& (*final(session_room) matches Some(sr) && sr@ == rid@)
                    &&& a.register_output
                    &&& a.start_timer is None
                    &&& a.schedule_unflip is None
                    &&& !a.stop_timer
                })
            }),
            msg matches ClientMessage::StartGame { room_id: rid } ==> ({
                let rs0 = old(self).rooms@;
                &&& *final(session_room) == *old(session_room)
                &&& !a.register_output
                &&& a.schedule_unflip is None
                &&& !a.stop_timer
                &&& (!has_room(rs0, rid@) || (has_room(rs0, rid@) && rs0[room_idx(rs0, rid@)]@.state.p2 is Some
                    && rs0[room_idx(rs0, rid@)]@.state.status != GameStatus::Waiting)) ==> ({
                    &&& final(self).rooms@ == rs0
                    &&& a.reply is None
                    &&& a.broadcast is None
                    &&& a.room is None
                    &&& a.start_timer is None
                })
                &&& has_room(rs0, rid@) && rs0[room_idx(rs0, rid@)]@.state.p2 is None ==> ({
                    &&& final(self).rooms@ == rs0
                    &&& (a.reply matches Some(ServerMessage::Error { message }) && message@
                        == "Not enough players"@)
                    &&& a.broadcast is None
                    &&& a.room is None
                    &&& a.start_timer is None
                })
                &&& has_room(rs0, rid@) && rs0[room_idx(rs0, rid@)]@.state.p2 is Some && rs0[
                    room_idx(rs0, rid@)
                ]@.state.status == GameStatus::Waiting ==> ({
                    let k = room_idx(rs0, rid@);
                    let t = rs0[k]@.state.timer;
                    &&& final(self).rooms@.len() == rs0.len()
                    &&& forall|m: int| 0 <= m < rs0.len() && m != k ==> final(self).rooms@[m]
                        == rs0[m]
                    &&& final(self).rooms@[k]@.id == rs0[k]@.id
                    &&& final(self).rooms@[k]@.creator_id == rs0[k]@.creator_id
                    &&& final(self).rooms@[k]@.state == (StateV {
                        status: GameStatus::Playing,
                        ..rs0[k]@.state
                    })
                    &&& a.reply is None
                    &&& (a.broadcast matches Some(ServerMessage::GameStarted { timer }) && timer
                        == t)
                    &&& (a.room matches Some(rm) && rm@ == rid@)
                    &&& a.start_timer == Some(t)
                })
            }),
            msg matches ClientMessage::FlipCard { card_id } ==> ({
                let rs0 = old(self).rooms@;
                &&& *final(session_room) == *old(session_room)
                &&& a.reply is None
                &&& !a.register_output
                &&& a.start_timer is None
                &&& (*old(session_room) is None ==> no_actions(a) && final(self).rooms@ == rs0)
                &&& (*old(session_room) matches Some(rid) ==> ({
                    &&& !has_room(rs0, rid@) ==> no_actions(a) && final(self).rooms@ == rs0
                    &&& has_room(rs0, rid@) ==> ({
                        let k = room_idx(rs0, rid@);
                        let step = flip_result(rs0[k]@.state, player_id@, card_id);
                        &&& final(self).rooms@.len() == rs0.len()
                        &&& forall|m: int| 0 <= m < rs0.len() && m != k ==> final(self).rooms@[m]
                            == rs0[m]
                        &&& final(self).rooms@[k]@.id == rs0[k]@.id
                        &&& final(self).rooms@[k]@.creator_id == rs0[k]@.creator_id
                        &&& final(self).rooms@[k]@.state == step.0
                        &&& (step.1 matches FlipOutV::Ignored ==> no_actions(a) && final(self).rooms@ == rs0)
                        &&& (step.1 matches FlipOutV::Updated { state, unflip } ==> ({
                            &&& (a.broadcast matches Some(
                                ServerMessage::GameStateUpdate { state: bs },
                            ) && bs@ == state)
                            &&& (a.room matches Some(rm) && rm@ == rid@)
                            &&& a.schedule_unflip == unflip
                            &&& !a.stop_timer
                        }))
                        &&& (step.1 matches FlipOutV::Finished { state, winner, scores } ==> ({
                            &&& (a.broadcast matches Some(
                                ServerMessage::GameOver { winner: w, scores: sc },
                            ) && w@ == winner && sc == scores)
                            &&& (a.room matches Some(rm) && rm@ == rid@)
                            &&& a.schedule_unflip is None
                            &&& a.stop_timer
                        }))
                    })
                }))
            }),
    {
        match msg {
            ClientMessage::CreateGame => {
                let rid = self.create_room(player_id);
                *session_room = Some(rid.clone());
                Actions {
                    reply: Some(
                        ServerMessage::GameCreated {
                            room_id: rid.clone(),
                            player_id: player_id.clone(),
                        },
                    ),
                    broadcast: None,
                    room: Some(rid),
                    register_output: true,
                    start_timer: None,
                    schedule_unflip: None,
                    stop_timer: false,
                }
            },
            ClientMessage::JoinGame { room_id: rid } => {
                match self.join_room(&rid, player_id) {
                    Err(JoinError::RoomNotFound) => {
                        let mut a = empty_actions();
                        a.reply = Some(
                            ServerMessage::Error { message: String::from_str("Room not found") },
                        );
                        a
                    },
                    Err(JoinError::RoomFull) => {
                        let mut a = empty_actions();
                        a.reply = Some(
                            ServerMessage::Error { message: String::from_str("Room is full") },
                        );
                        a
                    },
                    Ok(state) => {
                        let snap = state.snapshot();
                        *session_room = Some(rid.clone());
                        Actions {
                            reply: Some(ServerMessage::GameJoined { state }),
                            broadcast: Some(ServerMessage::GameStateUpdate { state: snap }),
                            room: Some(rid),
                            register_output: true,
                            start_timer: None,
                            schedule_unflip: None,
                            stop_timer: false,
                        }
                    },
                }
            },
            ClientMessage::StartGame { room_id: rid } => {
                match self.start_game(&rid, player_id) {
                    StartOutcome::RoomNotFound => empty_actions(),
                    StartOutcome::AlreadyRunning => empty_actions(),
                    StartOutcome::NotEnoughPlayers => {
                        let mut a = empty_actions();
                        a.reply = Some(
                            ServerMessage::Error {
                                message: String::from_str("Not enough players"),
                            },
                        );
                        a
                    },
                    StartOutcome::Started { timer } => Actions {
                        reply: None,
                        broadcast: Some(ServerMessage::GameStarted { timer }),
                        room: Some(rid),
                        register_output: false,
                        start_timer: Some(timer),
                        schedule_unflip: None,
                        stop_timer: false,
                    },
                }
            },
            ClientMessage::FlipCard { card_id } => {
                let rid = match &*session_room {
                    None => {
                        return empty_actions();
                    },
                    Some(r) => r.clone(),
                };
                match self.flip_card(&rid, player_id, card_id) {
                    FlipOutcome::Ignored => empty_actions(),
                    FlipOutcome::Updated { state, unflip } => Actions {
                        reply: None,
                        broadcast: Some(ServerMessage::GameStateUpdate { state }),
                        room: Some(rid),
                        register_output: false,
                        start_timer: None,
                        schedule_unflip: unflip,
                        stop_timer: false,
                    },
                    FlipOutcome::Finished { state: _, winner, scores } => Actions {
                        reply: None,
                        broadcast: Some(ServerMessage::GameOver { winner, scores }),
                        room: Some(rid),
                        register_output: false,
                        start_timer: None,
                        schedule_unflip: None,
                        stop_timer: true,
                    },
                }
            },
        }
    }
}

} // verus!

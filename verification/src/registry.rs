//! The registry: the one shared map from room id to room. Every
//! client-triggered operation and every timer or delay task enters the
//! rooms through it, one operation at a time.

use vstd::prelude::*;
use vstd::string::StrSliceExecFns;

use crate::game::{wf_state, GameState, GameStatus, StateV, PlayerV};
use crate::rng::random_below;
use crate::room::{
    flip_allowed, flip_result, fresh_state, tick_result, unflip_result, FlipOutV, FlipOutcome, Room,
    StartOutcome, TickOutV, TickOutcome,
};

verus! {

/// Why a join request failed.
#[derive(Clone, Copy, Debug, PartialEq, Eq, Structural)]
pub enum JoinError {
    RoomNotFound,
    RoomFull,
}

/// What a departing session did to its room.
#[derive(Clone, Copy, Debug, PartialEq, Eq, Structural)]
pub enum LeaveOutcome {
    Kept,
    Removed,
}

/// Whether some room of `rs` carries the id `rid`.
pub open spec fn has_room(rs: Seq<Room>, rid: Seq<char>) -> bool {
    exists|i: int| 0 <= i < rs.len() && (#[trigger] rs[i])@.id == rid
}

/// The index of the room with id `rid` (unique once the registry is
/// well formed).
pub open spec fn room_idx(rs: Seq<Room>, rid: Seq<char>) -> int {
    choose|i: int| 0 <= i < rs.len() && (#[trigger] rs[i])@.id == rid
}

/// What creating a room leaves behind: a fresh room for the caller under
/// the returned id; a colliding id replaces the old room, any other id is
/// appended; no other room moves.
pub open spec fn create_post(rs0: Seq<Room>, rs1: Seq<Room>, rid: Seq<char>, pid: Seq<char>) -> bool {
    let k = if has_room(rs0, rid) {
        room_idx(rs0, rid)
    } else {
        rs0.len() as int
    };
    &&& rs1.len() == (if has_room(rs0, rid) {
        rs0.len()
    } else {
        rs0.len() + 1
    })
    &&& 0 <= k < rs1.len()
    &&& rs1[k]@.id == rid
    &&& rs1[k]@.creator_id == pid
    &&& fresh_state(rs1[k]@.state, pid)
    &&& forall|m: int| 0 <= m < rs0.len() && m != k ==> rs1[m] == rs0[m]
}

/// The shared room map.
pub struct Registry {
    pub rooms: Vec<Room>,
}

impl Registry {
    /// Every room's state is well formed and no two rooms share an id.
    pub open spec fn wf(&self) -> bool {
        &&& forall|i: int|
            0 <= i < self.rooms@.len() ==> wf_state((#[trigger] self.rooms@[i])@.state)
        &&& forall|i: int, j: int|
            0 <= i < self.rooms@.len() && 0 <= j < self.rooms@.len() && i != j ==> (
            #[trigger] self.rooms@[i])@.id != (#[trigger] self.rooms@[j])@.id
    }

    pub fn new() -> (r: Registry)
        ensures
            r.wf(),
            r.rooms@.len() == 0,
    {
        Registry { rooms: Vec::new() }
    }

    /// Looks a room up by id.
    fn find_room(&self, room_id: &String) -> (r: Option<usize>)
        requires
            self.wf(),
        ensures
            match r {
                None => !has_room(self.rooms@, room_id@),
                Some(k) => k < self.rooms@.len() && self.rooms@[k as int]@.id == room_id@
                    && k as int == room_idx(self.rooms@, room_id@),
            },
    {
        let n = self.rooms.len();
        let mut i: usize = 0;
        while i < n
            invariant
                self.wf(),
                n == self.rooms@.len(),
                i <= n,
                forall|m: int| 0 <= m < i ==> (#[trigger] self.rooms@[m])@.id != room_id@,
            decreases n - i,
        {
            if self.rooms[i].id == *room_id {
                proof {
                    assert(has_room(self.rooms@, room_id@));
                    let k = room_idx(self.rooms@, room_id@);
                    assert(self.rooms@[k]@.id == room_id@);
                    assert(k == i as int);  // room ids are unique
                }
                return Some(i);
            }
            i = i + 1;
        }
        None
    }

    /// Builds a new room with a shuffled deck for the caller, stores it
    /// under a newly drawn id, and returns that id. Always succeeds.
    pub fn create_room(&mut self, player_id: &String) -> (rid: String)
        requires
            old(self).wf(),
        ensures
            final(self).wf(),
            rid@.len() == 8,
            create_post(old(self).rooms@, final(self).rooms@, rid@, player_id@),
    {
        let id = generate_room_id();
        let room = Room::new(id.clone(), player_id);
        match self.find_room(&id) {
            Some(k) => {
                self.rooms[k] = room;
            },
            None => {
                self.rooms.push(room);
            },
        }
        id
    }

    /// Seats the caller as player two if the slot is free, returning the
    /// updated state to send back and broadcast; a full or unknown room is
    /// reported and left untouched.
    pub fn join_room(&mut self, room_id: &String, player_id: &String) -> (r: Result<
        GameState,
        JoinError,
    >)
        requires
            old(self).wf(),
        ensures
            final(self).wf(),
            !has_room(old(self).rooms@, room_id@) ==> (r matches Err(e) && e
                == JoinError::RoomNotFound && final(self).rooms@ == old(self).rooms@),
            has_room(old(self).rooms@, room_id@) ==> ({
                let rs0 = old(self).rooms@;
                let k = room_idx(rs0, room_id@);
                let st0 = rs0[k]@.state;
                &&& st0.p2 is Some ==> (r matches Err(e) && e == JoinError::RoomFull && final(self).rooms@ == rs0)
                &&& st0.p2 is None ==> {
                    &&& final(self).rooms@.len() == rs0.len()
                    &&& forall|m: int| 0 <= m < rs0.len() && m != k ==> final(self).rooms@[m]
                        == rs0[m]
                    &&& final(self).rooms@[k]@.id == rs0[k]@.id
                    &&& final(self).rooms@[k]@.creator_id == rs0[k]@.creator_id
                    &&& final(self).rooms@[k]@.state == (StateV {
                        p2: Some(PlayerV { id: player_id@, name: "Player 2"@ }),
                        ..st0
                    })
                    &&& (r matches Ok(st) && st@ == final(self).rooms@[k]@.state)
                }
            }),
    {
        let k = match self.find_room(room_id) {
            None => {
                return Err(JoinError::RoomNotFound);
            },
            Some(k) => k,
        };
        let room = &mut self.rooms[k];
        let res = room.join(player_id);
        proof {
            if res is None {
                assert(self.rooms@ =~= old(self).rooms@);
            }
        }
        match res {
            None => Err(JoinError::RoomFull),
            Some(state) => Ok(state),
        }
    }

    /// Moves a waiting room with both players into play; the caller starts
    /// the countdown task exactly when `Started` comes back.
    pub fn start_game(&mut self, room_id: &String, _player_id: &String) -> (r: StartOutcome)
        requires
            old(self).wf(),
        ensures
            final(self).wf(),
            !has_room(old(self).rooms@, room_id@) ==> r == StartOutcome::RoomNotFound && final(self).rooms@ == old(self).rooms@,
            has_room(old(self).rooms@, room_id@) ==> ({
                let rs0 = old(self).rooms@;
                let k = room_idx(rs0, room_id@);
                let st0 = rs0[k]@.state;
                &&& st0.p2 is None ==> r == StartOutcome::NotEnoughPlayers && final(self).rooms@
                    == rs0
                &&& st0.p2 is Some && st0.status != GameStatus::Waiting ==> r
                    == StartOutcome::AlreadyRunning && final(self).rooms@ == rs0
                &&& st0.p2 is Some && st0.status == GameStatus::Waiting ==> {
                    &&& final(self).rooms@.len() == rs0.len()
                    &&& forall|m: int| 0 <= m < rs0.len() && m != k ==> final(self).rooms@[m]
                        == rs0[m]
                    &&& final(self).rooms@[k]@.id == rs0[k]@.id
                    &&& final(self).rooms@[k]@.creator_id == rs0[k]@.creator_id
                    &&& final(self).rooms@[k]@.state == (StateV {
                        status: GameStatus::Playing,
                        ..st0
                    })
                    &&& r == (StartOutcome::Started { timer: st0.timer })
                }
            }),
    {
        let k = match self.find_room(room_id) {
            None => {
                return StartOutcome::RoomNotFound;
            },
            Some(k) => k,
        };
        let room = &mut self.rooms[k];
        let r = room.start();
        proof {
            if !(r matches StartOutcome::Started { .. }) {
                assert(self.rooms@ =~= old(self).rooms@);
            }
        }
        r
    }

    /// Handles one flip request against the room the session sits in; an
    /// unknown room is silently ignored.
    pub fn flip_card(&mut self, room_id: &String, player_id: &String, card_id: u8) -> (out:
        FlipOutcome)
        requires
            old(self).wf(),
        ensures
            final(self).wf(),
            !has_room(old(self).rooms@, room_id@) ==> out@ == FlipOutV::Ignored && final(self).rooms@ == old(self).rooms@,
            has_room(old(self).rooms@, room_id@) ==> ({
                let rs0 = old(self).rooms@;
                let k = room_idx(rs0, room_id@);
                &&& final(self).rooms@.len() == rs0.len()
                &&& forall|m: int| 0 <= m < rs0.len() && m != k ==> final(self).rooms@[m]
                    == rs0[m]
                &&& final(self).rooms@[k]@.id == rs0[k]@.id
                &&& final(self).rooms@[k]@.creator_id == rs0[k]@.creator_id
                &&& final(self).rooms@[k]@.state == flip_result(
                    rs0[k]@.state,
                    player_id@,
                    card_id,
                ).0
                &&& out@ == flip_result(rs0[k]@.state, player_id@, card_id).1
                &&& !flip_allowed(rs0[k]@.state, player_id@, card_id) ==> final(self).rooms@
                    == rs0
            }),
    {
        let k = match self.find_room(room_id) {
            None => {
                return FlipOutcome::Ignored;
            },
            Some(k) => k,
        };
        let room = &mut self.rooms[k];
        let out = room.flip(player_id, card_id);
        proof {
            if !flip_allowed(old(self).rooms@[k as int]@.state, player_id@, card_id) {
                assert(self.rooms@ =~= old(self).rooms@);
            }
        }
        out
    }

    /// One countdown tick against the authoritative shared room state; a
    /// removed room stops the task.
    pub fn timer_tick(&mut self, room_id: &String) -> (out: TickOutcome)
        requires
            old(self).wf(),
        ensures
            final(self).wf(),
            !has_room(old(self).rooms@, room_id@) ==> out@ == TickOutV::Stopped && final(self).rooms@ == old(self).rooms@,
            has_room(old(self).rooms@, room_id@) ==> ({
                let rs0 = old(self).rooms@;
                let k = room_idx(rs0, room_id@);
                &&& final(self).rooms@.len() == rs0.len()
                &&& forall|m: int| 0 <= m < rs0.len() && m != k ==> final(self).rooms@[m]
                    == rs0[m]
                &&& final(self).rooms@[k]@.id == rs0[k]@.id
                &&& final(self).rooms@[k]@.creator_id == rs0[k]@.creator_id
                &&& final(self).rooms@[k]@.state == tick_result(rs0[k]@.state).0
                &&& out@ == tick_result(rs0[k]@.state).1
            }),
    {
        let k = match self.find_room(room_id) {
            None => {
                return TickOutcome::Stopped;
            },
            Some(k) => k,
        };
        let room = &mut self.rooms[k];
        room.tick()
    }

    /// Turns a mismatched pair face down once the delay has elapsed,
    /// handing back the state to broadcast; a removed or finished room
    /// cancels the pending work.
    pub fn resolve_mismatch(&mut self, room_id: &String, a: u8, b: u8) -> (r: Option<GameState>)
        requires
            old(self).wf(),
        ensures
            final(self).wf(),
            !has_room(old(self).rooms@, room_id@) ==> r is None && final(self).rooms@ == old(self).rooms@,
            has_room(old(self).rooms@, room_id@) ==> ({
                let rs0 = old(self).rooms@;
                let k = room_idx(rs0, room_id@);
                &&& final(self).rooms@.len() == rs0.len()
                &&& forall|m: int| 0 <= m < rs0.len() && m != k ==> final(self).rooms@[m]
                    == rs0[m]
                &&& final(self).rooms@[k]@.id == rs0[k]@.id
                &&& final(self).rooms@[k]@.creator_id == rs0[k]@.creator_id
                &&& final(self).rooms@[k]@.state == unflip_result(rs0[k]@.state, a, b)
                &&& (rs0[k]@.state.status == GameStatus::Playing) <==> r is Some
                &&& r is Some ==> r->0@ == final(self).rooms@[k]@.state
            }),
    {
        let k = match self.find_room(room_id) {
            None => {
                return None;
            },
            Some(k) => k,
        };
        let room = &mut self.rooms[k];
        room.unflip_pair(a, b)
    }

    /// A session's connection ended: if the departing player created the
    /// room, the room is removed (the caller broadcasts `PlayerLeft` to
    /// the remaining outputs first); anyone else leaves it untouched.
    pub fn leave(&mut self, room_id: &String, player_id: &String) -> (r: LeaveOutcome)
        requires
            old(self).wf(),
        ensures
            final(self).wf(),
            ({
                let rs0 = old(self).rooms@;
                if has_room(rs0, room_id@) && rs0[room_idx(rs0, room_id@)]@.creator_id
                    == player_id@ {
                    r == LeaveOutcome::Removed && final(self).rooms@ == rs0.remove(
                        room_idx(rs0, room_id@),
                    )
                } else {
                    r == LeaveOutcome::Kept && final(self).rooms@ == rs0
                }
            }),
    {
        let k = match self.find_room(room_id) {
            None => {
                return LeaveOutcome::Kept;
            },
            Some(k) => k,
        };
        if self.rooms[k].creator_id == *player_id {
            self.rooms.remove(k);
            LeaveOutcome::Removed
        } else {
            LeaveOutcome::Kept
        }
    }
}

/// Draws a fresh eight-character room id from letters and digits.
pub fn generate_room_id() -> (r: String)
    ensures
        r@.len() == 8,
        forall|i: int|
            0 <= i < 8 ==> "ABCDEFGHIJKLMNOPQRSTUVWXYZabcdefghijklmnopqrstuvwxyz0123456789"@
                .contains(#[trigger] r@[i]),
{
    let charset: &str = "ABCDEFGHIJKLMNOPQRSTUVWXYZabcdefghijklmnopqrstuvwxyz0123456789";
    proof {
        reveal_strlit("ABCDEFGHIJKLMNOPQRSTUVWXYZabcdefghijklmnopqrstuvwxyz0123456789");
    }
    let mut id = String::new();
    let mut i: usize = 0;
    while i < 8
        invariant
            charset@ == "ABCDEFGHIJKLMNOPQRSTUVWXYZabcdefghijklmnopqrstuvwxyz0123456789"@,
            charset@.len() == 62,
            i <= 8,
            id@.len() == i,
            forall|m: int| 0 <= m < i ==> charset@.contains(#[trigger] id@[m]),
        decreases 8 - i,
    {
        let k = random_below(62);
        let c = charset.substring_char(k, k + 1);
        proof {
            assert(c@ =~= charset@.subrange(k as int, k + 1));
            assert(c@[0] == charset@[k as int]);
        }
        id.append(c);
        i = i + 1;
    }
    id
}

} // verus!

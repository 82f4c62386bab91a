//! One room: its identity, its game state, and the game-mutating
//! operations. Each operation's result is pinned to a spec-level
//! transition function over the state's mathematical value.

use vstd::prelude::*;
use vstd::string::StringExecFns;

use crate::cards::{
    all_matched, count_face_up_unmatched, count_matched, deck_ok,
    face_up_unmatched_pred, is_face_up_unmatched, lemma_deck_properties,
    matched_pred, Card,
};
use crate::counting::{
    count_if, lemma_count_congruent, lemma_count_exactly_two,
    lemma_count_take_all, lemma_count_take_step, lemma_count_update,
};
use crate::game::{
    all_cards_matched, determine_winner, lemma_all_matched_iff_count,
    lemma_count_matched_le_len, spec_winner, wf_state, GameState, GameStatus, Player,
    PlayerV, StateV,
};

verus! {

/// One game room: an id, the creator (whose disconnect removes the room),
/// and the game state.
#[derive(Debug)]
pub struct Room {
    pub id: String,
    pub creator_id: String,
    pub state: GameState,
}

pub ghost struct RoomV {
    pub id: Seq<char>,
    pub creator_id: Seq<char>,
    pub state: StateV,
}

impl View for Room {
    type V = RoomV;

    open spec fn view(&self) -> RoomV {
        RoomV { id: self.id@, creator_id: self.creator_id@, state: self.state@ }
    }
}

/// A freshly created room's state: the creator seated alone, a shuffled
/// well-formed deck, sixty seconds on the clock, waiting to start.
pub open spec fn fresh_state(st: StateV, creator: Seq<char>) -> bool {
    &&& st.p1 == (PlayerV { id: creator, name: "Player 1"@ })
    &&& st.p2 is None
    &&& st.current_turn == creator
    &&& st.scores == (0u8, 0u8)
    &&& st.timer == 60
    &&& st.status == GameStatus::Waiting
    &&& st.winner is None
    &&& deck_ok(st.cards)
}

/// Whether some card of `s` carries the id `cid`.
pub open spec fn has_card(s: Seq<Card>, cid: u8) -> bool {
    exists|i: int| 0 <= i < s.len() && (#[trigger] s[i]).id == cid
}

/// The index of the card with id `cid` (unique once ids are unique).
pub open spec fn card_idx(s: Seq<Card>, cid: u8) -> int {
    choose|i: int| 0 <= i < s.len() && (#[trigger] s[i]).id == cid
}

pub open spec fn card_at(s: Seq<Card>, cid: u8) -> Card {
    s[card_idx(s, cid)]
}

pub open spec fn flip_up(c: Card) -> Card {
    Card { flipped: true, ..c }
}

pub open spec fn set_matched(c: Card) -> Card {
    Card { matched: true, ..c }
}

pub open spec fn face_down(c: Card) -> Card {
    Card { flipped: false, ..c }
}

/// A flip request acts only when the room is playing, it is the caller's
/// turn, and the target card exists face down and unmatched; otherwise it
/// is silently ignored.
pub open spec fn flip_allowed(st: StateV, pid: Seq<char>, cid: u8) -> bool {
    &&& st.status == GameStatus::Playing
    &&& st.current_turn == pid
    &&& has_card(st.cards, cid)
    &&& !card_at(st.cards, cid).flipped
    &&& !card_at(st.cards, cid).matched
}

/// The player the turn passes to on a mismatch: the seated player the
/// acting one is not (the first slot is checked first).
pub open spec fn next_turn(st: StateV, pid: Seq<char>) -> Seq<char> {
    if pid == st.p1.id {
        st.p2->0.id
    } else {
        st.p1.id
    }
}

/// One point to the acting player's slot (the first slot is checked first).
pub open spec fn add_point(st: StateV, pid: Seq<char>) -> (u8, u8) {
    if pid == st.p1.id {
        ((st.scores.0 + 1) as u8, st.scores.1)
    } else {
        (st.scores.0, (st.scores.1 + 1) as u8)
    }
}

/// The index of the other face-up unmatched card beside the one at `k`.
pub open spec fn other_face_up(s: Seq<Card>, k: int) -> int {
    choose|j: int| 0 <= j < s.len() && j != k && is_face_up_unmatched(#[trigger] s[j])
}

pub ghost enum FlipOutV {
    Ignored,
    Updated { state: StateV, unflip: Option<(u8, u8)> },
    Finished { state: StateV, winner: Seq<char>, scores: (u8, u8) },
}

/// What a flip does: flip the target face up; once exactly two cards lie
/// face up unmatched, either match them both and score the acting player
/// (the turn stays), or pass the turn and leave the pair to be turned
/// back after a delay; a match that completes the deck ends the game.
pub open spec fn flip_result(st: StateV, pid: Seq<char>, cid: u8) -> (StateV, FlipOutV) {
    if !flip_allowed(st, pid, cid) {
        (st, FlipOutV::Ignored)
    } else {
        let k = card_idx(st.cards, cid);
        let s1 = st.cards.update(k, flip_up(st.cards[k]));
        if count_face_up_unmatched(s1) == 2 {
            let j = other_face_up(s1, k);
            if s1[j].value == s1[k].value {
                let s2 = s1.update(k, set_matched(s1[k])).update(j, set_matched(s1[j]));
                let sc = add_point(st, pid);
                if all_matched(s2) {
                    let w = spec_winner(sc, st.p1, st.p2);
                    let st2 = StateV {
                        cards: s2,
                        scores: sc,
                        status: GameStatus::Finished,
                        winner: Some(w),
                        ..st
                    };
                    (st2, FlipOutV::Finished { state: st2, winner: w, scores: sc })
                } else {
                    let st2 = StateV { cards: s2, scores: sc, ..st };
                    (st2, FlipOutV::Updated { state: st2, unflip: None })
                }
            } else {
                let st2 = StateV { cards: s1, current_turn: next_turn(st, pid), ..st };
                (st2, FlipOutV::Updated { state: st2, unflip: Some((cid, s1[j].id)) })
            }
        } else {
            let st2 = StateV { cards: s1, ..st };
            (st2, FlipOutV::Updated { state: st2, unflip: None })
        }
    }
}

/// The outcome of a flip request, with everything the caller must send on:
/// the snapshot to broadcast, a pair to turn back after the mismatch
/// delay, or the game-over report.
#[derive(Debug)]
pub enum FlipOutcome {
    Ignored,
    Updated { state: GameState, unflip: Option<(u8, u8)> },
    Finished { state: GameState, winner: String, scores: (u8, u8) },
}

impl View for FlipOutcome {
    type V = FlipOutV;

    open spec fn view(&self) -> FlipOutV {
        match self {
            FlipOutcome::Ignored => FlipOutV::Ignored,
            FlipOutcome::Updated { state, unflip } => FlipOutV::Updated {
                state: state@,
                unflip: *unflip,
            },
            FlipOutcome::Finished { state, winner, scores } => FlipOutV::Finished {
                state: state@,
                winner: winner@,
                scores: *scores,
            },
        }
    }
}

/// The outcome of starting a game.
#[derive(Clone, Copy, Debug, PartialEq, Eq, Structural)]
pub enum StartOutcome {
    RoomNotFound,
    NotEnoughPlayers,
    AlreadyRunning,
    Started { timer: u16 },
}

pub ghost enum TickOutV {
    Stopped,
    Running { state: StateV },
    Over { state: StateV, winner: Seq<char>, scores: (u8, u8) },
}

/// What one countdown tick does: nothing once the room is no longer
/// playing (the tick task is being cancelled); otherwise one second comes
/// off the clock, and the game ends when the clock reaches zero or every
/// card is matched, with the winner computed exactly as on the
/// match-completion path.
pub open spec fn tick_result(st: StateV) -> (StateV, TickOutV) {
    if st.status != GameStatus::Playing {
        (st, TickOutV::Stopped)
    } else {
        let t2 = (st.timer - 1) as u16;
        if t2 == 0 || all_matched(st.cards) {
            let w = spec_winner(st.scores, st.p1, st.p2);
            let st2 = StateV { timer: t2, status: GameStatus::Finished, winner: Some(w), ..st };
            (st2, TickOutV::Over { state: st2, winner: w, scores: st.scores })
        } else {
            let st2 = StateV { timer: t2, ..st };
            (st2, TickOutV::Running { state: st2 })
        }
    }
}

/// The outcome of one countdown tick.
#[derive(Debug)]
pub enum TickOutcome {
    Stopped,
    Running { state: GameState },
    Over { state: GameState, winner: String, scores: (u8, u8) },
}

impl View for TickOutcome {
    type V = TickOutV;

    open spec fn view(&self) -> TickOutV {
        match self {
            TickOutcome::Stopped => TickOutV::Stopped,
            TickOutcome::Running { state } => TickOutV::Running { state: state@ },
            TickOutcome::Over { state, winner, scores } => TickOutV::Over {
                state: state@,
                winner: winner@,
                scores: *scores,
            },
        }
    }
}

/// The two mismatched cards turned face down again; the rest untouched.
pub open spec fn unflip_cards(s: Seq<Card>, a: u8, b: u8) -> Seq<Card> {
    Seq::new(s.len(), |i: int| if s[i].id == a || s[i].id == b {
        face_down(s[i])
    } else {
        s[i]
    })
}

/// What the delayed mismatch resolution does: nothing once the room is no
/// longer playing (the task is being cancelled), else it turns the pair
/// face down.
pub open spec fn unflip_result(st: StateV, a: u8, b: u8) -> StateV {
    if st.status != GameStatus::Playing {
        st
    } else {
        StateV { cards: unflip_cards(st.cards, a, b), ..st }
    }
}

impl Room {
    /// A new room for the given creator, carrying a freshly shuffled deck.
    pub fn new(id: String, creator_id: &String) -> (r: Room)
        ensures
            r@.id == id@,
            r@.creator_id == creator_id@,
            fresh_state(r@.state, creator_id@),
            wf_state(r@.state),
    {
        let deck = crate::cards::new_deck();
        proof {
            lemma_deck_properties(deck@);
        }
        Room {
            id,
            creator_id: creator_id.clone(),
            state: GameState {
                cards: deck,
                players: (
                    Player { id: creator_id.clone(), name: String::from_str("Player 1") },
                    None,
                ),
                current_turn: creator_id.clone(),
                scores: (0, 0),
                timer: 60,
                status: GameStatus::Waiting,
                winner: None,
            },
        }
    }

    /// Seats the caller as the second player if the slot is free and hands
    /// back the snapshot to send; a full room stays untouched.
    pub fn join(&mut self, player_id: &String) -> (r: Option<GameState>)
        requires
            wf_state(old(self)@.state),
        ensures
            wf_state(final(self)@.state),
            final(self)@.id == old(self)@.id,
            final(self)@.creator_id == old(self)@.creator_id,
            old(self)@.state.p2 is Some ==> r is None && *final(self) == *old(self),
            old(self)@.state.p2 is None ==> {
                &&& final(self)@.state == (StateV {
                    p2: Some(PlayerV { id: player_id@, name: "Player 2"@ }),
                    ..old(self)@.state
                })
                &&& r is Some
                &&& r->0@ == final(self)@.state
            },
    {
        if self.state.players.1.is_some() {
            return None;
        }
        self.state.players.1 = Some(
            Player { id: player_id.clone(), name: String::from_str("Player 2") },
        );
        Some(self.state.snapshot())
    }

    /// Handles one flip request as `flip_result` says: it either ignores
    /// the request, updates the board (possibly scheduling the mismatched
    /// pair to be turned back), or ends the game.
    pub fn flip(&mut self, player_id: &String, card_id: u8) -> (out: FlipOutcome)
        requires
            wf_state(old(self)@.state),
        ensures
            wf_state(final(self)@.state),
            final(self)@.id == old(self)@.id,
            final(self)@.creator_id == old(self)@.creator_id,
            final(self)@.state == flip_result(old(self)@.state, player_id@, card_id).0,
            out@ == flip_result(old(self)@.state, player_id@, card_id).1,
            !flip_allowed(old(self)@.state, player_id@, card_id) ==> *final(self) == *old(self),
    {
        let ghost st0 = self@.state;
        if self.state.status != GameStatus::Playing {
            return FlipOutcome::Ignored;
        }
        if !(self.state.current_turn == *player_id) {
            return FlipOutcome::Ignored;
        }
        let n = self.state.cards.len();
        let mut i: usize = 0;
        let mut k: usize = 0;
        let mut found: bool = false;
        while i < n
            invariant
                self.state@ == st0,
                self.id@ == old(self)@.id,
                self.creator_id@ == old(self)@.creator_id,
                n == st0.cards.len(),
                i <= n,
                !found ==> forall|m: int| 0 <= m < i ==> (#[trigger] st0.cards[m]).id != card_id,
                found ==> k < n && st0.cards[k as int].id == card_id,
            decreases n - i,
        {
            if !found && self.state.cards[i].id == card_id {
                k = i;
                found = true;
            }
            i = i + 1;
        }
        if !found {
            proof {
                assert(!has_card(st0.cards, card_id));
            }
            return FlipOutcome::Ignored;
        }
        proof {
            assert(has_card(st0.cards, card_id));
            let ki = card_idx(st0.cards, card_id);
            assert(0 <= ki < st0.cards.len() && st0.cards[ki].id == card_id);
            assert(ki == k as int);  // ids are unique
        }
        let c = self.state.cards[k];
        if c.flipped || c.matched {
            return FlipOutcome::Ignored;
        }
        proof {
            assert(flip_allowed(st0, player_id@, card_id));
        }
        let mut c2 = c;
        c2.flipped = true;
        self.state.cards[k] = c2;
        let ghost s1 = st0.cards.update(k as int, flip_up(st0.cards[k as int]));
        proof {
            assert(c2 == flip_up(st0.cards[k as int]));
            assert(self.state.cards@ =~= s1);
            lemma_count_update(st0.cards, matched_pred(), k as int, flip_up(st0.cards[k as int]));
            assert(count_matched(s1) == count_matched(st0.cards));
            assert(is_face_up_unmatched(s1[k as int]));
        }
        let mut m: usize = 0;
        let mut cnt: usize = 0;
        let mut other: usize = 0;
        let mut has_other: bool = false;
        while m < n
            invariant
                self.state@ == (StateV { cards: s1, ..st0 }),
                self.id@ == old(self)@.id,
                self.creator_id@ == old(self)@.creator_id,
                s1.len() == n,
                m <= n,
                cnt <= m,
                k < n,
                cnt == count_if(s1.take(m as int), face_up_unmatched_pred()),
                has_other ==> other < n && other != k
                    && is_face_up_unmatched(s1[other as int]),
                !has_other ==> forall|q: int|
                    0 <= q < m && q != k as int ==> !is_face_up_unmatched(#[trigger] s1[q]),
            decreases n - m,
        {
            let cc = self.state.cards[m];
            proof {
                lemma_count_take_step(s1, face_up_unmatched_pred(), m as int);
            }
            if cc.flipped && !cc.matched {
                cnt = cnt + 1;
                if m != k {
                    other = m;
                    has_other = true;
                }
            }
            m = m + 1;
        }
        proof {
            lemma_count_take_all(s1, face_up_unmatched_pred());
            assert(cnt == count_face_up_unmatched(s1));
        }
        if cnt == 2 {
            proof {
                if !has_other {
                    crate::counting::lemma_count_exactly_one_from_witness(
                        s1,
                        face_up_unmatched_pred(),
                        k as int,
                    );
                }
            }
            let ghost j = other_face_up(s1, k as int);
            proof {
                assert(0 <= j < s1.len() && j != k as int && is_face_up_unmatched(s1[j]))
                    by {
                    assert(other as int != k as int && is_face_up_unmatched(
                        s1[other as int],
                    ));
                }
                lemma_count_exactly_two(s1, face_up_unmatched_pred(), k as int, other as int);
                assert(j == other as int);
            }
            let a = self.state.cards[k];
            let b = self.state.cards[other];
            if a.value == b.value {
                let mut am = a;
                am.matched = true;
                let mut bm = b;
                bm.matched = true;
                self.state.cards[k] = am;
                self.state.cards[other] = bm;
                let ghost s2 = s1.update(k as int, set_matched(s1[k as int])).update(
                    j,
                    set_matched(s1[j]),
                );
                proof {
                    assert(self.state.cards@ =~= s2);
                    lemma_count_update(s1, matched_pred(), k as int, set_matched(s1[k as int]));
                    let s1b = s1.update(k as int, set_matched(s1[k as int]));
                    assert(s1b[j] == s1[j]);
                    lemma_count_update(s1b, matched_pred(), j, set_matched(s1[j]));
                    assert(count_matched(s2) == count_matched(st0.cards) + 2);
                    lemma_count_matched_le_len(st0.cards);
                }
                let (sc0, sc1) = self.state.scores;
                if self.state.players.0.id == *player_id {
                    self.state.scores = (sc0 + 1, sc1);
                } else {
                    self.state.scores = (sc0, sc1 + 1);
                }
                proof {
                    assert(self.state.scores == add_point(st0, player_id@));
                }
                let done = all_cards_matched(self.state.cards.as_slice());
                if done {
                    self.state.status = GameStatus::Finished;
                    let w = determine_winner(&self.state);
                    self.state.winner = Some(w.clone());
                    let snap = self.state.snapshot();
                    let scores = self.state.scores;
                    proof {
                        assert(final(self)@.state == flip_result(st0, player_id@, card_id).0);
                    }
                    FlipOutcome::Finished { state: snap, winner: w, scores }
                } else {
                    let snap = self.state.snapshot();
                    FlipOutcome::Updated { state: snap, unflip: None }
                }
            } else {
                let new_turn: String = if self.state.players.0.id == *player_id {
                    match self.state.players.1 {
                        Some(ref p) => p.id.clone(),
                        None => String::new(),  // unreachable: a playing room is full
                    }
                } else {
                    self.state.players.0.id.clone()
                };
                self.state.current_turn = new_turn;
                let snap = self.state.snapshot();
                proof {
                    assert(!all_matched(s1)) by {
                        assert(!s1[k as int].matched);
                    }
                }
                FlipOutcome::Updated { state: snap, unflip: Some((card_id, b.id)) }
            }
        } else {
            let snap = self.state.snapshot();
            proof {
                assert(!all_matched(s1)) by {
                    assert(!s1[k as int].matched);
                }
            }
            FlipOutcome::Updated { state: snap, unflip: None }
        }
    }

    /// One second of countdown, against the authoritative shared state:
    /// decrements the clock and ends the game when it reaches zero or
    /// every card is matched; a room no longer playing stops the task.
    pub fn tick(&mut self) -> (out: TickOutcome)
        requires
            wf_state(old(self)@.state),
        ensures
            wf_state(final(self)@.state),
            final(self)@.id == old(self)@.id,
            final(self)@.creator_id == old(self)@.creator_id,
            final(self)@.state == tick_result(old(self)@.state).0,
            out@ == tick_result(old(self)@.state).1,
            old(self)@.state.status != GameStatus::Playing ==> *final(self) == *old(self),
    {
        if self.state.status != GameStatus::Playing {
            return TickOutcome::Stopped;
        }
        let t2 = self.state.timer - 1;
        self.state.timer = t2;
        let done = all_cards_matched(self.state.cards.as_slice());
        if t2 == 0 || done {
            self.state.status = GameStatus::Finished;
            let w = determine_winner(&self.state);
            self.state.winner = Some(w.clone());
            let snap = self.state.snapshot();
            let scores = self.state.scores;
            TickOutcome::Over { state: snap, winner: w, scores }
        } else {
            let snap = self.state.snapshot();
            TickOutcome::Running { state: snap }
        }
    }

    /// Turns the two cards of a mismatched pair face down again, after the
    /// fixed delay has elapsed; once the room is no longer playing the
    /// pending task does nothing.
    pub fn unflip_pair(&mut self, a: u8, b: u8) -> (r: Option<GameState>)
        requires
            wf_state(old(self)@.state),
        ensures
            wf_state(final(self)@.state),
            final(self)@.id == old(self)@.id,
            final(self)@.creator_id == old(self)@.creator_id,
            final(self)@.state == unflip_result(old(self)@.state, a, b),
            old(self)@.state.status != GameStatus::Playing ==> *final(self) == *old(self),
            (old(self)@.state.status == GameStatus::Playing) <==> r is Some,
            r is Some ==> r->0@ == final(self)@.state,
    {
        if self.state.status != GameStatus::Playing {
            return None;
        }
        let ghost st0 = self@.state;
        let ghost target = unflip_cards(st0.cards, a, b);
        let n = self.state.cards.len();
        let mut i: usize = 0;
        while i < n
            invariant
                self.id@ == old(self)@.id,
                self.creator_id@ == old(self)@.creator_id,
                self.state@ == (StateV { cards: self.state.cards@, ..st0 }),
                n == st0.cards.len(),
                self.state.cards@.len() == n,
                target == unflip_cards(st0.cards, a, b),
                i <= n,
                forall|q: int| 0 <= q < i ==> self.state.cards@[q] == target[q],
                forall|q: int| i <= q < n ==> self.state.cards@[q] == st0.cards[q],
            decreases n - i,
        {
            let c = self.state.cards[i];
            if c.id == a || c.id == b {
                let mut c2 = c;
                c2.flipped = false;
                self.state.cards[i] = c2;
            }
            i = i + 1;
        }
        proof {
            assert(self.state.cards@ =~= target);
            lemma_count_congruent(st0.cards, target, matched_pred());
            let w = choose|w: int| 0 <= w < st0.cards.len() && !(#[trigger] st0.cards[w]).matched;
            assert(!target[w].matched);
        }
        Some(self.state.snapshot())
    }

    /// Moves a waiting room with both players seated into play; reports
    /// what kept it from starting otherwise.
    pub fn start(&mut self) -> (r: StartOutcome)
        requires
            wf_state(old(self)@.state),
        ensures
            wf_state(final(self)@.state),
            final(self)@.id == old(self)@.id,
            final(self)@.creator_id == old(self)@.creator_id,
            old(self)@.state.p2 is None ==> r == StartOutcome::NotEnoughPlayers && *final(self)
                == *old(self),
            old(self)@.state.p2 is Some && old(self)@.state.status != GameStatus::Waiting ==> r
                == StartOutcome::AlreadyRunning && *final(self) == *old(self),
            old(self)@.state.p2 is Some && old(self)@.state.status == GameStatus::Waiting ==> {
                &&& final(self)@.state == (StateV {
                    status: GameStatus::Playing,
                    ..old(self)@.state
                })
                &&& r == (StartOutcome::Started { timer: old(self)@.state.timer })
            },
    {
        if self.state.players.1.is_none() {
            return StartOutcome::NotEnoughPlayers;
        }
        match self.state.status {
            GameStatus::Waiting => {
                proof {
                    lemma_all_matched_iff_count(self.state.cards@);
                }
                self.state.status = GameStatus::Playing;
                StartOutcome::Started { timer: self.state.timer }
            },
            _ => StartOutcome::AlreadyRunning,
        }
    }
}

} // verus!

//! The per-room game data: players, status, scores, timer, and the
//! well-formedness that every operation of the room preserves.

use vstd::prelude::*;
use vstd::string::StringExecFns;

use crate::cards::{all_matched, count_matched, ids_unique, Card};
use crate::counting::{lemma_count_full, lemma_count_le_len};

verus! {

/// One player slot of a room.
#[derive(Debug)]
pub struct Player {
    pub id: String,
    pub name: String,
}

/// Where a room stands in its lifecycle; it only ever moves forward.
#[derive(Clone, Copy, Debug, PartialEq, Eq, Structural)]
pub enum GameStatus {
    Waiting,
    Playing,
    Finished,
}

/// The whole mutable state of one room's game.
#[derive(Debug)]
pub struct GameState {
    pub cards: Vec<Card>,
    pub players: (Player, Option<Player>),
    pub current_turn: String,
    pub scores: (u8, u8),
    pub timer: u16,
    pub status: GameStatus,
    pub winner: Option<String>,
}

pub ghost struct PlayerV {
    pub id: Seq<char>,
    pub name: Seq<char>,
}

/// The mathematical value of a `GameState`.
pub ghost struct StateV {
    pub cards: Seq<Card>,
    pub p1: PlayerV,
    pub p2: Option<PlayerV>,
    pub current_turn: Seq<char>,
    pub scores: (u8, u8),
    pub timer: u16,
    pub status: GameStatus,
    pub winner: Option<Seq<char>>,
}

impl View for Player {
    type V = PlayerV;

    open spec fn view(&self) -> PlayerV {
        PlayerV { id: self.id@, name: self.name@ }
    }
}

impl View for GameState {
    type V = StateV;

    open spec fn view(&self) -> StateV {
        StateV {
            cards: self.cards@,
            p1: self.players.0@,
            p2: match self.players.1 {
                Some(p) => Some(p@),
                None => None,
            },
            current_turn: self.current_turn@,
            scores: self.scores,
            timer: self.timer,
            status: self.status,
            winner: match self.winner {
                Some(ref w) => Some(w@),
                None => None,
            },
        }
    }
}

/// The invariant of a room's game state. Each scored point stands for one
/// matched pair, the turn always belongs to a seated player, the winner is
/// set exactly when the game is over, and a running game still has time
/// left and something to match.
pub open spec fn wf_state(st: StateV) -> bool {
    &&& st.cards.len() == 16
    &&& ids_unique(st.cards)
    &&& st.current_turn == st.p1.id || (st.p2 is Some && st.current_turn == st.p2->0.id)
    &&& st.p2 is None ==> st.scores.1 == 0
    &&& st.status != GameStatus::Waiting ==> st.p2 is Some
    &&& 2 * (st.scores.0 + st.scores.1) == count_matched(st.cards)
    &&& (st.winner is Some) <==> st.status == GameStatus::Finished
    &&& st.status == GameStatus::Playing ==> st.timer >= 1
    &&& st.status == GameStatus::Playing ==> !all_matched(st.cards)
    &&& st.status == GameStatus::Waiting ==> st.timer == 60 && count_matched(st.cards) == 0
}

/// The winner once a game ends: the strictly higher score wins, equal
/// scores are a draw.
pub open spec fn spec_winner(scores: (u8, u8), p1: PlayerV, p2: Option<PlayerV>) -> Seq<char> {
    if scores.0 > scores.1 {
        p1.id
    } else if scores.1 > scores.0 {
        p2->0.id
    } else {
        "draw"@
    }
}

/// Whether every card of the deck has been matched.
pub fn all_cards_matched(cards: &[Card]) -> (r: bool)
    ensures
        r == all_matched(cards@),
{
    let n = cards.len();
    let mut i: usize = 0;
    while i < n
        invariant
            n == cards@.len(),
            i <= n,
            forall|k: int| 0 <= k < i ==> (#[trigger] cards@[k]).matched,
        decreases n - i,
    {
        if !cards[i].matched {
            return false;
        }
        i = i + 1;
    }
    true
}

/// A full matched count is the same as every card being matched.
pub proof fn lemma_all_matched_iff_count(s: Seq<Card>)
    ensures
        all_matched(s) <==> count_matched(s) == s.len(),
{
    lemma_count_full(s, crate::cards::matched_pred());
}

/// The matched count never exceeds the number of cards.
pub proof fn lemma_count_matched_le_len(s: Seq<Card>)
    ensures
        count_matched(s) <= s.len(),
{
    lemma_count_le_len(s, crate::cards::matched_pred());
}

/// An element-by-element copy of the deck.
pub fn copy_cards(v: &Vec<Card>) -> (r: Vec<Card>)
    ensures
        r@ == v@,
{
    let n = v.len();
    let mut r: Vec<Card> = Vec::new();
    let mut i: usize = 0;
    while i < n
        invariant
            n == v@.len(),
            i <= n,
            r@ == v@.take(i as int),
        decreases n - i,
    {
        r.push(v[i]);
        proof {
            assert(v@.take(i + 1) =~= v@.take(i as int).push(v@[i as int]));
        }
        i = i + 1;
    }
    proof {
        assert(v@.take(n as int) =~= v@);
    }
    r
}

pub fn copy_player(p: &Player) -> (r: Player)
    ensures
        r@ == p@,
{
    Player { id: p.id.clone(), name: p.name.clone() }
}

impl GameState {
    /// A copy of the state with the same mathematical value, as broadcast
    /// to the room's outputs: every update is a full snapshot.
    pub fn snapshot(&self) -> (r: GameState)
        ensures
            r@ == self@,
    {
        GameState {
            cards: copy_cards(&self.cards),
            players: (
                copy_player(&self.players.0),
                match self.players.1 {
                    Some(ref p) => Some(copy_player(p)),
                    None => None,
                },
            ),
            current_turn: self.current_turn.clone(),
            scores: self.scores,
            timer: self.timer,
            status: self.status,
            winner: match self.winner {
                Some(ref w) => Some(w.clone()),
                None => None,
            },
        }
    }
}

/// The winner of the given state, by the strictly-higher-score rule shared
/// by the match-completion and countdown-expiry paths.
pub fn determine_winner(state: &GameState) -> (r: String)
    requires
        state@.scores.1 > state@.scores.0 ==> state@.p2 is Some,
    ensures
        r@ == spec_winner(state@.scores, state@.p1, state@.p2),
{
    if state.scores.0 > state.scores.1 {
        state.players.0.id.clone()
    } else if state.scores.1 > state.scores.0 {
        match state.players.1 {
            Some(ref p) => p.id.clone(),
            None => String::new(),  // unreachable under the precondition
        }
    } else {
        String::from_str("draw")
    }
}

} // verus!

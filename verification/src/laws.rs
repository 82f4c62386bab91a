//! The game's laws, proved once and for all over the transition
//! functions: what a matching pair does, what a mismatch does, and how a
//! game ends on either path.

use vstd::prelude::*;

use crate::cards::{
    all_matched, count_face_up_unmatched, face_up_unmatched_pred, is_face_up_unmatched,
};
use crate::counting::{
    lemma_count_exactly_two, lemma_count_update, lemma_count_zero,
};
use crate::game::{spec_winner, wf_state, GameStatus, PlayerV, StateV};
use crate::room::{
    card_at, card_idx, flip_allowed, flip_result, flip_up, has_card, next_turn,
    tick_result, unflip_result, FlipOutV, TickOutV,
};

verus! {

/// The winner rule both end-of-game paths share: the strictly higher
/// score wins, equal scores are a draw.
pub proof fn lemma_winner_rule(scores: (u8, u8), p1: PlayerV, p2: Option<PlayerV>)
    ensures
        scores.0 > scores.1 ==> spec_winner(scores, p1, p2) == p1.id,
        scores.1 > scores.0 ==> spec_winner(scores, p1, p2) == p2->0.id,
        scores.0 == scores.1 ==> spec_winner(scores, p1, p2) == "draw"@,
{
}

/// Facts shared by the two-flip laws: flipping a face-down card on an
/// otherwise clean board leaves exactly that card face up, and flipping a
/// second one brings the face-up count to exactly two, with the two flip
/// indices as the only witnesses.
proof fn lemma_two_flips_setup(st: StateV, pid: Seq<char>, c1: u8, c2: u8)
    requires
        wf_state(st),
        st.status == GameStatus::Playing,
        st.current_turn == pid,
        count_face_up_unmatched(st.cards) == 0,
        has_card(st.cards, c1),
        has_card(st.cards, c2),
        c1 != c2,
        !card_at(st.cards, c1).flipped,
        !card_at(st.cards, c1).matched,
        !card_at(st.cards, c2).flipped,
        !card_at(st.cards, c2).matched,
    ensures
        ({
            let k1 = card_idx(st.cards, c1);
            let k2 = card_idx(st.cards, c2);
            let st1 = flip_result(st, pid, c1).0;
            let s1 = st.cards.update(k1, flip_up(st.cards[k1]));
            let s2 = s1.update(k2, flip_up(s1[k2]));
            &&& 0 <= k1 < 16 && 0 <= k2 < 16 && k1 != k2
            &&& st1 == (StateV { cards: s1, ..st })
            &&& flip_allowed(st1, pid, c2)
            &&& card_idx(s1, c2) == k2
            &&& count_face_up_unmatched(s2) == 2
            &&& crate::room::other_face_up(s2, k2) == k1
            &&& s2[k1] == flip_up(st.cards[k1])
            &&& s2[k2] == flip_up(st.cards[k2])
        }),
{
    let k1 = card_idx(st.cards, c1);
    let k2 = card_idx(st.cards, c2);
    assert(0 <= k1 < st.cards.len() && st.cards[k1].id == c1);
    assert(0 <= k2 < st.cards.len() && st.cards[k2].id == c2);
    assert(k1 != k2);
    assert(flip_allowed(st, pid, c1));
    let s1 = st.cards.update(k1, flip_up(st.cards[k1]));
    lemma_count_zero(st.cards, face_up_unmatched_pred());
    lemma_count_update(st.cards, face_up_unmatched_pred(), k1, flip_up(st.cards[k1]));
    assert(count_face_up_unmatched(s1) == 1);
    let st1 = flip_result(st, pid, c1).0;
    assert(st1 == (StateV { cards: s1, ..st }));
    // the second card sits untouched in s1, under the same unique ids
    assert(s1[k2] == st.cards[k2]);
    assert(has_card(s1, c2));
    let k2b = card_idx(s1, c2);
    assert(0 <= k2b < s1.len() && s1[k2b].id == c2);
    assert(forall|i: int|
        0 <= i < s1.len() ==> (#[trigger] s1[i]).id == st.cards[i].id);
    assert(k2b == k2);  // ids are unique
    assert(flip_allowed(st1, pid, c2));
    let s2 = s1.update(k2, flip_up(s1[k2]));
    lemma_count_update(s1, face_up_unmatched_pred(), k2, flip_up(s1[k2]));
    assert(count_face_up_unmatched(s2) == 2);
    assert(is_face_up_unmatched(s2[k1]) && is_face_up_unmatched(s2[k2]));
    let j = crate::room::other_face_up(s2, k2);
    assert(0 <= j < s2.len() && j != k2 && is_face_up_unmatched(s2[j])) by {
        assert(k1 != k2 && is_face_up_unmatched(s2[k1]));
    }
    lemma_count_exactly_two(s2, face_up_unmatched_pred(), k2, k1);
    assert(j == k1);
}

/// Two flips of equal-value face-down cards by the player whose turn it
/// is: both cards become matched, that player's slot scores exactly one
/// more point, and the turn stays with them.
pub proof fn lemma_match_scores_and_keeps_turn(st: StateV, pid: Seq<char>, c1: u8, c2: u8)
    requires
        wf_state(st),
        st.status == GameStatus::Playing,
        st.current_turn == pid,
        count_face_up_unmatched(st.cards) == 0,
        has_card(st.cards, c1),
        has_card(st.cards, c2),
        c1 != c2,
        !card_at(st.cards, c1).flipped,
        !card_at(st.cards, c1).matched,
        !card_at(st.cards, c2).flipped,
        !card_at(st.cards, c2).matched,
        card_at(st.cards, c1).value == card_at(st.cards, c2).value,
    ensures
        ({
            let st1 = flip_result(st, pid, c1).0;
            let st2 = flip_result(st1, pid, c2).0;
            &&& card_at(st2.cards, c1).matched
            &&& card_at(st2.cards, c2).matched
            &&& st2.current_turn == pid
            &&& pid == st.p1.id ==> st2.scores == ((st.scores.0 + 1) as u8, st.scores.1)
            &&& pid != st.p1.id ==> st2.scores == (st.scores.0, (st.scores.1 + 1) as u8)
        }),
{
    lemma_two_flips_setup(st, pid, c1, c2);
    let k1 = card_idx(st.cards, c1);
    let k2 = card_idx(st.cards, c2);
    let st1 = flip_result(st, pid, c1).0;
    let s1 = st.cards.update(k1, flip_up(st.cards[k1]));
    let s2 = s1.update(k2, flip_up(s1[k2]));
    assert(s2[k1].value == s2[k2].value);
    let s3 = s2.update(k2, crate::room::set_matched(s2[k2])).update(
        k1,
        crate::room::set_matched(s2[k1]),
    );
    let st2 = flip_result(st1, pid, c2).0;
    assert(st2.cards == s3);
    assert(st2.current_turn == st.current_turn);
    // the matched pair is found again under its unchanged unique ids
    assert(forall|i: int|
        0 <= i < s3.len() ==> (#[trigger] s3[i]).id == st.cards[i].id);
    assert(s3[k1].id == c1 && s3[k2].id == c2);
    assert(has_card(s3, c1) && has_card(s3, c2));
    assert(card_idx(s3, c1) == k1 && card_idx(s3, c2) == k2);  // ids are unique
    assert(s3[k1].matched && s3[k2].matched);
}

/// Two flips of unequal-value cards: the turn passes to the other player
/// at once, the pair is left face up to be turned back after the fixed
/// delay, and once that delay resolves both cards are face down again
/// with no score changed anywhere along the way.
pub proof fn lemma_mismatch_passes_turn_and_unflips(st: StateV, pid: Seq<char>, c1: u8, c2: u8)
    requires
        wf_state(st),
        st.status == GameStatus::Playing,
        st.current_turn == pid,
        count_face_up_unmatched(st.cards) == 0,
        has_card(st.cards, c1),
        has_card(st.cards, c2),
        c1 != c2,
        !card_at(st.cards, c1).flipped,
        !card_at(st.cards, c1).matched,
        !card_at(st.cards, c2).flipped,
        !card_at(st.cards, c2).matched,
        card_at(st.cards, c1).value != card_at(st.cards, c2).value,
    ensures
        ({
            let st1 = flip_result(st, pid, c1).0;
            let step2 = flip_result(st1, pid, c2);
            let st2 = step2.0;
            let st3 = unflip_result(st2, c2, c1);
            &&& st2.current_turn == next_turn(st, pid)
            &&& st2.scores == st.scores
            &&& (step2.1 matches FlipOutV::Updated { state, unflip } && state == st2 && unflip
                == Some((c2, c1)))
            &&& st3.status == GameStatus::Playing
            &&& !card_at(st3.cards, c1).flipped
            &&& !card_at(st3.cards, c2).flipped
            &&& st3.scores == st.scores
        }),
{
    lemma_two_flips_setup(st, pid, c1, c2);
    let k1 = card_idx(st.cards, c1);
    let k2 = card_idx(st.cards, c2);
    let st1 = flip_result(st, pid, c1).0;
    let s1 = st.cards.update(k1, flip_up(st.cards[k1]));
    let s2 = s1.update(k2, flip_up(s1[k2]));
    assert(s2[k1].value != s2[k2].value);
    let step2 = flip_result(st1, pid, c2);
    let st2 = step2.0;
    assert(st2.cards == s2 && st2.status == GameStatus::Playing);
    assert(st2.current_turn == next_turn(st1, pid));
    assert(next_turn(st1, pid) == next_turn(st, pid));
    assert(s2[k1].id == c1);
    assert(step2.1 == FlipOutV::Updated { state: st2, unflip: Some((c2, c1)) });
    let st3 = unflip_result(st2, c2, c1);
    let s4 = crate::room::unflip_cards(s2, c2, c1);
    assert(st3.cards == s4);
    assert(forall|i: int|
        0 <= i < s4.len() ==> (#[trigger] s4[i]).id == st.cards[i].id);
    assert(s4[k1].id == c1 && s4[k2].id == c2);
    assert(has_card(s4, c1) && has_card(s4, c2));
    assert(card_idx(s4, c1) == k1 && card_idx(s4, c2) == k2);  // ids are unique
    assert(!s4[k1].flipped && !s4[k2].flipped);
}

/// A flip that leaves every card matched ends the game there and then:
/// the status becomes `Finished` and the game-over report carries the
/// winner computed by the strictly-higher-score rule.
pub proof fn lemma_finish_by_match(st: StateV, pid: Seq<char>, cid: u8)
    requires
        wf_state(st),
    ensures
        ({
            let step = flip_result(st, pid, cid);
            let st2 = step.0;
            all_matched(st2.cards) && !all_matched(st.cards) ==> {
                &&& st2.status == GameStatus::Finished
                &&& st2.winner == Some(spec_winner(st2.scores, st.p1, st.p2))
                &&& step.1 == (FlipOutV::Finished {
                    state: st2,
                    winner: spec_winner(st2.scores, st.p1, st.p2),
                    scores: st2.scores,
                })
            }
        }),
{
    let step = flip_result(st, pid, cid);
    let st2 = step.0;
    if all_matched(st2.cards) && !all_matched(st.cards) {
        assert(flip_allowed(st, pid, cid));
        let k = card_idx(st.cards, cid);
        let s1 = st.cards.update(k, flip_up(st.cards[k]));
        if count_face_up_unmatched(s1) == 2 {
            let j = crate::room::other_face_up(s1, k);
            if s1[j].value == s1[k].value {
            } else {
                assert(!st2.cards[k].matched);
            }
        } else {
            assert(!st2.cards[k].matched);
        }
    }
}

/// `Finished` is terminal: once a game is over, a flip is ignored, a
/// countdown tick stops its task, and a pending mismatch resolution is
/// cancelled, all without touching the state.
pub proof fn lemma_finished_is_terminal(st: StateV, pid: Seq<char>, cid: u8, a: u8, b: u8)
    requires
        st.status == GameStatus::Finished,
    ensures
        flip_result(st, pid, cid) == (st, FlipOutV::Ignored),
        tick_result(st) == (st, TickOutV::Stopped),
        unflip_result(st, a, b) == st,
{
}

/// The countdown reaching zero ends the game with the winner computed by
/// the same rule, `spec_winner`, as the match-completion path, from
/// whatever the scores are at that instant.
pub proof fn lemma_finish_by_countdown(st: StateV)
    requires
        wf_state(st),
        st.status == GameStatus::Playing,
        st.timer == 1,
    ensures
        ({
            let step = tick_result(st);
            let st2 = step.0;
            &&& st2.status == GameStatus::Finished
            &&& st2.winner == Some(spec_winner(st.scores, st.p1, st.p2))
            &&& step.1 == (TickOutV::Over {
                state: st2,
                winner: spec_winner(st.scores, st.p1, st.p2),
                scores: st.scores,
            })
        }),
{
}

} // verus!

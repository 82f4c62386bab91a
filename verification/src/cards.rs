//! The sixteen-card deck: eight values, two cards of each value.

use vstd::multiset::Multiset;
use vstd::prelude::*;

use crate::counting::{
    count_if, lemma_count_exactly_two_from_witnesses, lemma_count_zero,
};
use crate::rng::shuffle_cards;

verus! {

/// One card of the sixteen-card deck.
#[derive(Clone, Copy, Debug, PartialEq, Eq, Structural)]
pub struct Card {
    pub id: u8,
    pub value: u8,
    pub flipped: bool,
    pub matched: bool,
}

/// The card with the given id as it looks in a freshly built deck:
/// face down, unmatched, carrying value `id / 2`.
pub open spec fn fresh_card(id: u8) -> Card {
    Card { id, value: id / 2, flipped: false, matched: false }
}

/// A card that is face up but not yet part of a matched pair.
pub open spec fn is_face_up_unmatched(c: Card) -> bool {
    c.flipped && !c.matched
}

pub open spec fn face_up_unmatched_pred() -> spec_fn(Card) -> bool {
    |c: Card| is_face_up_unmatched(c)
}

pub open spec fn matched_pred() -> spec_fn(Card) -> bool {
    |c: Card| c.matched
}

pub open spec fn value_pred(val: u8) -> spec_fn(Card) -> bool {
    |c: Card| c.value == val
}

/// How many cards are face up and unmatched.
pub open spec fn count_face_up_unmatched(s: Seq<Card>) -> nat {
    count_if(s, face_up_unmatched_pred())
}

/// How many cards belong to an already matched pair.
pub open spec fn count_matched(s: Seq<Card>) -> nat {
    count_if(s, matched_pred())
}

/// How many cards carry the given value.
pub open spec fn count_value(s: Seq<Card>, val: u8) -> nat {
    count_if(s, value_pred(val))
}

pub open spec fn all_matched(s: Seq<Card>) -> bool {
    forall|i: int| 0 <= i < s.len() ==> s[i].matched
}

/// What holds of a deck whatever order its cards are in: it is, as a
/// multiset, exactly the sixteen fresh cards, one of each id.
pub open spec fn deck_ok_multiset(m: Multiset<Card>) -> bool {
    &&& m.len() == 16
    &&& forall|id: u8| id < 16 ==> m.count(fresh_card(id)) == 1
    &&& forall|c: Card| m.contains(c) ==> c.id < 16 && c == fresh_card(c.id)
}

pub open spec fn deck_ok(s: Seq<Card>) -> bool {
    deck_ok_multiset(s.to_multiset())
}

/// No two cards share an id.
pub open spec fn ids_unique(s: Seq<Card>) -> bool {
    forall|i: int, j: int|
        0 <= i < s.len() && 0 <= j < s.len() && i != j ==> s[i].id != s[j].id
}

/// The pointwise facts a well-formed deck yields: sixteen face-down,
/// unmatched cards with unique ids below 16, and each of the eight
/// values on exactly two cards.
pub proof fn lemma_deck_properties(s: Seq<Card>)
    requires
        deck_ok(s),
    ensures
        s.len() == 16,
        forall|i: int|
            0 <= i < s.len() ==> (#[trigger] s[i]) == fresh_card(s[i].id) && s[i].id < 16,
        forall|i: int|
            0 <= i < s.len() ==> !(#[trigger] s[i]).flipped && !s[i].matched && s[i].value < 8,
        ids_unique(s),
        forall|val: u8| val < 8 ==> count_value(s, val) == 2,
        count_matched(s) == 0,
        count_face_up_unmatched(s) == 0,
{
    broadcast use vstd::seq_lib::group_to_multiset_ensures;

    let m = s.to_multiset();
    assert(s.len() == 16);
    assert forall|i: int| 0 <= i < s.len() implies (#[trigger] s[i]) == fresh_card(s[i].id)
        && s[i].id < 16 by {
        assert(s.contains(s[i]));
        assert(m.contains(s[i]));
    }
    assert forall|i: int| 0 <= i < s.len() implies !(#[trigger] s[i]).flipped && !s[i].matched
        && s[i].value < 8 by {
        assert(s[i] == fresh_card(s[i].id));
    }
    assert forall|i: int, j: int|
        0 <= i < s.len() && 0 <= j < s.len() && i != j implies s[i].id != s[j].id by {
        if s[i].id == s[j].id {
            assert(s[i] == fresh_card(s[i].id) && s[j] == fresh_card(s[j].id));
            assert(s[i] == s[j]);
            lemma_two_equal_cards_count(s, i, j);
            assert(m.count(s[i]) >= 2);
        }
    }
    lemma_count_zero(s, matched_pred());
    lemma_count_zero(s, face_up_unmatched_pred());
    assert forall|val: u8| val < 8 implies count_value(s, val) == 2 by {
        let ca = fresh_card((2 * val) as u8);
        let cb = fresh_card((2 * val + 1) as u8);
        assert(ca.value == val && cb.value == val) by {
            assert((2 * val) / 2 == val && (2 * val + 1) / 2 == val) by (nonlinear_arith);
        }
        assert(m.count(ca) == 1 && m.count(cb) == 1);
        assert(m.contains(ca) && m.contains(cb));
        assert(s.contains(ca) && s.contains(cb));
        let i = choose|i: int| 0 <= i < s.len() && s[i] == ca;
        let j = choose|j: int| 0 <= j < s.len() && s[j] == cb;
        assert(i != j);
        assert forall|k: int| 0 <= k < s.len() && value_pred(val)(#[trigger] s[k]) implies k == i
            || k == j by {
            assert(s[k] == fresh_card(s[k].id));
            assert(s[k].id / 2 == val);
            assert(s[k].id == 2 * val || s[k].id == 2 * val + 1) by (nonlinear_arith)
                requires
                    s[k].id / 2 == val,
            ;
            if s[k] == ca && k != i {
                lemma_two_equal_cards_count(s, k, i);
            }
            if s[k] == cb && k != j {
                lemma_two_equal_cards_count(s, k, j);
            }
        }
        lemma_count_exactly_two_from_witnesses(s, value_pred(val), i, j);
    }
}

/// Two distinct positions holding the same card put its multiset count at two.
proof fn lemma_two_equal_cards_count(s: Seq<Card>, i: int, j: int)
    requires
        0 <= i < s.len(),
        0 <= j < s.len(),
        i != j,
        s[i] == s[j],
    ensures
        s.to_multiset().count(s[i]) >= 2,
{
    broadcast use vstd::seq_lib::group_to_multiset_ensures;

    let a = if i > j {
        i
    } else {
        j
    };
    let b = if i > j {
        j
    } else {
        i
    };
    assert(s.remove(a).to_multiset() =~= s.to_multiset().remove(s[a]));
    assert(s.remove(a)[b] == s[b]);
    assert(s.remove(a).contains(s[b]));
    assert(s.remove(a).to_multiset().count(s[b]) >= 1);
}

/// Builds the deck in id order: cards 0..16, value `id / 2`.
fn build_deck() -> (deck: Vec<Card>)
    ensures
        deck@.len() == 16,
        forall|i: int| 0 <= i < 16 ==> #[trigger] deck@[i] == fresh_card(i as u8),
{
    let mut deck: Vec<Card> = Vec::new();
    let mut id: u8 = 0;
    while id < 16
        invariant
            id <= 16,
            deck@.len() == id,
            forall|i: int| 0 <= i < id ==> #[trigger] deck@[i] == fresh_card(i as u8),
        decreases 16 - id,
    {
        deck.push(Card { id, value: id / 2, flipped: false, matched: false });
        id = id + 1;
    }
    deck
}

/// A deck laid out in id order is well formed.
proof fn lemma_ordered_deck_ok(s: Seq<Card>)
    requires
        s.len() == 16,
        forall|i: int| 0 <= i < 16 ==> #[trigger] s[i] == fresh_card(i as u8),
    ensures
        deck_ok(s),
{
    broadcast use vstd::seq_lib::group_to_multiset_ensures;

    let m = s.to_multiset();
    assert(s.no_duplicates()) by {
        assert forall|i: int, j: int|
            0 <= i < s.len() && 0 <= j < s.len() && i != j implies s[i] != s[j] by {
            assert(s[i].id == i && s[j].id == j);
        }
    }
    s.lemma_multiset_has_no_duplicates();
    assert forall|id: u8| id < 16 implies m.count(fresh_card(id)) == 1 by {
        assert(s[id as int] == fresh_card(id));
        assert(s.contains(fresh_card(id)));
        assert(m.contains(fresh_card(id)));
    }
    assert forall|c: Card| m.contains(c) implies c.id < 16 && c == fresh_card(c.id) by {
        assert(s.contains(c));
        let i = choose|i: int| 0 <= i < s.len() && s[i] == c;
        assert(s[i] == fresh_card(i as u8));
    }
}

/// Builds and shuffles a fresh deck.
pub fn new_deck() -> (deck: Vec<Card>)
    ensures
        deck_ok(deck@),
{
    let mut deck = build_deck();
    proof {
        lemma_ordered_deck_ok(deck@);
    }
    shuffle_cards(&mut deck);
    deck
}

} // verus!

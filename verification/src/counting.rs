//! Counting how many cards of a sequence satisfy a predicate, with the
//! lemmas the state machine needs: how a count changes under an update,
//! and how it pins down which indices satisfy the predicate.

use vstd::prelude::*;

use crate::cards::Card;

verus! {

/// Number of cards in `s` that satisfy `p`.
pub open spec fn count_if(s: Seq<Card>, p: spec_fn(Card) -> bool) -> nat
    decreases s.len(),
{
    if s.len() == 0 {
        0
    } else {
        count_if(s.drop_last(), p) + (if p(s.last()) {
            1nat
        } else {
            0nat
        })
    }
}

pub proof fn lemma_count_le_len(s: Seq<Card>, p: spec_fn(Card) -> bool)
    ensures
        count_if(s, p) <= s.len(),
    decreases s.len(),
{
    if s.len() > 0 {
        lemma_count_le_len(s.drop_last(), p);
    }
}

/// Extending a prefix of `s` by one element adds that element's contribution.
pub proof fn lemma_count_take_step(s: Seq<Card>, p: spec_fn(Card) -> bool, i: int)
    requires
        0 <= i < s.len(),
    ensures
        count_if(s.take(i + 1), p) == count_if(s.take(i), p) + (if p(s[i]) {
            1int
        } else {
            0int
        }),
{
    assert(s.take(i + 1).drop_last() =~= s.take(i));
    assert(s.take(i + 1).last() == s[i]);
}

pub proof fn lemma_count_take_all(s: Seq<Card>, p: spec_fn(Card) -> bool)
    ensures
        count_if(s.take(s.len() as int), p) == count_if(s, p),
{
    assert(s.take(s.len() as int) =~= s);
}

/// Replacing the card at `i` exchanges its contribution for the new card's.
pub proof fn lemma_count_update(s: Seq<Card>, p: spec_fn(Card) -> bool, i: int, c: Card)
    requires
        0 <= i < s.len(),
    ensures
        count_if(s.update(i, c), p) == count_if(s, p) - (if p(s[i]) {
            1int
        } else {
            0int
        }) + (if p(c) {
            1int
        } else {
            0int
        }),
    decreases s.len(),
{
    let t = s.update(i, c);
    if i == s.len() - 1 {
        assert(t.drop_last() =~= s.drop_last());
        assert(t.last() == c);
    } else {
        assert(t.drop_last() =~= s.drop_last().update(i, c));
        assert(t.last() == s.last());
        lemma_count_update(s.drop_last(), p, i, c);
    }
}

pub proof fn lemma_count_remove(s: Seq<Card>, p: spec_fn(Card) -> bool, i: int)
    requires
        0 <= i < s.len(),
    ensures
        count_if(s, p) == count_if(s.remove(i), p) + (if p(s[i]) {
            1int
        } else {
            0int
        }),
    decreases s.len(),
{
    if i == s.len() - 1 {
        assert(s.remove(i) =~= s.drop_last());
    } else {
        assert(s.remove(i).drop_last() =~= s.drop_last().remove(i));
        assert(s.remove(i).last() == s.last());
        lemma_count_remove(s.drop_last(), p, i);
    }
}

/// A count of zero means no card satisfies the predicate, and conversely.
pub proof fn lemma_count_zero(s: Seq<Card>, p: spec_fn(Card) -> bool)
    ensures
        (count_if(s, p) == 0) <==> (forall|i: int| 0 <= i < s.len() ==> !p(s[i])),
    decreases s.len(),
{
    if s.len() > 0 {
        lemma_count_zero(s.drop_last(), p);
        assert(s.last() == s[s.len() - 1]);
        assert(forall|i: int| 0 <= i < s.len() - 1 ==> s.drop_last()[i] == s[i]);
    }
}

/// A full count means every card satisfies the predicate, and conversely.
pub proof fn lemma_count_full(s: Seq<Card>, p: spec_fn(Card) -> bool)
    ensures
        (count_if(s, p) == s.len()) <==> (forall|i: int| 0 <= i < s.len() ==> p(s[i])),
    decreases s.len(),
{
    if s.len() > 0 {
        lemma_count_full(s.drop_last(), p);
        lemma_count_le_len(s.drop_last(), p);
        assert(s.last() == s[s.len() - 1]);
        assert(forall|i: int| 0 <= i < s.len() - 1 ==> s.drop_last()[i] == s[i]);
    }
}

/// Sequences that agree on the predicate position by position have
/// equal counts.
pub proof fn lemma_count_congruent(s: Seq<Card>, t: Seq<Card>, p: spec_fn(Card) -> bool)
    requires
        s.len() == t.len(),
        forall|i: int| 0 <= i < s.len() ==> p(#[trigger] s[i]) == p(#[trigger] t[i]),
    ensures
        count_if(s, p) == count_if(t, p),
    decreases s.len(),
{
    if s.len() > 0 {
        assert(forall|i: int|
            0 <= i < s.len() - 1 ==> s.drop_last()[i] == s[i] && t.drop_last()[i] == t[i]);
        lemma_count_congruent(s.drop_last(), t.drop_last(), p);
        assert(s.last() == s[s.len() - 1] && t.last() == t[t.len() - 1]);
    }
}

/// One witness index pushes the count to at least one.
pub proof fn lemma_count_at_least_one(s: Seq<Card>, p: spec_fn(Card) -> bool, i: int)
    requires
        0 <= i < s.len(),
        p(s[i]),
    ensures
        count_if(s, p) >= 1,
{
    lemma_count_remove(s, p, i);
}

/// Two distinct witness indices push the count to at least two.
pub proof fn lemma_count_at_least_two(s: Seq<Card>, p: spec_fn(Card) -> bool, i: int, j: int)
    requires
        0 <= i < s.len(),
        0 <= j < s.len(),
        i != j,
        p(s[i]),
        p(s[j]),
    ensures
        count_if(s, p) >= 2,
{
    let a = if i > j {
        i
    } else {
        j
    };
    let b = if i > j {
        j
    } else {
        i
    };
    lemma_count_remove(s, p, a);
    assert(s.remove(a)[b] == s[b]);
    lemma_count_at_least_one(s.remove(a), p, b);
}

/// With a count of exactly two, two distinct witnesses are the only ones.
pub proof fn lemma_count_exactly_two(s: Seq<Card>, p: spec_fn(Card) -> bool, i: int, j: int)
    requires
        count_if(s, p) == 2,
        0 <= i < s.len(),
        0 <= j < s.len(),
        i != j,
        p(s[i]),
        p(s[j]),
    ensures
        forall|k: int| 0 <= k < s.len() && p(s[k]) ==> k == i || k == j,
{
    assert forall|k: int| 0 <= k < s.len() && p(s[k]) implies k == i || k == j by {
        if k != i && k != j {
            let a = if i >= j && i >= k {
                i
            } else if j >= i && j >= k {
                j
            } else {
                k
            };
            let b = if a == i {
                if j > k {
                    j
                } else {
                    k
                }
            } else if a == j {
                if i > k {
                    i
                } else {
                    k
                }
            } else {
                if i > j {
                    i
                } else {
                    j
                }
            };
            let c = i + j + k - a - b;
            assert(0 <= c < b < a < s.len());
            assert(p(s[a]) && p(s[b]) && p(s[c]));
            lemma_count_remove(s, p, a);
            assert(s.remove(a)[b] == s[b]);
            assert(s.remove(a)[c] == s[c]);
            lemma_count_at_least_two(s.remove(a), p, b, c);
        }
    }
}

/// With one witness and no other, the count is exactly one.
pub proof fn lemma_count_exactly_one_from_witness(s: Seq<Card>, p: spec_fn(Card) -> bool, i: int)
    requires
        0 <= i < s.len(),
        p(s[i]),
        forall|k: int| 0 <= k < s.len() && p(#[trigger] s[k]) ==> k == i,
    ensures
        count_if(s, p) == 1,
{
    lemma_count_remove(s, p, i);
    lemma_count_zero(s.remove(i), p);
    assert forall|k: int| 0 <= k < s.remove(i).len() implies !p(s.remove(i)[k]) by {
        let k2 = if k < i {
            k
        } else {
            k + 1
        };
        assert(s.remove(i)[k] == s[k2]);
    }
}

/// With two distinct witnesses and no other, the count is exactly two.
pub proof fn lemma_count_exactly_two_from_witnesses(
    s: Seq<Card>,
    p: spec_fn(Card) -> bool,
    i: int,
    j: int,
)
    requires
        0 <= i < s.len(),
        0 <= j < s.len(),
        i != j,
        p(s[i]),
        p(s[j]),
        forall|k: int| 0 <= k < s.len() && p(#[trigger] s[k]) ==> k == i || k == j,
    ensures
        count_if(s, p) == 2,
{
    let a = if i > j {
        i
    } else {
        j
    };
    let b = if i > j {
        j
    } else {
        i
    };
    lemma_count_remove(s, p, a);
    assert(s.remove(a)[b] == s[b]);
    assert forall|k: int| 0 <= k < s.remove(a).len() && p(#[trigger] s.remove(a)[k]) implies k
        == b by {
        let k2 = if k < a {
            k
        } else {
            k + 1
        };
        assert(s.remove(a)[k] == s[k2]);
    }
    lemma_count_exactly_one_from_witness(s.remove(a), p, b);
}

} // verus!

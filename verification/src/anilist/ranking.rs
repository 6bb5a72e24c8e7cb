//! Picking the best of several candidates.
//!
//! A candidate is ranked by the similarity of its title to the query, and,
//! between two of the same similarity, a licensed one is ahead of one that is
//! not. Among candidates of which none is ahead of another, the first wins.

use vstd::prelude::*;
use super::similarity::{lemma_exceeds_carries_over, Similarity};

verus! {

/// The rank of a candidate.
#[derive(Debug, Clone, Copy)]
pub struct Rank {
    pub similarity: Similarity,
    pub licensed: bool,
}

impl Rank {
    /// Whether this rank is strictly ahead of `other`: its similarity is
    /// higher, or it is the same and only this one is licensed.
    pub open spec fn beats(self, other: Rank) -> bool {
        ||| self.similarity.exceeds(other.similarity)
        ||| self.similarity.ties(other.similarity) && self.licensed && !other.licensed
    }

    /// Whether this rank is strictly ahead of `other`.
    pub fn is_ahead_of(&self, other: &Rank) -> (r: bool)
        ensures
            r == self.beats(*other),
    {
        if self.similarity.is_higher_than(&other.similarity) {
            true
        } else {
            self.similarity.is_same_as(&other.similarity) && self.licensed && !other.licensed
        }
    }
}

/// The rank that a similarity gives: none where it is below the threshold of a match.
pub open spec fn rank_of(similarity: Similarity, licensed: bool) -> Option<Rank> {
    if similarity.is_match() {
        Some(Rank { similarity, licensed })
    } else {
        None
    }
}

/// Whether there is a rank and its similarity is exact: the candidate goes
/// by the very name that is asked for.
pub open spec fn is_exact_rank(rank: Option<Rank>) -> bool {
    rank matches Some(rank) && rank.similarity.is_exact()
}

/// Whether every rank among the first `n` has a similarity of a length of at least 1.
pub open spec fn are_sound(ranks: Seq<Option<Rank>>, n: int) -> bool {
    forall|j: int| 0 <= j < n && (#[trigger] ranks[j]) is Some ==> ranks[j]->0.similarity.length >= 1
}

/// Whether candidate `k` is the winner among the first `n`: it has a rank, it
/// is ahead of every ranked candidate before it, and no candidate after it
/// is ahead of it.
pub open spec fn is_first_best(ranks: Seq<Option<Rank>>, n: int, k: int) -> bool {
    &&& 0 <= k < n <= ranks.len()
    &&& ranks[k] is Some
    &&& forall|j: int| 0 <= j < k && (#[trigger] ranks[j]) is Some ==> ranks[k]->0.beats(ranks[j]->0)
    &&& forall|j: int| k < j < n && (#[trigger] ranks[j]) is Some ==> !ranks[j]->0.beats(ranks[k]->0)
}

/// The winner among the candidates: none where no candidate has a rank.
pub open spec fn first_best(ranks: Seq<Option<Rank>>) -> Option<int> {
    if exists|k: int| is_first_best(ranks, ranks.len() as int, k) {
        Some(choose|k: int| is_first_best(ranks, ranks.len() as int, k))
    } else {
        None
    }
}

/// The winner so far, while the candidates are gone through in order.
#[derive(Debug, Clone, Copy)]
pub struct Leader {
    pub index: usize,
    pub rank: Rank,
}

/// Whether `leader` is the winner among the first `n` candidates.
pub open spec fn leads(leader: Option<Leader>, ranks: Seq<Option<Rank>>, n: int) -> bool {
    match leader {
        Some(leader) => is_first_best(ranks, n, leader.index as int) && ranks[leader.index as int] == Some(
            leader.rank,
        ),
        None => 0 <= n <= ranks.len() && forall|j: int| 0 <= j < n ==> (#[trigger] ranks[j]) is None,
    }
}

/// There is at most one winner.
pub proof fn lemma_one_winner(ranks: Seq<Option<Rank>>, n: int, k1: int, k2: int)
    requires
        is_first_best(ranks, n, k1),
        is_first_best(ranks, n, k2),
    ensures
        k1 == k2,
{
}

/// The winner among all candidates is what `first_best` names.
pub proof fn lemma_leader_is_first_best(leader: Option<Leader>, ranks: Seq<Option<Rank>>)
    requires
        leads(leader, ranks, ranks.len() as int),
    ensures
        first_best(ranks) == (match leader {
            Some(leader) => Some(leader.index as int),
            None => None,
        }),
{
    let n = ranks.len() as int;
    match leader {
        Some(leader) => {
            let k = choose|k: int| is_first_best(ranks, n, k);
            lemma_one_winner(ranks, n, k, leader.index as int);
        },
        None => {
            if exists|k: int| is_first_best(ranks, n, k) {
                let k = choose|k: int| is_first_best(ranks, n, k);
            }
        },
    }
}

/// Where some candidate has a rank, there is a winner.
pub proof fn lemma_winner_exists(ranks: Seq<Option<Rank>>, n: int)
    requires
        0 <= n <= ranks.len(),
        are_sound(ranks, n),
        exists|j: int| 0 <= j < n && (#[trigger] ranks[j]) is Some,
    ensures
        exists|k: int| is_first_best(ranks, n, k),
    decreases n,
{
    let last = n - 1;
    if exists|j: int| 0 <= j < last && (#[trigger] ranks[j]) is Some {
        lemma_winner_exists(ranks, last);
        let k = choose|k: int| is_first_best(ranks, last, k);
        if ranks[last] is Some && ranks[last]->0.beats(ranks[k]->0) {
            assert forall|j: int| 0 <= j < last && (#[trigger] ranks[j]) is Some implies ranks[last]->0.beats(
                ranks[j]->0,
            ) by {
                lemma_beats_carries_over(ranks[last]->0, ranks[k]->0, ranks[j]->0);
            }
            assert(is_first_best(ranks, n, last));
        } else {
            assert(is_first_best(ranks, n, k));
        }
    } else {
        assert(is_first_best(ranks, n, last));
    }
}

/// There is a winner exactly where some candidate has a rank.
pub proof fn lemma_winner_iff_ranked(ranks: Seq<Option<Rank>>)
    requires
        are_sound(ranks, ranks.len() as int),
    ensures
        first_best(ranks) is Some <==> exists|j: int| 0 <= j < ranks.len() && (#[trigger] ranks[j]) is Some,
        first_best(ranks) matches Some(k) ==> is_first_best(ranks, ranks.len() as int, k),
{
    let n = ranks.len() as int;
    if exists|j: int| 0 <= j < n && (#[trigger] ranks[j]) is Some {
        lemma_winner_exists(ranks, n);
    }
    if first_best(ranks) is Some {
        let k = choose|k: int| is_first_best(ranks, n, k);
        assert(ranks[k] is Some);
    }
}

/// Where some candidate is exactly alike, so is the winner.
pub proof fn lemma_exact_wins(ranks: Seq<Option<Rank>>, n: int, k: int, j: int)
    requires
        is_first_best(ranks, n, k),
        are_sound(ranks, n),
        0 <= j < n,
        is_exact_rank(ranks[j]),
    ensures
        is_exact_rank(ranks[k]),
{
    let exact = ranks[j]->0.similarity;
    let won = ranks[k]->0.similarity;
    if won.distance > 0 {
        assert(won.distance * exact.length > 0) by (nonlinear_arith)
            requires
                won.distance > 0,
                exact.length >= 1,
        ;
        assert(exact.distance * won.length == 0) by (nonlinear_arith)
            requires
                exact.distance == 0,
        ;
    }
}

/// Lets candidate `i` contend with the winner among the candidates before it.
pub(crate) fn contend(
    leader: Option<Leader>,
    i: usize,
    rank: Option<Rank>,
    Ghost(ranks): Ghost<Seq<Option<Rank>>>,
) -> (r: Option<Leader>)
    requires
        i < ranks.len(),
        leads(leader, ranks, i as int),
        ranks[i as int] == rank,
        are_sound(ranks, i + 1),
    ensures
        leads(r, ranks, i + 1),
{
    match rank {
        None => leader,
        Some(rank) => match leader {
            None => Some(Leader { index: i, rank }),
            Some(current) => {
                if rank.is_ahead_of(&current.rank) {
                    proof {
                        assert forall|j: int| 0 <= j < i && (#[trigger] ranks[j]) is Some implies rank.beats(
                            ranks[j]->0,
                        ) by {
                            lemma_beats_carries_over(rank, current.rank, ranks[j]->0);
                        }
                    }
                    Some(Leader { index: i, rank })
                } else {
                    leader
                }
            },
        },
    }
}

/// A rank that is ahead of a second one is ahead of every rank that is not
/// ahead of the second one.
pub proof fn lemma_beats_carries_over(a: Rank, b: Rank, c: Rank)
    requires
        a.similarity.length >= 1,
        b.similarity.length >= 1,
        c.similarity.length >= 1,
        a.beats(b),
        !c.beats(b),
    ensures
        a.beats(c),
{
    lemma_exceeds_carries_over(a.similarity, b.similarity, c.similarity);
}

} // verus!

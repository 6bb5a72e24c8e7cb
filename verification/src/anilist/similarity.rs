//! How alike two titles are.
//!
//! The similarity of two strings is `1 - d / m`, where `d` is their
//! Levenshtein distance and `m` the length of the longer one, both counted in
//! characters; two empty strings are alike. It is kept as the exact fraction
//! `d / m` and compared by cross-multiplication, so no rounding takes part in
//! a comparison.

use vstd::prelude::*;
use vstd::string::StrSliceExecFns;

verus! {

/// The least of three numbers.
pub open spec fn least_of(a: nat, b: nat, c: nat) -> nat {
    if a <= b && a <= c {
        a
    } else if b <= c {
        b
    } else {
        c
    }
}

/// The Levenshtein distance of two strings, in characters: the least number
/// of insertions, deletions and substitutions of a character that turn one
/// into the other. Either the last characters are set against each other,
/// at the cost of a substitution where they differ, or the last character of
/// one of the two is taken away.
pub open spec fn levenshtein_distance(a: Seq<char>, b: Seq<char>) -> nat
    decreases a.len() + b.len(),
{
    if a.len() == 0 {
        b.len()
    } else if b.len() == 0 {
        a.len()
    } else {
        let kept: nat = if a.last() == b.last() {
            0
        } else {
            1
        };
        least_of(
            levenshtein_distance(a.drop_last(), b.drop_last()) + kept,
            levenshtein_distance(a.drop_last(), b) + 1,
            levenshtein_distance(a, b.drop_last()) + 1,
        )
    }
}

/// The distance of two strings is zero where they are the same, and nowhere else.
pub proof fn lemma_distance_is_zero_for_the_same(a: Seq<char>, b: Seq<char>)
    ensures
        (levenshtein_distance(a, b) == 0) == (a == b),
    decreases a.len() + b.len(),
{
    if a.len() == 0 || b.len() == 0 {
        if levenshtein_distance(a, b) == 0 {
            assert(a =~= b);
        }
    } else {
        lemma_distance_is_zero_for_the_same(a.drop_last(), b.drop_last());
        if a == b {
            assert(levenshtein_distance(a, b) == 0);
        }
        if levenshtein_distance(a, b) == 0 {
            assert(a.last() == b.last());
            assert(a.drop_last() == b.drop_last());
            assert(a =~= a.drop_last().push(a.last()));
            assert(b =~= b.drop_last().push(b.last()));
        }
    }
}

/// The distance of two strings is at most the length of the longer one.
pub proof fn lemma_distance_is_within_length(a: Seq<char>, b: Seq<char>)
    ensures
        levenshtein_distance(a, b) <= a.len() || levenshtein_distance(a, b) <= b.len(),
    decreases a.len() + b.len(),
{
    if a.len() > 0 && b.len() > 0 {
        lemma_distance_is_within_length(a.drop_last(), b.drop_last());
    }
}

/// `strsim::levenshtein`: the Levenshtein distance of two strings, counted
/// in characters.
#[verifier::external_body]
fn levenshtein(a: &str, b: &str) -> (distance: usize)
    ensures
        distance == levenshtein_distance(a@, b@),
{
    strsim::levenshtein(a, b)
}

/// A similarity: the score `1 - distance / length`, with `length` at least 1.
#[derive(Debug, Clone, Copy)]
pub struct Similarity {
    pub distance: usize,
    pub length: usize,
}

/// The similarity of two strings.
pub open spec fn similarity_of(a: Seq<char>, b: Seq<char>) -> Similarity {
    if a.len() == 0 && b.len() == 0 {
        Similarity { distance: 0, length: 1 }
    } else {
        Similarity {
            distance: levenshtein_distance(a, b) as usize,
            length: (if a.len() >= b.len() { a.len() } else { b.len() }) as usize,
        }
    }
}

impl Similarity {
    /// Whether the score is 1: the strings are the same.
    pub open spec fn is_exact(self) -> bool {
        self.distance == 0
    }

    /// Whether the score is at least 0.85, the least at which two titles
    /// count as a match: `distance / length <= 3 / 20`. A length of zero
    /// gives no score, and so no match.
    pub open spec fn is_match(self) -> bool {
        self.length >= 1 && 20 * self.distance <= 3 * self.length
    }

    /// Whether this score is strictly higher than `other`.
    pub open spec fn exceeds(self, other: Similarity) -> bool {
        self.distance * other.length < other.distance * self.length
    }

    /// Whether this score is the same as `other`.
    pub open spec fn ties(self, other: Similarity) -> bool {
        self.distance * other.length == other.distance * self.length
    }

    /// Whether the score is at least 0.85.
    pub fn at_least_threshold(&self) -> (r: bool)
        ensures
            r == self.is_match(),
    {
        self.length >= 1 && 20 * (self.distance as u128) <= 3 * (self.length as u128)
    }

    /// Whether this score is strictly higher than `other`.
    pub fn is_higher_than(&self, other: &Similarity) -> (r: bool)
        ensures
            r == self.exceeds(*other),
    {
        let left = mul_wide(self.distance, other.length);
        let right = mul_wide(other.distance, self.length);
        left < right
    }

    /// Whether this score is the same as `other`.
    pub fn is_same_as(&self, other: &Similarity) -> (r: bool)
        ensures
            r == self.ties(*other),
    {
        let left = mul_wide(self.distance, other.length);
        let right = mul_wide(other.distance, self.length);
        left == right
    }
}

/// The product of two sizes, which always fits in 128 bits.
fn mul_wide(a: usize, b: usize) -> (r: u128)
    ensures
        r == a * b,
{
    assert(a * b <= 0xffff_ffff_ffff_ffff * 0xffff_ffff_ffff_ffff) by (nonlinear_arith)
        requires
            a <= 0xffff_ffff_ffff_ffff,
            b <= 0xffff_ffff_ffff_ffff,
    ;
    (a as u128) * (b as u128)
}

/// The similarity of two strings.
pub fn normalized_levenshtein(a: &str, b: &str) -> (r: Similarity)
    ensures
        r == similarity_of(a@, b@),
        r.length >= 1,
        r.distance <= r.length,
        r.is_exact() == (a@ == b@),
{
    let a_len = a.unicode_len();
    let b_len = b.unicode_len();
    if a_len == 0 && b_len == 0 {
        assert(a@ =~= b@);
        Similarity { distance: 0, length: 1 }
    } else {
        proof {
            lemma_distance_is_zero_for_the_same(a@, b@);
            lemma_distance_is_within_length(a@, b@);
        }
        Similarity { distance: levenshtein(a, b), length: if a_len >= b_len { a_len } else { b_len } }
    }
}

/// A score that is higher than a second one is higher than every score that
/// the second one is not below.
pub proof fn lemma_exceeds_carries_over(a: Similarity, b: Similarity, c: Similarity)
    requires
        a.length >= 1,
        b.length >= 1,
        c.length >= 1,
        a.exceeds(b) || a.ties(b),
        !c.exceeds(b),
    ensures
        a.exceeds(b) ==> a.exceeds(c),
        a.ties(b) ==> a.exceeds(c) || a.ties(c),
        a.ties(b) && c.ties(b) ==> a.ties(c),
        a.ties(b) && !c.ties(b) ==> a.exceeds(c),
{
    let (da, ma) = (a.distance as int, a.length as int);
    let (db, mb) = (b.distance as int, b.length as int);
    let (dc, mc) = (c.distance as int, c.length as int);
    if a.exceeds(b) {
        assert(da * mc < dc * ma) by (nonlinear_arith)
            requires
                da * mb < db * ma,
                dc * mb >= db * mc,
                ma >= 1,
                mb >= 1,
                mc >= 1,
                da >= 0,
                db >= 0,
                dc >= 0,
        ;
    } else {
        assert(da * mc <= dc * ma) by (nonlinear_arith)
            requires
                da * mb == db * ma,
                dc * mb >= db * mc,
                ma >= 1,
                mb >= 1,
                mc >= 1,
                da >= 0,
                db >= 0,
                dc >= 0,
        ;
        if c.ties(b) {
            assert(da * mc == dc * ma) by (nonlinear_arith)
                requires
                    da * mb == db * ma,
                    dc * mb == db * mc,
                    ma >= 1,
                    mb >= 1,
                    mc >= 1,
                    da >= 0,
                    db >= 0,
                    dc >= 0,
            ;
        } else {
            assert(da * mc < dc * ma) by (nonlinear_arith)
                requires
                    da * mb == db * ma,
                    dc * mb > db * mc,
                    ma >= 1,
                    mb >= 1,
                    mc >= 1,
                    da >= 0,
                    db >= 0,
                    dc >= 0,
            ;
        }
    }
}

} // verus!

use vstd::prelude::*;

use crate::paper::Paper;

verus! {

/// The verdict of the decision step on a submission.
#[derive(Clone, Copy, Debug, PartialEq, Eq, Structural)]
pub enum Decision {
    Accepted,
    Rejected,
    InsufficientReviews,
}

/// The sum of a sequence of review scores.
pub open spec fn score_sum(scores: Seq<u8>) -> int
    decreases scores.len(),
{
    if scores.len() == 0 {
        0
    } else {
        score_sum(scores.drop_last()) + scores.last()
    }
}

/// The sum-based policy: accept exactly when the sum of the scores
/// strictly exceeds three times their number. Without at least one
/// review there is no verdict, only the insufficient-reviews outcome.
pub open spec fn sum_decision(scores: Seq<u8>) -> Decision {
    if scores.len() == 0 {
        Decision::InsufficientReviews
    } else if score_sum(scores) > 3 * scores.len() {
        Decision::Accepted
    } else {
        Decision::Rejected
    }
}

/// The mean-based policy with an integral cutoff: accept exactly when the
/// arithmetic mean of the scores strictly exceeds `cutoff`, which for a
/// non-empty collection is the same as the sum strictly exceeding `cutoff`
/// times the number of scores. Without at least one review there is no
/// verdict, only the insufficient-reviews outcome.
pub open spec fn mean_decision(scores: Seq<u8>, cutoff: u8) -> Decision {
    if scores.len() == 0 {
        Decision::InsufficientReviews
    } else if score_sum(scores) > (cutoff as int) * scores.len() {
        Decision::Accepted
    } else {
        Decision::Rejected
    }
}

/// Sums the scores without overflow: each score is at most 255, so the
/// running total stays far below the accumulator's limit.
fn total_score(scores: &Vec<u8>) -> (total: u128)
    ensures
        total == score_sum(scores@),
{
    let n = scores.len();
    let mut total: u128 = 0;
    let mut i: usize = 0;
    while i < n
        invariant
            n == scores@.len(),
            i <= n,
            total == score_sum(scores@.take(i as int)),
            total <= 255 * (i as int),
        decreases n - i,
    {
        proof {
            assert(scores@.take(i + 1).drop_last() =~= scores@.take(i as int));
            assert(scores@.take(i + 1).last() == scores@[i as int]);
        }
        total = total + (scores[i] as u128);
        i = i + 1;
    }
    proof {
        assert(scores@.take(n as int) =~= scores@);
    }
    total
}

/// The decision step under the sum-based policy: reads the fully
/// populated, read-only score collection and classifies the submission.
pub fn decide(paper: &Paper) -> (verdict: Decision)
    ensures
        verdict == sum_decision(paper.reviews@),
{
    let n = paper.reviews.len();
    if n == 0 {
        return Decision::InsufficientReviews;
    }
    let total = total_score(&paper.reviews);
    let threshold: u128 = 3 * (n as u128);
    if total > threshold {
        Decision::Accepted
    } else {
        Decision::Rejected
    }
}

/// The decision step under the mean-based policy with the given cutoff.
pub fn decide_mean(paper: &Paper, cutoff: u8) -> (verdict: Decision)
    ensures
        verdict == mean_decision(paper.reviews@, cutoff),
{
    let n = paper.reviews.len();
    if n == 0 {
        return Decision::InsufficientReviews;
    }
    let total = total_score(&paper.reviews);
    proof {
        assert((cutoff as int) * (n as int) <= 255 * (n as int)) by (nonlinear_arith)
            requires
                cutoff <= 255,
                n >= 0,
        ;
    }
    let threshold: u128 = (cutoff as u128) * (n as u128);
    if total > threshold {
        Decision::Accepted
    } else {
        Decision::Rejected
    }
}

/// Law: for every non-empty (indeed every) score collection, the verdict
/// is deterministic — the same scores under the same threshold policy
/// always yield the same verdict.
pub proof fn lemma_decision_deterministic(s1: Seq<u8>, s2: Seq<u8>, cutoff: u8)
    requires
        s1 == s2,
    ensures
        sum_decision(s1) == sum_decision(s2),
        mean_decision(s1, cutoff) == mean_decision(s2, cutoff),
{
}

/// Law: the two threshold policies agree exactly when the mean cutoff
/// is three, since the sum-based threshold is three times the count.
pub proof fn lemma_policies_agree_at_three(scores: Seq<u8>)
    ensures
        mean_decision(scores, 3) == sum_decision(scores),
{
}

/// Removing one score takes exactly its value out of the sum.
proof fn lemma_score_sum_remove(s: Seq<u8>, i: int)
    requires
        0 <= i < s.len(),
    ensures
        score_sum(s) == score_sum(s.remove(i)) + s[i],
    decreases s.len(),
{
    if i == s.len() - 1 {
        assert(s.remove(i) =~= s.drop_last());
    } else {
        let t = s.drop_last();
        lemma_score_sum_remove(t, i);
        assert(s.remove(i).drop_last() =~= t.remove(i));
        assert(s.remove(i).last() == s.last());
    }
}

/// Two score collections with the same scores, in whatever order, have the
/// same sum.
proof fn lemma_score_sum_permutation(s1: Seq<u8>, s2: Seq<u8>)
    requires
        s1.to_multiset() == s2.to_multiset(),
    ensures
        score_sum(s1) == score_sum(s2),
    decreases s1.len(),
{
    broadcast use vstd::seq_lib::group_to_multiset_ensures;

    vstd::seq_lib::to_multiset_len(s1);
    vstd::seq_lib::to_multiset_len(s2);
    if s1.len() == 0 {
        assert(s2.len() == 0);
    } else {
        let x = s1.last();
        let t1 = s1.drop_last();
        assert(s1 =~= t1.push(x));
        assert(s1.to_multiset() == t1.to_multiset().insert(x));
        assert(s2.to_multiset().count(x) > 0);
        assert(s2.contains(x));
        let j = choose|j: int| 0 <= j < s2.len() && s2[j] == x;
        lemma_score_sum_remove(s2, j);
        assert(s2.remove(j).to_multiset() == s2.to_multiset().remove(x));
        assert(t1.to_multiset() =~= s2.remove(j).to_multiset());
        lemma_score_sum_permutation(t1, s2.remove(j));
    }
}

/// Law: the decision step tolerates any interleaving of the appended
/// scores — two collections holding the same scores in any two orders get
/// the same verdict, under either threshold policy.
pub proof fn lemma_decision_order_independent(s1: Seq<u8>, s2: Seq<u8>, cutoff: u8)
    requires
        s1.to_multiset() == s2.to_multiset(),
    ensures
        sum_decision(s1) == sum_decision(s2),
        mean_decision(s1, cutoff) == mean_decision(s2, cutoff),
{
    vstd::seq_lib::to_multiset_len(s1);
    vstd::seq_lib::to_multiset_len(s2);
    assert(s1.len() == s2.len());
    lemma_score_sum_permutation(s1, s2);
}

impl Decision {
    /// The verdict as the word that the output line carries.
    pub fn label(&self) -> (text: &'static str)
        ensures
            *self == Decision::Accepted ==> text@ == "Accepted"@,
            *self == Decision::Rejected ==> text@ == "Rejected"@,
            *self == Decision::InsufficientReviews ==> text@ == "insufficient reviews"@,
    {
        match self {
            Decision::Accepted => "Accepted",
            Decision::Rejected => "Rejected",
            Decision::InsufficientReviews => "insufficient reviews",
        }
    }
}

} // verus!

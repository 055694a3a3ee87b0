use vstd::prelude::*;

use rand::RngExt;

verus! {

/// A submission under review: an identifier, a title, and the review
/// scores collected so far. The identifier and the title never change
/// after construction; the score collection only grows.
pub struct Paper {
    pub id: u32,
    pub title: String,
    pub reviews: Vec<u8>,
}

impl Paper {
    /// Creates a submission with no reviews yet.
    pub fn new(id: u32, title: String) -> (p: Paper)
        ensures
            p.id == id,
            p.title@ == title@,
            p.reviews@ == Seq::<u8>::empty(),
    {
        Paper { id, title, reviews: Vec::new() }
    }
}

/// Appends exactly one score to the submission's review collection; the
/// identifier, the title and every earlier score are untouched.
pub fn add_review(paper: &mut Paper, score: u8)
    ensures
        final(paper).reviews@ == old(paper).reviews@.push(score),
        final(paper).id == old(paper).id,
        final(paper).title@ == old(paper).title@,
{
    paper.reviews.push(score);
}

/// Appends every score in `scores`, in order: with a batch of N
/// contributions the collection grows by exactly N, and no score that was
/// already there is lost or changed.
pub fn add_reviews(paper: &mut Paper, scores: &Vec<u8>)
    ensures
        final(paper).reviews@ == old(paper).reviews@ + scores@,
        final(paper).id == old(paper).id,
        final(paper).title@ == old(paper).title@,
{
    let n = scores.len();
    let mut i: usize = 0;
    while i < n
        invariant
            n == scores@.len(),
            i <= n,
            paper.reviews@ == old(paper).reviews@ + scores@.take(i as int),
            paper.id == old(paper).id,
            paper.title@ == old(paper).title@,
        decreases n - i,
    {
        proof {
            assert((old(paper).reviews@ + scores@.take(i as int)).push(scores@[i as int])
                =~= old(paper).reviews@ + scores@.take(i + 1));
        }
        paper.reviews.push(scores[i]);
        i = i + 1;
    }
    proof {
        assert(scores@.take(n as int) =~= scores@);
    }
}

/// Relies on rand: `rng()` hands back the thread-local generator, and
/// `RngExt::random_range` samples uniformly from the given non-empty
/// range, so the result lies between 1 and 5. (`rng()` can panic if the
/// operating system's entropy source fails at first seeding.)
#[verifier::external_body]
fn sample_score() -> (score: u8)
    ensures
        1 <= score <= 5,
{
    let mut rng = rand::rng();
    rng.random_range(1..6)
}

/// Contributes one pseudo-random score between 1 and 5, as one scoring
/// worker does: whatever value is drawn, exactly one score is appended and
/// everything else about the submission is untouched.
pub fn add_random_review(paper: &mut Paper)
    ensures
        exists|s: u8|
            1 <= s <= 5 && final(paper).reviews@ == old(paper).reviews@.push(s),
        final(paper).reviews@.len() == old(paper).reviews@.len() + 1,
        final(paper).id == old(paper).id,
        final(paper).title@ == old(paper).title@,
{
    let score = sample_score();
    add_review(paper, score);
}

} // verus!

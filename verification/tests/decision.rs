use minicrp::decision::{decide, decide_mean, Decision};
use minicrp::paper::{add_review, add_reviews, Paper};

fn paper_with(scores: &[u8]) -> Paper {
    let mut paper = Paper::new(574, String::from("Perseus: Removing Energy Bloat ..."));
    for &score in scores {
        add_review(&mut paper, score);
    }
    paper
}

#[test]
fn sum_policy_rejects_two_and_four() {
    // sum 6 is not strictly greater than the threshold 2 * 3 = 6
    let paper = paper_with(&[2, 4]);
    assert_eq!(decide(&paper), Decision::Rejected);
}

#[test]
fn sum_policy_accepts_three_fours() {
    // sum 12 is strictly greater than the threshold 3 * 3 = 9
    let paper = paper_with(&[4, 4, 4]);
    assert_eq!(decide(&paper), Decision::Accepted);
}

#[test]
fn mean_policy_rejects_mean_of_exactly_three() {
    // mean 3 must be strictly greater than the cutoff 3 to accept
    let paper = paper_with(&[2, 4]);
    assert_eq!(decide_mean(&paper, 3), Decision::Rejected);
}

#[test]
fn mean_policy_accepts_mean_of_four() {
    let paper = paper_with(&[4, 4]);
    assert_eq!(decide_mean(&paper, 3), Decision::Accepted);
}

#[test]
fn policies_agree_when_cutoff_is_three() {
    let cases: Vec<Vec<u8>> = vec![
        vec![],
        vec![1],
        vec![5],
        vec![2, 4],
        vec![4, 4],
        vec![4, 4, 4],
        vec![3, 3, 3, 3],
        vec![1, 2, 3, 4, 5],
    ];
    for scores in cases {
        let paper = paper_with(&scores);
        assert_eq!(decide(&paper), decide_mean(&paper, 3));
    }
}

#[test]
fn mean_policy_with_other_cutoffs() {
    let paper = paper_with(&[2]);
    assert_eq!(decide_mean(&paper, 1), Decision::Accepted);
    let paper = paper_with(&[4, 4]);
    assert_eq!(decide_mean(&paper, 4), Decision::Rejected);
}

#[test]
fn empty_collection_reports_insufficient_reviews() {
    let paper = Paper::new(1, String::from("untouched draft"));
    assert_eq!(decide(&paper), Decision::InsufficientReviews);
    assert_eq!(decide_mean(&paper, 3), Decision::InsufficientReviews);
}

#[test]
fn verdict_is_deterministic_for_equal_scores() {
    let first = paper_with(&[1, 5, 3]);
    let second = paper_with(&[1, 5, 3]);
    assert_eq!(decide(&first), decide(&second));
    assert_eq!(decide_mean(&first, 2), decide_mean(&second, 2));
}

#[test]
fn verdict_ignores_the_order_of_scores() {
    let forward = paper_with(&[1, 2, 3, 4, 5]);
    let backward = paper_with(&[5, 4, 3, 2, 1]);
    assert_eq!(decide(&forward), decide(&backward));
    assert_eq!(decide_mean(&forward, 3), decide_mean(&backward, 3));
}

#[test]
fn labels_carry_the_verdict_words() {
    assert_eq!(Decision::Accepted.label(), "Accepted");
    assert_eq!(Decision::Rejected.label(), "Rejected");
    assert_eq!(Decision::InsufficientReviews.label(), "insufficient reviews");
}

#[test]
fn batched_scores_decide_like_individual_ones() {
    let mut batched = Paper::new(7, String::from("batched"));
    add_reviews(&mut batched, &vec![4, 4, 4]);
    let individual = paper_with(&[4, 4, 4]);
    assert_eq!(decide(&batched), decide(&individual));
    assert_eq!(decide(&batched), Decision::Accepted);
}

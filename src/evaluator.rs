//! Runs a strategy over many independent trials and counts its hits.
use vstd::prelude::*;
use crate::decision::{is_correct, outcome_of, score_decision, Decision, Outcome};
use crate::sampler::{rand_in_range, LOW, HIGH};

verus! {

/// Number of trials each strategy is evaluated over.
pub const TRIALS: usize = 1000000;

/// One trial: two independent draws and the decision made on the first.
#[derive(Clone, Copy, Debug, PartialEq, Eq, Structural)]
pub struct Trial {
    pub first: i32,
    pub second: i32,
    pub decision: Decision,
}

pub open spec fn trial_is_correct(t: Trial) -> bool {
    is_correct(t.decision, t.first as int, t.second as int)
}

/// How many trials of a sequence were scored correct.
pub open spec fn correct_count(trials: Seq<Trial>) -> nat
    decreases trials.len(),
{
    if trials.len() == 0 {
        0
    } else {
        correct_count(trials.drop_last()) + if trial_is_correct(trials.last()) {
            1nat
        } else {
            0nat
        }
    }
}

/// The number of correct trials never exceeds the number of trials, so the
/// success ratio lies in [0, 1].
pub proof fn lemma_correct_count_bounded(trials: Seq<Trial>)
    ensures
        correct_count(trials) <= trials.len(),
    decreases trials.len(),
{
    if trials.len() > 0 {
        lemma_correct_count_bounded(trials.drop_last());
    }
}

/// Asks the strategy for its decision on `first` and scores it against
/// `second`.
pub fn evaluate_guess<F: Fn(i32) -> Decision>(first: i32, second: i32, strategy: &F) -> (r:
    Outcome)
    requires
        strategy.requires((first,)),
    ensures
        exists|d: Decision| strategy.ensures((first,), d) && r == outcome_of(d, first as int, second as int),
        second == first ==> r == Outcome::Correct,
{
    let decision = strategy(first);
    score_decision(decision, first, second)
}

/// How many trials of a sequence are ties, where both draws are equal.
pub open spec fn tie_count(trials: Seq<Trial>) -> nat
    decreases trials.len(),
{
    if trials.len() == 0 {
        0
    } else {
        tie_count(trials.drop_last()) + if trials.last().first == trials.last().second {
            1nat
        } else {
            0nat
        }
    }
}

pub open spec fn opposite(d: Decision) -> Decision {
    match d {
        Decision::SecondIsLower => Decision::SecondIsHigher,
        Decision::SecondIsHigher => Decision::SecondIsLower,
    }
}

/// On the same draws, two opposite sets of decisions are together correct on
/// every trial, and twice on each tie: their counts add up to the number of
/// trials plus the number of ties.
pub proof fn lemma_opposite_decisions_cover_all(a: Seq<Trial>, b: Seq<Trial>)
    requires
        a.len() == b.len(),
        forall|i: int|
            0 <= i < a.len() ==> #[trigger] b[i] == (Trial {
                first: a[i].first,
                second: a[i].second,
                decision: opposite(a[i].decision),
            }),
    ensures
        correct_count(a) + correct_count(b) == a.len() + tie_count(a),
    decreases a.len(),
{
    if a.len() > 0 {
        let n = a.len() - 1;
        assert(b[n] == b.last());
        assert forall|i: int| 0 <= i < a.drop_last().len() implies #[trigger] b.drop_last()[i] == (Trial {
            first: a.drop_last()[i].first,
            second: a.drop_last()[i].second,
            decision: opposite(a.drop_last()[i].decision),
        }) by {
            assert(b[i] == b.drop_last()[i]);
        }
        lemma_opposite_decisions_cover_all(a.drop_last(), b.drop_last());
    }
}

/// Counts the trials whose decision is scored correct against their draws.
pub fn count_correct(trials: &Vec<Trial>) -> (r: usize)
    ensures
        r == correct_count(trials@),
        r <= trials@.len(),
{
    let mut correct: usize = 0;
    let mut n: usize = 0;
    while n < trials.len()
        invariant
            n <= trials@.len(),
            correct == correct_count(trials@.subrange(0, n as int)),
            correct <= n,
        decreases trials@.len() - n,
    {
        let t = trials[n];
        proof {
            assert(trials@.subrange(0, n + 1).drop_last() == trials@.subrange(0, n as int));
        }
        if score_decision(t.decision, t.first, t.second) == Outcome::Correct {
            correct = correct + 1;
        }
        n = n + 1;
    }
    assert(trials@.subrange(0, n as int) == trials@);
    correct
}

/// Runs `trials` trials of the strategy, each on two fresh draws over the
/// full range of `i32`, and returns how many were correct.
pub fn evaluate_strategy<F: Fn(i32) -> Decision>(strategy: F, trials: usize) -> (correct: usize)
    requires
        forall|x: i32| strategy.requires((x,)),
    ensures
        correct <= trials,
        exists|t: Seq<Trial>|
            t.len() == trials && correct == correct_count(t) && forall|i: int|
                0 <= i < t.len() ==> strategy.ensures((#[trigger] t[i].first,), t[i].decision),
{
    let mut drawn: Vec<Trial> = Vec::new();
    let mut n: usize = 0;
    while n < trials
        invariant
            n <= trials,
            drawn@.len() == n,
            forall|x: i32| strategy.requires((x,)),
            forall|i: int|
                0 <= i < drawn@.len() ==> strategy.ensures((#[trigger] drawn@[i].first,), drawn@[i].decision),
        decreases trials - n,
    {
        let first = rand_in_range(LOW, HIGH);
        let second = rand_in_range(LOW, HIGH);
        let decision = strategy(first);
        drawn.push(Trial { first, second, decision });
        n = n + 1;
    }
    count_correct(&drawn)
}

} // verus!

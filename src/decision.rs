//! The two-valued prediction a strategy makes, and how it is scored.
use vstd::prelude::*;

verus! {

/// A strategy's prediction about the second draw relative to the first.
#[derive(Clone, Copy, Debug, PartialEq, Eq, Structural)]
pub enum Decision {
    SecondIsLower,
    SecondIsHigher,
}

/// Whether a decision matched the actual relation between two draws.
#[derive(Clone, Copy, Debug, PartialEq, Eq, Structural)]
pub enum Outcome {
    Incorrect,
    Correct,
}

/// A decision is right when the second draw lies on the predicted side of
/// the first one; a tie lies on both sides.
pub open spec fn is_correct(decision: Decision, first: int, second: int) -> bool {
    match decision {
        Decision::SecondIsLower => second <= first,
        Decision::SecondIsHigher => second >= first,
    }
}

pub open spec fn outcome_of(decision: Decision, first: int, second: int) -> Outcome {
    if is_correct(decision, first, second) {
        Outcome::Correct
    } else {
        Outcome::Incorrect
    }
}

/// Scores one decision against the two draws of a trial.
pub fn score_decision(decision: Decision, first: i32, second: i32) -> (r: Outcome)
    ensures
        r == outcome_of(decision, first as int, second as int),
{
    let is_lower = second <= first;
    let is_higher = second >= first;
    match decision {
        Decision::SecondIsLower if is_lower => Outcome::Correct,
        Decision::SecondIsHigher if is_higher => Outcome::Correct,
        _ => Outcome::Incorrect,
    }
}

/// A tie is scored correct whichever decision was made: equality satisfies
/// both the "lower" and the "higher" comparison.
pub proof fn lemma_tie_is_always_correct(decision: Decision, value: int)
    ensures
        outcome_of(decision, value, value) == Outcome::Correct,
{
}

} // verus!

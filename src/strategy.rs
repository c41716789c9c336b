//! The guessing strategies: each maps the first draw to a decision.
use vstd::prelude::*;
use crate::decision::{outcome_of, Decision, Outcome};
use crate::sampler::{fair_coin, rand_in_range, LOW, HIGH};

verus! {

/// The rule shared by the comparison strategies: predict a higher second
/// draw exactly when the auxiliary draw is at least the first one.
pub open spec fn decision_for_draw(comparison: int, first: int) -> Decision {
    if comparison >= first {
        Decision::SecondIsHigher
    } else {
        Decision::SecondIsLower
    }
}

/// The decision read off one fair coin: heads predicts a higher second draw.
pub open spec fn decision_for_coin(heads: bool) -> Decision {
    if heads {
        Decision::SecondIsHigher
    } else {
        Decision::SecondIsLower
    }
}

/// Ignores the first draw and always predicts a lower second draw.
pub fn always_same_guess_strategy(first: i32) -> (r: Decision)
    ensures
        r == Decision::SecondIsLower,
{
    Decision::SecondIsLower
}

/// Turns a coin flip into a guess that ignores the first draw.
pub fn guess_from_coin(heads: bool) -> (r: Decision)
    ensures
        r == decision_for_coin(heads),
{
    if heads {
        Decision::SecondIsHigher
    } else {
        Decision::SecondIsLower
    }
}

/// Ignores the first draw and guesses by a fair coin; which side comes up
/// is up to the generator.
pub fn random_guess_strategy(first: i32) -> (r: Decision)
    ensures
        exists|heads: bool| r == decision_for_coin(heads),
{
    let heads = fair_coin();
    guess_from_coin(heads)
}

/// The comparison rule on a given auxiliary draw: predicts a higher second
/// draw exactly when `comparison >= first`.
pub fn decide_by_draw(first: i32, comparison: i32) -> (r: Decision)
    ensures
        r == decision_for_draw(comparison as int, first as int),
{
    if comparison >= first {
        Decision::SecondIsHigher
    } else {
        Decision::SecondIsLower
    }
}

/// Compares the first draw with a comparison value drawn from a normal
/// distribution (mean 0, standard deviation 10) and truncated toward zero;
/// the caller makes that draw.
pub fn randomized_normal_strategy(first: i32, comparison: i32) -> (r: Decision)
    ensures
        r == decision_for_draw(comparison as int, first as int),
{
    decide_by_draw(first, comparison)
}

/// Compares the first draw with a comparison value drawn uniformly from the
/// full range of `i32`.
pub fn randomized_strategy(first: i32) -> (r: Decision)
    ensures
        exists|c: i32| LOW <= c <= HIGH && r == decision_for_draw(c as int, first as int),
        first == LOW ==> r == Decision::SecondIsHigher,
{
    let comparison = rand_in_range(LOW, HIGH);
    decide_by_draw(first, comparison)
}

/// On a fixed auxiliary draw, the comparison rule can only switch from
/// "higher" to "lower" as the first draw grows.
pub proof fn lemma_draw_decision_antitone(comparison: int, a: int, b: int)
    requires
        a <= b,
    ensures
        decision_for_draw(comparison, b) == Decision::SecondIsHigher ==> decision_for_draw(
            comparison,
            a,
        ) == Decision::SecondIsHigher,
{
}

/// With three pairwise distinct values, the comparison rule is wrong exactly
/// when the first draw lies strictly between the auxiliary draw and the
/// second draw: of the six orderings of the three values, four are scored
/// correct.
pub proof fn lemma_draw_rule_wrong_orderings(first: int, second: int, comparison: int)
    requires
        first != second,
        first != comparison,
        second != comparison,
    ensures
        (outcome_of(decision_for_draw(comparison, first), first, second) == Outcome::Incorrect) <==> (
        (comparison < first && first < second) || (second < first && first < comparison)),
{
}

} // verus!

use vstd::prelude::*;

use crate::deck::PAIR_COUNT;
use crate::score::{remaining_spec, score_formula, score_spec};

verus! {

/// The three raw counters handed to the attester, copied out of a finished
/// session.
#[derive(Clone, Copy, Debug, PartialEq, Eq, Structural)]
pub struct AttestationInput {
    pub moves: u32,
    pub elapsed_seconds: u32,
    pub matched_pairs: u32,
}

/// The values the attester commits, in this order: the three inputs, the
/// recomputed score and whether every pair was found.
#[derive(Clone, Copy, Debug, PartialEq, Eq, Structural)]
pub struct AttestationOutput {
    pub moves: u32,
    pub elapsed_seconds: u32,
    pub matched_pairs: u32,
    pub final_score: u32,
    pub is_complete: bool,
}

/// A session is complete exactly when all pairs were matched.
pub open spec fn is_complete_spec(matched_pairs: u32) -> bool {
    matched_pairs == PAIR_COUNT as u32
}

/// What the attester commits for `input`.
pub open spec fn attest_spec(input: AttestationInput) -> AttestationOutput {
    let complete = is_complete_spec(input.matched_pairs);
    AttestationOutput {
        moves: input.moves,
        elapsed_seconds: input.elapsed_seconds,
        matched_pairs: input.matched_pairs,
        final_score: score_spec(input.elapsed_seconds as int, input.moves as int, complete) as u32,
        is_complete: complete,
    }
}

/// Recomputes the score from the three counters alone: completeness is
/// derived from the matched-pair count, never taken from the caller.
pub fn attest(input: AttestationInput) -> (r: AttestationOutput)
    ensures
        r == attest_spec(input),
        r.final_score as int == score_spec(
            input.elapsed_seconds as int,
            input.moves as int,
            r.is_complete,
        ),
{
    let is_complete = input.matched_pairs == PAIR_COUNT as u32;
    let final_score = score_formula(input.elapsed_seconds, input.moves, is_complete);
    AttestationOutput {
        moves: input.moves,
        elapsed_seconds: input.elapsed_seconds,
        matched_pairs: input.matched_pairs,
        final_score,
        is_complete,
    }
}

impl AttestationOutput {
    /// The counters this output was committed for.
    pub fn input(&self) -> (r: AttestationInput)
        ensures
            r.moves == self.moves,
            r.elapsed_seconds == self.elapsed_seconds,
            r.matched_pairs == self.matched_pairs,
    {
        AttestationInput {
            moves: self.moves,
            elapsed_seconds: self.elapsed_seconds,
            matched_pairs: self.matched_pairs,
        }
    }

    /// Whether the committed score and completeness are the ones the formula
    /// gives for the committed counters.
    pub fn is_consistent(&self) -> (r: bool)
        ensures
            r == (*self == attest_spec(
                AttestationInput {
                    moves: self.moves,
                    elapsed_seconds: self.elapsed_seconds,
                    matched_pairs: self.matched_pairs,
                },
            )),
    {
        let expected = attest(self.input());
        expected.final_score == self.final_score && expected.is_complete == self.is_complete
    }
}

/// An incomplete session scores zero, whatever its moves and time.
pub proof fn lemma_incomplete_scores_zero(input: AttestationInput)
    requires
        input.matched_pairs != PAIR_COUNT as u32,
    ensures
        attest_spec(input).final_score == 0,
        !attest_spec(input).is_complete,
{
}

/// A complete session scores the remaining time less the moves, floored at
/// zero: `max(0, max(0, 120 - t) - moves)`.
pub proof fn lemma_complete_score(input: AttestationInput)
    requires
        input.matched_pairs == PAIR_COUNT as u32,
    ensures
        attest_spec(input).is_complete,
        attest_spec(input).final_score as int == if remaining_spec(input.elapsed_seconds as int)
            > input.moves as int {
            remaining_spec(input.elapsed_seconds as int) - input.moves as int
        } else {
            0
        },
        remaining_spec(input.elapsed_seconds as int) == if input.elapsed_seconds < 120 {
            120 - input.elapsed_seconds as int
        } else {
            0
        },
{
}

/// Attesting the same counters twice commits the same five values.
pub proof fn lemma_attest_deterministic(a: AttestationInput, b: AttestationInput)
    requires
        a == b,
    ensures
        attest_spec(a) == attest_spec(b),
{
}

} // verus!

use vstd::prelude::*;

verus! {

/// Length of a session, in seconds.
pub const TIME_LIMIT: u32 = 120;

/// Seconds left of the time limit after `elapsed` seconds, never below zero.
pub open spec fn remaining_spec(elapsed: int) -> int {
    if elapsed < TIME_LIMIT as int {
        TIME_LIMIT as int - elapsed
    } else {
        0
    }
}

/// The score of a finished session: the remaining time less the moves for a
/// winner, floored at zero; zero for a loser.
pub open spec fn score_spec(elapsed: int, moves: int, winner: bool) -> int {
    if winner && remaining_spec(elapsed) > moves {
        remaining_spec(elapsed) - moves
    } else {
        0
    }
}

/// Seconds left of the time limit.
pub fn remaining_time(elapsed: u32) -> (r: u32)
    ensures
        r as int == remaining_spec(elapsed as int),
{
    if elapsed < TIME_LIMIT {
        TIME_LIMIT - elapsed
    } else {
        0
    }
}

/// The score of a finished session, from its elapsed time, its move count and
/// whether all pairs were found.
pub fn score_formula(elapsed: u32, moves: u32, winner: bool) -> (r: u32)
    ensures
        r as int == score_spec(elapsed as int, moves as int, winner),
{
    let remaining = remaining_time(elapsed);
    if winner && remaining > moves {
        remaining - moves
    } else {
        0
    }
}

/// The score is never negative, whatever the integers it is given.
pub proof fn lemma_score_non_negative(elapsed: int, moves: int, winner: bool)
    ensures
        score_spec(elapsed, moves, winner) >= 0,
{
}

} // verus!

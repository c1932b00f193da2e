use memory_game::attestation::{attest, AttestationInput, AttestationOutput};
use memory_game::score::{remaining_time, score_formula, TIME_LIMIT};

fn input(moves: u32, elapsed_seconds: u32, matched_pairs: u32) -> AttestationInput {
    AttestationInput { moves, elapsed_seconds, matched_pairs }
}

#[test]
fn complete_game_scores_remaining_time_less_moves() {
    let out = attest(input(15, 30, 8));
    assert!(out.is_complete);
    assert_eq!(remaining_time(30), 90);
    assert_eq!(out.final_score, 75);
    assert_eq!((out.moves, out.elapsed_seconds, out.matched_pairs), (15, 30, 8));
}

#[test]
fn many_moves_early_finish() {
    let out = attest(input(50, 10, 8));
    assert_eq!(remaining_time(10), 110);
    assert_eq!(out.final_score, 60);
    assert!(out.is_complete);
}

#[test]
fn time_past_limit_leaves_nothing() {
    let out = attest(input(5, 125, 8));
    assert_eq!(remaining_time(125), 0);
    assert_eq!(out.final_score, 0);
    assert!(out.is_complete);
}

#[test]
fn incomplete_game_scores_zero() {
    let out = attest(input(9, 40, 7));
    assert!(!out.is_complete);
    assert_eq!(out.final_score, 0);
    for &(m, t, p) in &[(0u32, 0u32, 0u32), (1, 1, 9), (0, 0, 7), (u32::MAX, 0, 16)] {
        let o = attest(input(m, t, p));
        assert!(!o.is_complete);
        assert_eq!(o.final_score, 0);
    }
}

#[test]
fn complete_score_matches_closed_form() {
    for &t in &[0u32, 1, 60, 119, 120, 121, u32::MAX] {
        for &m in &[0u32, 1, 59, 60, 61, 120, u32::MAX] {
            let out = attest(input(m, t, 8));
            let remaining = if t < 120 { 120 - t as i64 } else { 0 };
            let expected = std::cmp::max(0, remaining - m as i64);
            assert_eq!(out.final_score as i64, expected);
        }
    }
}

#[test]
fn attesting_twice_gives_identical_outputs() {
    let a = attest(input(15, 30, 8));
    let b = attest(input(15, 30, 8));
    assert_eq!(a, b);
    let c = attest(input(9, 40, 7));
    let d = attest(input(9, 40, 7));
    assert_eq!(c, d);
}

#[test]
fn score_never_negative_and_zero_for_losers() {
    assert_eq!(score_formula(0, 0, true), 120);
    assert_eq!(score_formula(0, 120, true), 0);
    assert_eq!(score_formula(0, 200, true), 0);
    assert_eq!(score_formula(10, 5, false), 0);
    assert_eq!(score_formula(TIME_LIMIT, 0, true), 0);
    assert_eq!(score_formula(119, 0, true), 1);
}

#[test]
fn consistency_check_detects_tampering() {
    let out = attest(input(15, 30, 8));
    assert!(out.is_consistent());
    let inflated = AttestationOutput { final_score: 100, ..out };
    assert!(!inflated.is_consistent());
    let flipped = AttestationOutput { is_complete: false, ..out };
    assert!(!flipped.is_consistent());
    let forged = AttestationOutput { matched_pairs: 7, ..out };
    assert!(!forged.is_consistent());
    assert_eq!(out.input(), input(15, 30, 8));
}

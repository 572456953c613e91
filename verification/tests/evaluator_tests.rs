use abse::evaluator::{ABSE, AbseError};

#[test]
fn test_abse_new() {
    let abse = ABSE::new(5).unwrap();
    assert_eq!(abse.size(), 5);
    assert_eq!(abse.window_len(), 0);
}

#[test]
fn test_abse_generate() {
    let mut abse = ABSE::new(2).unwrap();
    abse.update(vec![1, 2, 3], 0);
    abse.update(vec![2, 3, 4], 0);
    abse.set_vote_info(vec![1, 2]);
    let result = abse.generate();
    assert!(result.is_ok());
    assert_eq!(result.unwrap(), vec![3, 5, 4]);
}

#[test]
fn test_abse_update() {
    let mut abse = ABSE::new(2).unwrap();
    abse.update(vec![1, 2, 3], 2);
    abse.update(vec![4, 5, 6], 2);
    abse.advance_round();
    abse.advance_round();
    abse.advance_round();
    assert_eq!(abse.round(), 3);
    abse.update(vec![7, 8, 9], 2);
    assert_eq!(abse.window_len(), 2);
    assert_eq!(*abse.window_at(0).unwrap(), vec![4, 5, 6]);
    assert_eq!(*abse.window_at(1).unwrap(), vec![7, 8, 9]);
    assert_eq!(*abse.reference(), vec![1, 2, 3]);
    abse.advance_round();
    assert_eq!(abse.round(), 4);
    abse.update(vec![1, 1, 1], 2);
    assert_eq!(*abse.reference(), vec![4, 5, 6]);
}

#[test]
fn test_abse_judge() {
    // Drive the evaluator to reference [1, 2, 3] and baseline exactly 2
    // (round 2, f = 0 gives 2 * 1 / 1).
    let mut abse = ABSE::new(1).unwrap();
    abse.update(vec![1, 2, 3], 0);
    abse.advance_round();
    abse.advance_round();
    abse.update(vec![0], 0);
    assert_eq!(*abse.reference(), vec![1, 2, 3]);
    assert_eq!(abse.baseline_num(), 2);
    assert_eq!(abse.baseline_den(), 1);
    assert_eq!(abse.judge(0), Ok(false));
    assert_eq!(abse.judge(1), Ok(false));
    assert_eq!(abse.judge(2), Ok(true));
}

#[test]
fn capacity_never_exceeded() {
    let mut abse = ABSE::new(3).unwrap();
    for round in 0..20i64 {
        abse.update(vec![round, round + 1], 1);
        assert!(abse.window_len() <= abse.size());
        abse.advance_round();
    }
    assert_eq!(abse.window_len(), 3);
}

#[test]
fn fifo_eviction_order() {
    let mut abse = ABSE::new(2).unwrap();
    abse.update(vec![10], 0);
    abse.update(vec![20], 0);
    assert_eq!(abse.window_len(), 2);
    // No eviction yet: the reference vector is still empty.
    assert!(abse.reference().is_empty());
    abse.update(vec![30], 0);
    assert_eq!(*abse.reference(), vec![10]);
    assert_eq!(*abse.window_at(0).unwrap(), vec![20]);
    assert_eq!(*abse.window_at(1).unwrap(), vec![30]);
    abse.update(vec![40], 0);
    assert_eq!(*abse.reference(), vec![20]);
    assert_eq!(abse.window_len(), 2);
}

#[test]
fn generate_zero_pads_and_persists() {
    let mut abse = ABSE::new(1).unwrap();
    abse.update(vec![1, 2, 3], 0);
    abse.set_vote_info(vec![1, 2]);
    let result = abse.generate();
    assert_eq!(result.unwrap(), vec![2, 4, 3]);
    // The zero-extension of the vote information persists in the evaluator.
    assert_eq!(*abse.vote_info(), vec![1, 2, 0]);
    // The window itself is untouched.
    assert_eq!(*abse.window_at(0).unwrap(), vec![1, 2, 3]);
}

#[test]
fn generate_equal_lengths_no_padding() {
    let mut abse = ABSE::new(1).unwrap();
    abse.update(vec![5, -3], 0);
    abse.set_vote_info(vec![-1, 4]);
    assert_eq!(abse.generate().unwrap(), vec![4, 1]);
    assert_eq!(*abse.vote_info(), vec![-1, 4]);
}

#[test]
fn generate_empty_vote_info() {
    let mut abse = ABSE::new(1).unwrap();
    abse.update(vec![7, 8], 0);
    assert_eq!(abse.generate().unwrap(), vec![7, 8]);
    assert_eq!(*abse.vote_info(), vec![0, 0]);
}

#[test]
fn generate_before_update_fails() {
    let mut abse = ABSE::new(3).unwrap();
    assert_eq!(abse.generate(), Err(AbseError::EmptyWindow));
}

#[test]
fn generate_vote_info_too_long_fails() {
    let mut abse = ABSE::new(2).unwrap();
    abse.update(vec![1, 2], 0);
    abse.set_vote_info(vec![1, 2, 3]);
    assert_eq!(abse.generate(), Err(AbseError::LengthMismatch));
    // The vote information is untouched on failure.
    assert_eq!(*abse.vote_info(), vec![1, 2, 3]);
}

#[test]
fn judge_default_trust_while_no_eviction() {
    let mut abse = ABSE::new(2).unwrap();
    abse.advance_round();
    abse.advance_round();
    abse.advance_round();
    abse.update(vec![1], 1);
    // Baseline is 3 * 3 / 4 but no eviction has happened: every index is
    // trusted, in and out of any vector's range.
    assert_eq!(abse.judge(0), Ok(true));
    assert_eq!(abse.judge(5), Ok(true));
    assert_eq!(abse.judge(usize::MAX), Ok(true));
}

#[test]
fn judge_out_of_range_fails() {
    let mut abse = ABSE::new(1).unwrap();
    abse.update(vec![1, 2, 3], 0);
    abse.update(vec![4, 5, 6], 0);
    assert_eq!(*abse.reference(), vec![1, 2, 3]);
    assert_eq!(abse.judge(3), Err(AbseError::IndexOutOfRange));
    assert_eq!(abse.judge(2), Ok(true));
}

#[test]
fn judge_zero_baseline() {
    // Round 0 keeps the baseline at 0; only strictly positive scores pass.
    let mut abse = ABSE::new(1).unwrap();
    abse.update(vec![0, 1, -1], 4);
    abse.update(vec![9, 9, 9], 4);
    assert_eq!(*abse.reference(), vec![0, 1, -1]);
    assert_eq!(abse.baseline_num(), 0);
    assert_eq!(abse.judge(0), Ok(false));
    assert_eq!(abse.judge(1), Ok(true));
    assert_eq!(abse.judge(2), Ok(false));
}

#[test]
fn baseline_formula() {
    // Round 3, f = 2: the baseline is the exact rational 3 * 5 / 7 = 15/7.
    let mut abse = ABSE::new(4).unwrap();
    abse.advance_round();
    abse.advance_round();
    abse.advance_round();
    abse.update(vec![1], 2);
    assert_eq!(abse.baseline_num(), 15);
    assert_eq!(abse.baseline_den(), 7);
}

#[test]
fn judge_strict_against_rational_baseline() {
    // Baseline 15/7 is strictly between 2 and 3: score 2 fails, score 3
    // passes, with no rounding anywhere.
    let mut abse = ABSE::new(1).unwrap();
    abse.advance_round();
    abse.advance_round();
    abse.advance_round();
    abse.update(vec![2, 3], 2);
    abse.update(vec![0, 0], 2);
    assert_eq!(*abse.reference(), vec![2, 3]);
    assert_eq!(abse.judge(0), Ok(false));
    assert_eq!(abse.judge(1), Ok(true));
}

#[test]
fn new_zero_size_rejected() {
    assert!(matches!(ABSE::new(0), Err(AbseError::ZeroSize)));
    assert!(ABSE::new(1).is_ok());
}

#[test]
fn set_vote_info_replaces() {
    let mut abse = ABSE::new(2).unwrap();
    abse.set_vote_info(vec![1, 2, 3]);
    assert_eq!(*abse.vote_info(), vec![1, 2, 3]);
    abse.set_vote_info(vec![]);
    assert!(abse.vote_info().is_empty());
}

#[test]
fn advance_round_counts() {
    let mut abse = ABSE::new(2).unwrap();
    assert_eq!(abse.round(), 0);
    abse.advance_round();
    abse.advance_round();
    assert_eq!(abse.round(), 2);
    // Updates do not advance the round on their own.
    abse.update(vec![1], 0);
    assert_eq!(abse.round(), 2);
}

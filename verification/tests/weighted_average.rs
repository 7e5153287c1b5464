use weighted_average::weighted_average;
use weighted_average::weighted_average_parallel;
use weighted_average::Ratio;
use weighted_average::WeightedAverageError;

#[test]
fn scenario_three_values() {
    let values = vec![3, 5, 2];
    let weights = vec![2, 3, 5];
    let expected = Ok(Ratio { num: 31, den: 10 });
    assert_eq!(weighted_average(&values, &weights), expected);
    assert_eq!(weighted_average_parallel(&values, &weights), expected);
}

#[test]
fn scenario_three_values_closed_form() {
    let r = weighted_average_parallel(&vec![3, 5, 2], &vec![2, 3, 5]).unwrap();
    assert_eq!(r.num as f64 / r.den as f64, 3.1);
}

#[test]
fn scenario_length_mismatch() {
    let values = vec![1, 2];
    let weights = vec![1, 1, 1];
    let expected = Err(WeightedAverageError::LengthMismatch);
    assert_eq!(weighted_average(&values, &weights), expected);
    assert_eq!(weighted_average_parallel(&values, &weights), expected);
}

#[test]
fn mismatch_one_side_empty() {
    let expected = Err(WeightedAverageError::LengthMismatch);
    assert_eq!(weighted_average(&vec![], &vec![1]), expected);
    assert_eq!(weighted_average_parallel(&vec![1], &vec![]), expected);
}

#[test]
fn scenario_zero_weights() {
    let values = vec![1, 2, 3];
    let weights = vec![0, 0, 0];
    let expected = Err(WeightedAverageError::ZeroTotalWeight);
    assert_eq!(weighted_average(&values, &weights), expected);
    assert_eq!(weighted_average_parallel(&values, &weights), expected);
}

#[test]
fn cancelling_weights() {
    let values = vec![1, 2];
    let weights = vec![5, -5];
    let expected = Err(WeightedAverageError::ZeroTotalWeight);
    assert_eq!(weighted_average(&values, &weights), expected);
    assert_eq!(weighted_average_parallel(&values, &weights), expected);
}

#[test]
fn scenario_empty() {
    let values: Vec<i32> = vec![];
    let weights: Vec<i32> = vec![];
    let expected = Err(WeightedAverageError::ZeroTotalWeight);
    assert_eq!(weighted_average(&values, &weights), expected);
    assert_eq!(weighted_average_parallel(&values, &weights), expected);
}

#[test]
fn scenario_negative_weight() {
    let values = vec![10];
    let weights = vec![-1];
    let expected = Ok(Ratio { num: -10, den: -1 });
    assert_eq!(weighted_average(&values, &weights), expected);
    assert_eq!(weighted_average_parallel(&values, &weights), expected);
    let r = weighted_average(&values, &weights).unwrap();
    assert_eq!(r.num as f64 / r.den as f64, 10.0);
}

#[test]
fn negative_values_cancel() {
    let values = vec![-3, 3];
    let weights = vec![1, 1];
    let expected = Ok(Ratio { num: 0, den: 2 });
    assert_eq!(weighted_average(&values, &weights), expected);
    assert_eq!(weighted_average_parallel(&values, &weights), expected);
}

#[test]
fn scenario_million_elements() {
    let values: Vec<i32> = (1..=1_000_000).collect();
    let weights: Vec<i32> = (1..=1_000_000).collect();
    // sum of i*i for i in 1..=n is n*(n+1)*(2n+1)/6; sum of i is n*(n+1)/2.
    let expected = Ok(Ratio { num: 333_333_833_333_500_000, den: 500_000_500_000 });
    assert_eq!(weighted_average(&values, &weights), expected);
    assert_eq!(weighted_average_parallel(&values, &weights), expected);
    // Repeated parallel runs group the merges differently; the result is
    // bit-for-bit stable all the same.
    assert_eq!(
        weighted_average_parallel(&values, &weights),
        weighted_average_parallel(&values, &weights)
    );
}

#[test]
fn idempotent_repeat_calls() {
    let values = vec![7, -2, 9, 4];
    let weights = vec![1, 3, -2, 8];
    assert_eq!(
        weighted_average(&values, &weights),
        weighted_average(&values, &weights)
    );
    assert_eq!(
        weighted_average_parallel(&values, &weights),
        weighted_average_parallel(&values, &weights)
    );
}

#[test]
fn parallel_matches_sequential() {
    let cases: Vec<(Vec<i32>, Vec<i32>)> = vec![
        (vec![], vec![]),
        (vec![1], vec![2]),
        (vec![i32::MAX, i32::MIN], vec![i32::MIN, i32::MAX]),
        (vec![5, -5, 5, -5, 5], vec![1, 1, 1, 1, 1]),
        ((0..10_000).collect(), (0..10_000).map(|i| i % 7 - 3).collect()),
    ];
    for (values, weights) in cases {
        assert_eq!(
            weighted_average(&values, &weights),
            weighted_average_parallel(&values, &weights)
        );
    }
}

#[test]
fn extreme_magnitudes() {
    let values = vec![i32::MAX, i32::MIN];
    let weights = vec![i32::MIN, i32::MIN];
    let num = (i32::MAX as i128) * (i32::MIN as i128) + (i32::MIN as i128) * (i32::MIN as i128);
    let den = 2 * (i32::MIN as i128);
    let expected = Ok(Ratio { num, den });
    assert_eq!(weighted_average(&values, &weights), expected);
    assert_eq!(weighted_average_parallel(&values, &weights), expected);
}

//! The weighted average itself: validation, the two sums, and the final
//! quotient, kept exact as a rational number.

use vstd::prelude::*;

use crate::parallel::par_pair_sums;
use crate::sums::dot;
use crate::sums::pair_sums;
use crate::sums::total;

verus! {

/// Why no weighted average could be produced.
#[derive(Clone, Copy, Debug, PartialEq, Eq, Structural)]
pub enum WeightedAverageError {
    /// The two sequences differ in length.
    LengthMismatch,
    /// The weights sum to exactly zero (an empty pair of sequences
    /// included), so the quotient is undefined.
    ZeroTotalWeight,
}

/// An exact rational number, the value `num / den`. The averages this
/// library returns always carry a non-zero `den`.
#[derive(Clone, Copy, Debug, PartialEq, Eq, Structural)]
pub struct Ratio {
    /// The numerator: the sum of element-wise products.
    pub num: i128,
    /// The denominator: the sum of the weights.
    pub den: i128,
}

/// What the weighted average of two sequences is: the exact quotient
/// `dot(values, weights) / total(weights)`, or the error that applies.
/// A length mismatch is detected before any sum is formed.
pub open spec fn weighted_average_of(values: Seq<i32>, weights: Seq<i32>) -> Result<
    Ratio,
    WeightedAverageError,
> {
    if values.len() != weights.len() {
        Err(WeightedAverageError::LengthMismatch)
    } else if total(weights) == 0 {
        Err(WeightedAverageError::ZeroTotalWeight)
    } else {
        Ok(Ratio { num: dot(values, weights) as i128, den: total(weights) as i128 })
    }
}

/// The weighted average of `values` under `weights`, summed by a
/// sequential fold.
pub fn weighted_average(values: &Vec<i32>, weights: &Vec<i32>) -> (r: Result<
    Ratio,
    WeightedAverageError,
>)
    ensures
        r == weighted_average_of(values@, weights@),
{
    if values.len() != weights.len() {
        return Err(WeightedAverageError::LengthMismatch);
    }
    let sums: (i128, i128) = pair_sums(values, weights);
    if sums.1 == 0 {
        return Err(WeightedAverageError::ZeroTotalWeight);
    }
    Ok(Ratio { num: sums.0, den: sums.1 })
}

/// The weighted average of `values` under `weights`, summed by a
/// fork-join reduction over a worker pool. The grouping of the pairwise
/// merges varies between runs; the result does not, and it equals the
/// sequential one.
pub fn weighted_average_parallel(values: &Vec<i32>, weights: &Vec<i32>) -> (r: Result<
    Ratio,
    WeightedAverageError,
>)
    ensures
        r == weighted_average_of(values@, weights@),
{
    if values.len() != weights.len() {
        return Err(WeightedAverageError::LengthMismatch);
    }
    let sums: (i128, i128) = par_pair_sums(values, weights);
    if sums.1 == 0 {
        return Err(WeightedAverageError::ZeroTotalWeight);
    }
    Ok(Ratio { num: sums.0, den: sums.1 })
}

/// Calling the operation twice with the same inputs yields the same
/// result, whatever grouping each run's reduction used: the outcome is a
/// function of the two sequences alone.
pub proof fn lemma_same_inputs_same_result(
    values: Seq<i32>,
    weights: Seq<i32>,
    r1: Result<Ratio, WeightedAverageError>,
    r2: Result<Ratio, WeightedAverageError>,
)
    requires
        r1 == weighted_average_of(values, weights),
        r2 == weighted_average_of(values, weights),
    ensures
        r1 == r2,
{
}

} // verus!

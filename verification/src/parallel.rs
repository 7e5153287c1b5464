//! The parallel path of the reduction: the two sums computed over a
//! work-stealing worker pool.

use rayon::iter::IndexedParallelIterator;
use rayon::iter::IntoParallelRefIterator;
use rayon::iter::ParallelIterator;
use vstd::prelude::*;

use crate::sums::combine;
use crate::sums::dot;
use crate::sums::term;
use crate::sums::total;
use crate::sums::zero_pair;

verus! {

/// Computes `(dot(values, weights), total(weights))` by a fork-join
/// reduction.
///
/// Relies on rayon's `ParallelIterator::reduce` (reached through
/// `par_iter`, `zip` and `map`): it folds each contiguous chunk of the
/// zipped items from the identity and merges the chunk results pairwise
/// with the given operation, in an unspecified grouping into which
/// further identities may be inserted. `combine` (component-wise integer
/// addition) is associative and commutative and `zero_pair` is its
/// identity, so every grouping yields the same pair: the two sums.
/// Each intermediate pair sums products and weights of disjoint index
/// ranges, so its components stay within `len * 2^62` and `len * 2^31`
/// in magnitude and the additions inside `combine` cannot overflow
/// `i128`.
#[verifier::external_body]
pub(crate) fn par_pair_sums(values: &Vec<i32>, weights: &Vec<i32>) -> (r: (i128, i128))
    requires
        values@.len() == weights@.len(),
    ensures
        r.0 == dot(values@, weights@),
        r.1 == total(weights@),
{
    values
        .par_iter()
        .zip(weights.par_iter())
        .map(|pair: (&i32, &i32)| term(*pair.0, *pair.1))
        .reduce(zero_pair, combine)
}

} // verus!

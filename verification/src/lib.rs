//! Weighted average over paired sequences, computed exactly.
//!
//! The library takes a sequence of values and a sequence of weights and
//! returns their weighted average `sum(values[i] * weights[i]) / sum(weights[i])`
//! as an exact rational number, or an error when the two sequences differ in
//! length or the weights sum to zero.

mod average;
mod parallel;
mod sums;

pub use average::lemma_same_inputs_same_result;
pub use average::weighted_average;
pub use average::weighted_average_of;
pub use average::weighted_average_parallel;
pub use average::Ratio;
pub use average::WeightedAverageError;
pub use sums::dot;
pub use sums::lemma_dot_concat;
pub use sums::lemma_merge_associative;
pub use sums::lemma_merge_commutative;
pub use sums::lemma_merge_identity;
pub use sums::lemma_product_bound;
pub use sums::lemma_total_concat;
pub use sums::merge;
pub use sums::pair_sums;
pub use sums::total;

//! The two sums behind a weighted average: the sum of element-wise
//! products (`dot`) and the sum of the weights (`total`), together with
//! the pairwise merge step of the fork-join reduction that computes them.

use vstd::prelude::*;

verus! {

/// The sum of element-wise products `values[i] * weights[i]` over two
/// equal-length sequences.
pub open spec fn dot(values: Seq<i32>, weights: Seq<i32>) -> int
    decreases values.len(),
{
    if values.len() == 0 || weights.len() == 0 {
        0
    } else {
        dot(values.drop_last(), weights.drop_last())
            + (values.last() as int) * (weights.last() as int)
    }
}

/// The sum of all weights.
pub open spec fn total(weights: Seq<i32>) -> int
    decreases weights.len(),
{
    if weights.len() == 0 {
        0
    } else {
        total(weights.drop_last()) + (weights.last() as int)
    }
}

/// The merge step of the reduction: partial `(products, weights)` pairs
/// are combined component-wise.
pub open spec fn merge(a: (int, int), b: (int, int)) -> (int, int) {
    (a.0 + b.0, a.1 + b.1)
}

/// Merging partial pairs is associative, so any parenthesization of the
/// pairwise merges of the same chunk results yields the same pair.
pub proof fn lemma_merge_associative(a: (int, int), b: (int, int), c: (int, int))
    ensures
        merge(merge(a, b), c) == merge(a, merge(b, c)),
{
}

/// Merging partial pairs is commutative, so the order in which chunk
/// results arrive does not change the merged pair.
pub proof fn lemma_merge_commutative(a: (int, int), b: (int, int))
    ensures
        merge(a, b) == merge(b, a),
{
}

/// `(0, 0)` is the identity of the merge, so a scheduler may insert it
/// freely without changing the merged pair.
pub proof fn lemma_merge_identity(a: (int, int))
    ensures
        merge((0, 0), a) == a,
        merge(a, (0, 0)) == a,
{
}

/// Splitting the sequences anywhere and summing the parts separately
/// gives the same sums: the chunked reduction agrees with the whole.
pub proof fn lemma_dot_concat(v1: Seq<i32>, w1: Seq<i32>, v2: Seq<i32>, w2: Seq<i32>)
    requires
        v1.len() == w1.len(),
        v2.len() == w2.len(),
    ensures
        dot(v1 + v2, w1 + w2) == dot(v1, w1) + dot(v2, w2),
    decreases v2.len(),
{
    if v2.len() == 0 {
        assert(v1 + v2 =~= v1);
        assert(w1 + w2 =~= w1);
    } else {
        lemma_dot_concat(v1, w1, v2.drop_last(), w2.drop_last());
        assert((v1 + v2).drop_last() =~= v1 + v2.drop_last());
        assert((w1 + w2).drop_last() =~= w1 + w2.drop_last());
    }
}

/// The counterpart of `lemma_dot_concat` for the sum of the weights.
pub proof fn lemma_total_concat(w1: Seq<i32>, w2: Seq<i32>)
    ensures
        total(w1 + w2) == total(w1) + total(w2),
    decreases w2.len(),
{
    if w2.len() == 0 {
        assert(w1 + w2 =~= w1);
    } else {
        lemma_total_concat(w1, w2.drop_last());
        assert((w1 + w2).drop_last() =~= w1 + w2.drop_last());
    }
}

/// A product of two `i32` values stays within `2^62` in magnitude.
pub proof fn lemma_product_bound(v: i32, w: i32)
    by (nonlinear_arith)
    ensures
        -0x4000_0000_0000_0000 <= (v as int) * (w as int) <= 0x4000_0000_0000_0000,
{
}

/// Extending both prefixes by one element adds one product to `dot` and
/// one weight to `total`.
proof fn lemma_prefix_step(values: Seq<i32>, weights: Seq<i32>, i: int)
    requires
        values.len() == weights.len(),
        0 <= i < values.len(),
    ensures
        dot(values.take(i + 1), weights.take(i + 1))
            == dot(values.take(i), weights.take(i)) + (values[i] as int) * (weights[i] as int),
        total(weights.take(i + 1)) == total(weights.take(i)) + (weights[i] as int),
{
    assert(values.take(i + 1).drop_last() =~= values.take(i));
    assert(weights.take(i + 1).drop_last() =~= weights.take(i));
}

/// One zipped element of the reduction: the pair of the product
/// `v * w` and the weight `w` itself.
pub(crate) fn term(v: i32, w: i32) -> (r: (i128, i128))
    ensures
        r.0 == (v as int) * (w as int),
        r.1 == w as int,
{
    proof {
        lemma_product_bound(v, w);
    }
    ((v as i128) * (w as i128), w as i128)
}

/// The executable merge step: component-wise addition of two partial
/// pairs, as `merge` describes.
pub(crate) fn combine(a: (i128, i128), b: (i128, i128)) -> (r: (i128, i128))
    requires
        i128::MIN <= a.0 + b.0 <= i128::MAX,
        i128::MIN <= a.1 + b.1 <= i128::MAX,
    ensures
        (r.0 as int, r.1 as int) == merge((a.0 as int, a.1 as int), (b.0 as int, b.1 as int)),
{
    (a.0 + b.0, a.1 + b.1)
}

/// The identity of the merge: the empty partial pair.
pub(crate) fn zero_pair() -> (r: (i128, i128))
    ensures
        r.0 == 0,
        r.1 == 0,
{
    (0, 0)
}

/// Computes `(dot(values, weights), total(weights))` by a fold over the
/// indices. Neither accumulator can overflow: after `i` elements they are
/// bounded by `i * 2^62` and `i * 2^31` in magnitude.
pub fn pair_sums(values: &Vec<i32>, weights: &Vec<i32>) -> (r: (i128, i128))
    requires
        values@.len() == weights@.len(),
    ensures
        r.0 == dot(values@, weights@),
        r.1 == total(weights@),
{
    let n: usize = values.len();
    let mut ws: i128 = 0;
    let mut tw: i128 = 0;
    let mut i: usize = 0;
    while i < n
        invariant
            n == values@.len(),
            values@.len() == weights@.len(),
            i <= n,
            ws == dot(values@.take(i as int), weights@.take(i as int)),
            tw == total(weights@.take(i as int)),
            -(i as int) * 0x4000_0000_0000_0000 <= ws <= (i as int) * 0x4000_0000_0000_0000,
            -(i as int) * 0x8000_0000 <= tw <= (i as int) * 0x8000_0000,
        decreases n - i,
    {
        let v: i32 = values[i];
        let w: i32 = weights[i];
        proof {
            lemma_product_bound(v, w);
            lemma_prefix_step(values@, weights@, i as int);
            assert(n <= usize::MAX);
        }
        let p: i128 = (v as i128) * (w as i128);
        ws = ws + p;
        tw = tw + (w as i128);
        i = i + 1;
    }
    proof {
        assert(values@.take(n as int) =~= values@);
        assert(weights@.take(n as int) =~= weights@);
    }
    (ws, tw)
}

} // verus!

//! Points of the simplex, assembled from single-variate draws.
//!
//! Both constructions are stated over the named results of
//! [`crate::binary64`], operation by operation and in the order in which
//! the operations are carried out: with rounding the order is part of the
//! result.

use crate::binary64::{
    difference, difference_of, product, product_of, quotient, quotient_of, sum, sum_of, ONE, ZERO,
};
use vstd::prelude::*;

verus! {

/// The length of stick that is left after the first `k` breaks: a whole
/// stick at first, and after each break the part that the break did not
/// take.
pub open spec fn remaining(betas: Seq<u64>, k: int) -> u64
    decreases k,
{
    if k <= 0 {
        ONE
    } else {
        product_of(remaining(betas, k - 1), difference_of(ONE, betas[k - 1]))
    }
}

/// The point that the fractions `betas` break a unit stick into. Each
/// fraction takes its share of what the earlier breaks left, and the last
/// component is all that is left after the last break, so there is one
/// component more than there are fractions.
pub open spec fn stick_breaking(betas: Seq<u64>) -> Seq<u64> {
    Seq::new(
        betas.len() + 1,
        |i: int|
            if i < betas.len() {
                product_of(remaining(betas, i), betas[i])
            } else {
                remaining(betas, betas.len() as int)
            },
    )
}

/// Breaks a unit stick by the fractions `betas`, from the first to the last.
pub fn break_stick(betas: &[u64]) -> (r: Vec<u64>)
    ensures
        r@ == stick_breaking(betas@),
{
    let n = betas.len();
    let mut point: Vec<u64> = Vec::new();
    let mut left: u64 = ONE;
    let mut i: usize = 0;
    while i < n
        invariant
            n == betas@.len(),
            i <= n,
            left == remaining(betas@, i as int),
            point@.len() == i,
            forall|j: int| 0 <= j < i ==> point@[j] == product_of(remaining(betas@, j), betas@[j]),
        decreases n - i,
    {
        let beta = betas[i];
        point.push(product(left, beta));
        left = product(left, difference(ONE, beta));
        i += 1;
    }
    point.push(left);
    assert(point@ =~= stick_breaking(betas@));
    point
}

/// The sum of the first `k` of `gammas`, added up from the first on,
/// starting at zero.
pub open spec fn total(gammas: Seq<u64>, k: int) -> u64
    decreases k,
{
    if k <= 0 {
        ZERO
    } else {
        sum_of(total(gammas, k - 1), gammas[k - 1])
    }
}

/// The point that `gammas` are scaled to: each of them times the reciprocal
/// of their sum. The reciprocal is taken once; no component is divided.
pub open spec fn normalized(gammas: Seq<u64>) -> Seq<u64> {
    Seq::new(
        gammas.len(),
        |i: int| product_of(gammas[i], quotient_of(ONE, total(gammas, gammas.len() as int))),
    )
}

/// Scales `gammas` by the reciprocal of their sum.
pub fn normalize(gammas: &[u64]) -> (r: Vec<u64>)
    ensures
        r@ == normalized(gammas@),
{
    let n = gammas.len();
    let mut whole: u64 = ZERO;
    let mut i: usize = 0;
    while i < n
        invariant
            n == gammas@.len(),
            i <= n,
            whole == total(gammas@, i as int),
        decreases n - i,
    {
        whole = sum(whole, gammas[i]);
        i += 1;
    }
    let scale = quotient(ONE, whole);
    let mut point: Vec<u64> = Vec::with_capacity(n);
    let mut k: usize = 0;
    while k < n
        invariant
            n == gammas@.len(),
            k <= n,
            scale == quotient_of(ONE, total(gammas@, n as int)),
            point@.len() == k,
            forall|j: int| 0 <= j < k ==> point@[j] == product_of(gammas@[j], scale),
        decreases n - k,
    {
        point.push(product(gammas[k], scale));
        k += 1;
    }
    assert(point@ =~= normalized(gammas@));
    point
}

} // verus!

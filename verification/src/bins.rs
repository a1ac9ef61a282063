use vstd::prelude::*;
use crate::error::TransformError;

verus! {

/// A frequency in hertz, held as the exact fraction `numerator / denominator`.
///
/// The fraction is kept as it was formed, not reduced to lowest terms.
#[derive(Clone, Copy, Debug, PartialEq, Eq, Structural)]
pub struct Frequency {
    pub numerator: u128,
    pub denominator: usize,
}

/// The frequency that each bin of a transform of size `n` stands for, when
/// the signal runs at `sample_rate` samples per second: bin `k` stands for
/// `k * sample_rate / n` hertz, written as that product over `n`.
///
/// A transform of size zero has no bins, and its axis is empty.
pub fn frequency_axis(n: usize, sample_rate: u32) -> (axis: Vec<Frequency>)
    ensures
        axis@.len() == n,
        forall|k: int|
            0 <= k < n ==> (#[trigger] axis@[k]).numerator == k * sample_rate
                && axis@[k].denominator == n && axis@[k].denominator > 0,
{
    let mut axis: Vec<Frequency> = Vec::new();
    let mut k: usize = 0;
    while k < n
        invariant
            k <= n,
            axis@.len() == k,
            forall|j: int|
                0 <= j < k ==> (#[trigger] axis@[j]).numerator == j * sample_rate
                    && axis@[j].denominator == n,
        decreases n - k,
    {
        assert(k * sample_rate <= 0xffff_ffff_ffff_ffff * 0xffff_ffff) by (nonlinear_arith)
            requires
                0 <= k <= 0xffff_ffff_ffff_ffff,
                0 <= sample_rate <= 0xffff_ffff,
        ;
        let numerator: u128 = (k as u128) * (sample_rate as u128);
        axis.push(Frequency { numerator, denominator: n });
        k += 1;
    }
    axis
}

/// Whether a spectrum of `available` bins can go into an inverse transform of
/// size `n`: it has to hold exactly `n` of them.
pub fn require_bins(available: usize, n: usize) -> (result: Result<(), TransformError>)
    ensures
        available == n ==> result == Ok::<(), TransformError>(()),
        available != n ==> result == Err::<(), TransformError>(TransformError::BinCountMismatch),
{
    if available == n {
        Ok(())
    } else {
        Err(TransformError::BinCountMismatch)
    }
}

} // verus!

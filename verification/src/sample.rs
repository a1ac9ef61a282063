use vstd::prelude::*;
use crate::error::TransformError;

verus! {

/// Scale that takes a unit amplitude to a synthesized sample.
pub const FULL_SCALE: i16 = 32767;

/// Divisor that takes a sample to the unit interval before a transform, and
/// scale that takes a rebuilt unit value back to a sample.
pub const UNIT_SCALE: i32 = 32768;

/// `scaled` held to the symmetric range of a synthesized sample.
pub open spec fn clamped(scaled: int) -> int {
    if scaled > FULL_SCALE {
        FULL_SCALE as int
    } else if scaled < -FULL_SCALE {
        -FULL_SCALE
    } else {
        scaled
    }
}

/// Each value of `scaled` held to the symmetric range of a synthesized sample.
pub open spec fn clamped_all(scaled: Seq<i64>) -> Seq<i16> {
    Seq::new(scaled.len(), |i: int| clamped(scaled[i] as int) as i16)
}

/// Whether `scaled` is a value that a sample can hold.
pub open spec fn fits_sample(scaled: int) -> bool {
    i16::MIN <= scaled <= i16::MAX
}

/// Whether every value of `scaled` is one that a sample can hold.
pub open spec fn all_fit(scaled: Seq<i64>) -> bool {
    forall|i: int| #![trigger scaled[i]] 0 <= i < scaled.len() ==> fits_sample(scaled[i] as int)
}

/// Whether `index` is the first place of `scaled` whose value no sample can hold.
pub open spec fn first_overflow(scaled: Seq<i64>, index: int) -> bool {
    &&& 0 <= index < scaled.len()
    &&& !fits_sample(scaled[index] as int)
    &&& forall|j: int| #![trigger scaled[j]] 0 <= j < index ==> fits_sample(scaled[j] as int)
}

/// The values of `scaled` as samples, each unchanged where it fits.
pub open spec fn narrowed(scaled: Seq<i64>) -> Seq<i16> {
    Seq::new(scaled.len(), |i: int| scaled[i] as i16)
}

/// The samples as the values that a lossless rebuild would hand back.
pub open spec fn widened(samples: Seq<i16>) -> Seq<i64> {
    Seq::new(samples.len(), |i: int| samples[i] as i64)
}

/// The sample of a synthesized amplitude, given the amplitude already scaled
/// by `FULL_SCALE` and truncated toward zero.
///
/// Truncation and scaling by a positive factor keep order, so holding the
/// scaled value to `-FULL_SCALE ..= FULL_SCALE` gives the same sample as
/// holding the amplitude to the unit interval before scaling it.
pub fn clamp_sample(scaled: i64) -> (sample: i16)
    ensures
        sample == clamped(scaled as int),
        -FULL_SCALE <= sample <= FULL_SCALE,
{
    if scaled > FULL_SCALE as i64 {
        FULL_SCALE
    } else if scaled < -(FULL_SCALE as i64) {
        -FULL_SCALE
    } else {
        scaled as i16
    }
}

/// The samples of a synthesized signal, one per scaled amplitude, in order.
pub fn synthesis_samples(scaled: &Vec<i64>) -> (samples: Vec<i16>)
    ensures
        samples@ == clamped_all(scaled@),
        samples@.len() == scaled@.len(),
        forall|i: int|
            #![trigger samples@[i]]
            0 <= i < samples@.len() ==> samples@[i] == clamped(scaled@[i] as int) && -FULL_SCALE
                <= samples@[i] <= FULL_SCALE,
{
    let mut samples: Vec<i16> = Vec::with_capacity(scaled.len());
    let mut i: usize = 0;
    while i < scaled.len()
        invariant
            i <= scaled@.len(),
            samples@ == clamped_all(scaled@.take(i as int)),
        decreases scaled@.len() - i,
    {
        samples.push(clamp_sample(scaled[i]));
        i += 1;
        assert(samples@ == clamped_all(scaled@.take(i as int)));
    }
    assert(scaled@.take(i as int) == scaled@);
    samples
}

/// The samples of a rebuilt signal, given each rebuilt value already scaled
/// by `UNIT_SCALE` and truncated toward zero.
///
/// Nothing is clipped: a value that no sample can hold is reported, with the
/// place of the first one.
pub fn quantize(scaled: &Vec<i64>) -> (result: Result<Vec<i16>, TransformError>)
    ensures
        match result {
            Ok(samples) => {
                &&& all_fit(scaled@)
                &&& samples@ == narrowed(scaled@)
                &&& samples@.len() == scaled@.len()
                &&& forall|i: int|
                    #![trigger samples@[i]]
                    0 <= i < samples@.len() ==> samples@[i] == scaled@[i]
            },
            Err(e) => exists|index: int|
                first_overflow(scaled@, index) && e == (TransformError::SampleOverflow {
                    index: index as usize,
                }),
        },
{
    let mut samples: Vec<i16> = Vec::with_capacity(scaled.len());
    let mut i: usize = 0;
    while i < scaled.len()
        invariant
            i <= scaled@.len(),
            all_fit(scaled@.take(i as int)),
            samples@ == narrowed(scaled@.take(i as int)),
        decreases scaled@.len() - i,
    {
        let value: i64 = scaled[i];
        if value < i16::MIN as i64 || value > i16::MAX as i64 {
            assert forall|j: int| #![trigger scaled@[j]] 0 <= j < i implies fits_sample(
                scaled@[j] as int,
            ) by {
                assert(scaled@.take(i as int)[j] == scaled@[j]);
            }
            assert(first_overflow(scaled@, i as int));
            return Err(TransformError::SampleOverflow { index: i });
        }
        samples.push(value as i16);
        i += 1;
        assert(samples@ == narrowed(scaled@.take(i as int)));
    }
    assert(scaled@.take(i as int) == scaled@);
    Ok(samples)
}

/// A rebuilt signal is refused exactly when one of its values fits no sample,
/// and then the place reported is the only one that can be.
pub proof fn lemma_overflow_is_decided(scaled: Seq<i64>)
    ensures
        all_fit(scaled) <==> !exists|index: int| first_overflow(scaled, index),
        forall|a: int, b: int| first_overflow(scaled, a) && first_overflow(scaled, b) ==> a == b,
{
    if !all_fit(scaled) {
        let index: int = first_misfit(scaled, scaled.len() as int);
        assert(first_overflow(scaled, index));
    }
}

/// The first place below `bound` whose value fits no sample, where there is one.
proof fn first_misfit(scaled: Seq<i64>, bound: int) -> (index: int)
    requires
        0 <= bound <= scaled.len(),
        exists|i: int| 0 <= i < bound && !fits_sample(scaled[i] as int),
    ensures
        0 <= index < bound,
        first_overflow(scaled, index),
    decreases bound,
{
    let last: int = bound - 1;
    if exists|i: int| 0 <= i < last && !fits_sample(scaled[i] as int) {
        first_misfit(scaled, last)
    } else {
        last
    }
}

/// What was a sample stays one: the samples of any signal, handed back
/// unchanged by a lossless rebuild, are never refused and come out as they
/// went in.
pub proof fn lemma_samples_requantize(samples: Seq<i16>)
    ensures
        all_fit(widened(samples)),
        narrowed(widened(samples)) == samples,
{
}

/// No synthesized sample is larger in magnitude than `FULL_SCALE`, whatever
/// the amplitude was.
pub proof fn lemma_synthesized_within_full_scale(scaled: Seq<i64>, i: int)
    requires
        0 <= i < scaled.len(),
    ensures
        -FULL_SCALE <= clamped_all(scaled)[i] <= FULL_SCALE,
{
}

} // verus!

use dft::error::TransformError;
use dft::sample::{clamp_sample, quantize, synthesis_samples, FULL_SCALE, UNIT_SCALE};

#[test]
fn scales_are_one_apart() {
    assert_eq!(FULL_SCALE, 32767);
    assert_eq!(UNIT_SCALE, 32768);
}

#[test]
fn clamp_sample_keeps_values_inside_full_scale() {
    assert_eq!(clamp_sample(0), 0);
    assert_eq!(clamp_sample(1), 1);
    assert_eq!(clamp_sample(-1), -1);
    assert_eq!(clamp_sample(12345), 12345);
    assert_eq!(clamp_sample(-12345), -12345);
    assert_eq!(clamp_sample(32766), 32766);
    assert_eq!(clamp_sample(32767), FULL_SCALE);
    assert_eq!(clamp_sample(-32766), -32766);
    assert_eq!(clamp_sample(-32767), -FULL_SCALE);
}

#[test]
fn clamp_sample_holds_values_beyond_full_scale() {
    assert_eq!(clamp_sample(32768), 32767);
    assert_eq!(clamp_sample(-32768), -32767);
    assert_eq!(clamp_sample(65534), 32767);
    assert_eq!(clamp_sample(-65534), -32767);
    assert_eq!(clamp_sample(i64::MAX), 32767);
    assert_eq!(clamp_sample(i64::MIN), -32767);
}

#[test]
fn synthesis_samples_clamps_each_value_in_order() {
    let scaled: Vec<i64> = vec![0, 40000, -40000, 32767, -32768, 7, -7];
    assert_eq!(
        synthesis_samples(&scaled),
        vec![0, 32767, -32767, 32767, -32767, 7, -7]
    );
}

#[test]
fn synthesis_samples_of_nothing_is_empty() {
    let scaled: Vec<i64> = Vec::new();
    assert_eq!(synthesis_samples(&scaled), Vec::<i16>::new());
}

#[test]
fn synthesis_samples_never_reach_the_lowest_sample() {
    let scaled: Vec<i64> = (-70000..70000).step_by(7).collect();
    let samples = synthesis_samples(&scaled);
    assert_eq!(samples.len(), scaled.len());
    assert!(samples.iter().all(|s| *s >= -32767));
    assert_eq!(samples.iter().min(), Some(&-32767));
    assert_eq!(samples.iter().max(), Some(&32767));
}

#[test]
fn quantize_keeps_values_that_fit() {
    let scaled: Vec<i64> = vec![0, 1, -1, 32767, -32768, 16384, -16384];
    assert_eq!(
        quantize(&scaled),
        Ok(vec![0, 1, -1, 32767, -32768, 16384, -16384])
    );
}

#[test]
fn quantize_of_nothing_is_empty() {
    let scaled: Vec<i64> = Vec::new();
    assert_eq!(quantize(&scaled), Ok(Vec::new()));
}

#[test]
fn quantize_refuses_the_value_just_above_the_range() {
    let scaled: Vec<i64> = vec![32768];
    assert_eq!(
        quantize(&scaled),
        Err(TransformError::SampleOverflow { index: 0 })
    );
}

#[test]
fn quantize_refuses_the_value_just_below_the_range() {
    let scaled: Vec<i64> = vec![-32768, -32769];
    assert_eq!(
        quantize(&scaled),
        Err(TransformError::SampleOverflow { index: 1 })
    );
}

#[test]
fn quantize_reports_the_first_overflow() {
    let scaled: Vec<i64> = vec![5, -32768, 40000, -99999, 3];
    assert_eq!(
        quantize(&scaled),
        Err(TransformError::SampleOverflow { index: 2 })
    );
}

#[test]
fn quantize_does_not_wrap_around() {
    // 65536 + 5 would wrap to 5 in sixteen bits.
    let scaled: Vec<i64> = vec![65541];
    assert_eq!(
        quantize(&scaled),
        Err(TransformError::SampleOverflow { index: 0 })
    );
    let scaled: Vec<i64> = vec![i64::MAX, i64::MIN];
    assert_eq!(
        quantize(&scaled),
        Err(TransformError::SampleOverflow { index: 0 })
    );
}

#[test]
fn samples_survive_requantization() {
    let samples: Vec<i16> = vec![i16::MIN, -32767, -1, 0, 1, 32766, i16::MAX];
    let widened: Vec<i64> = samples.iter().map(|s| i64::from(*s)).collect();
    assert_eq!(quantize(&widened), Ok(samples));
}

#[test]
fn synthesized_samples_survive_requantization() {
    let scaled: Vec<i64> = vec![-100000, -32768, -32767, 0, 32767, 32768, 100000];
    let samples = synthesis_samples(&scaled);
    let widened: Vec<i64> = samples.iter().map(|s| i64::from(*s)).collect();
    assert_eq!(quantize(&widened), Ok(samples));
}

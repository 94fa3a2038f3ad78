use cogniscribe::audio::processor::{AudioPipeline, DEFAULT_LIMITER_THRESHOLD};
use cogniscribe::audio::sample::{normalize_i16, normalize_u16, quantize, FULL_SCALE};

#[test]
fn limiter_passes_values_inside_the_threshold() {
    let mut pipeline = AudioPipeline::new();
    assert_eq!(pipeline.limiter_threshold(), DEFAULT_LIMITER_THRESHOLD);
    for x in [0i64, 1, -1, 1_000_000, -1_000_000, DEFAULT_LIMITER_THRESHOLD, -DEFAULT_LIMITER_THRESHOLD] {
        assert_eq!(pipeline.process_sample(x), x);
    }
}

#[test]
fn limiter_clips_values_outside_the_threshold() {
    let mut pipeline = AudioPipeline::new();
    assert_eq!(pipeline.process_sample(FULL_SCALE), DEFAULT_LIMITER_THRESHOLD);
    assert_eq!(pipeline.process_sample(-FULL_SCALE), -DEFAULT_LIMITER_THRESHOLD);
    assert_eq!(pipeline.process_sample(DEFAULT_LIMITER_THRESHOLD + 1), DEFAULT_LIMITER_THRESHOLD);
    assert_eq!(pipeline.process_sample(i64::MAX), DEFAULT_LIMITER_THRESHOLD);
    assert_eq!(pipeline.process_sample(i64::MIN), -DEFAULT_LIMITER_THRESHOLD);
}

#[test]
fn normalization_is_exact_at_the_ends() {
    assert_eq!(normalize_i16(32767), FULL_SCALE);
    assert_eq!(normalize_i16(-32767), -FULL_SCALE);
    assert_eq!(normalize_i16(0), 0);
    assert_eq!(normalize_i16(1), 65535);
    assert_eq!(normalize_u16(65535), FULL_SCALE);
    assert_eq!(normalize_u16(0), -FULL_SCALE);
    assert_eq!(normalize_u16(32768), 32767);
}

#[test]
fn quantize_rounds_to_nearest() {
    assert_eq!(quantize(0), 0);
    assert_eq!(quantize(FULL_SCALE), 32767);
    assert_eq!(quantize(-FULL_SCALE), -32767);
    assert_eq!(quantize(FULL_SCALE + 5), 32767);
    assert_eq!(quantize(i64::MIN), -32767);
    assert_eq!(quantize(32767), 0);
    assert_eq!(quantize(32768), 1);
    assert_eq!(quantize(-32768), -1);
    assert_eq!(quantize(DEFAULT_LIMITER_THRESHOLD), 32112);
    let half = (0.5f64 * FULL_SCALE as f64).round() as i64;
    assert_eq!(quantize(half), (0.5f64 * 32767.0).round() as i16);
    assert_eq!(quantize(half), 16384);
}

#[test]
fn quantize_undoes_normalize_i16() {
    for s in [-32767i16, -12345, -1, 0, 1, 2, 777, 32766, 32767] {
        assert_eq!(quantize(normalize_i16(s)), s);
    }
    assert_eq!(quantize(normalize_i16(-32768)), -32767);
}

use knob_rgb::knob::level_from_sample;
use knob_rgb::LEVELS;

#[test]
fn zero_sample_is_level_zero() {
    assert_eq!(level_from_sample(0), 0);
}

#[test]
fn negative_sample_is_clamped_to_zero() {
    assert_eq!(level_from_sample(-5), 0);
    assert_eq!(level_from_sample(i16::MIN), 0);
}

#[test]
fn full_scale_sample_is_top_level() {
    assert_eq!(level_from_sample(10_000), LEVELS - 1);
    assert_eq!(level_from_sample(0x7fff), LEVELS - 1);
}

#[test]
fn skew_keeps_low_end_at_zero() {
    assert_eq!(level_from_sample(1111), 0);
    assert_eq!(level_from_sample(1112), 0);
    assert_eq!(level_from_sample(1667), 1);
}

#[test]
fn interior_samples_follow_affine_map() {
    assert_eq!(level_from_sample(5000), 7);
    assert_eq!(level_from_sample(9444), 14);
    assert_eq!(level_from_sample(9445), 15);
}

#[test]
fn mapping_is_monotonic_and_in_range() {
    let mut prev = 0;
    let mut raw: i32 = -100;
    while raw <= 0x7fff {
        let level = level_from_sample(raw as i16);
        assert!(level < LEVELS);
        assert!(level >= prev);
        prev = level;
        raw += 1;
    }
}

use kircast_audio::volume::{scale_sample, scale_samples, DEFAULT_GAIN_MILLI, GAIN_UNIT};

#[test]
fn unit_gain_keeps_samples() {
    assert_eq!(scale_sample(0, GAIN_UNIT), 0);
    assert_eq!(scale_sample(1234, GAIN_UNIT), 1234);
    assert_eq!(scale_sample(-1234, GAIN_UNIT), -1234);
    assert_eq!(scale_sample(i16::MAX, GAIN_UNIT), i16::MAX);
    assert_eq!(scale_sample(i16::MIN, GAIN_UNIT), i16::MIN);
}

#[test]
fn half_gain_truncates_toward_zero() {
    assert_eq!(scale_sample(1000, 500), 500);
    assert_eq!(scale_sample(1001, 500), 500);
    assert_eq!(scale_sample(-1001, 500), -500);
    assert_eq!(scale_sample(1, 500), 0);
    assert_eq!(scale_sample(-1, 500), 0);
}

#[test]
fn amplifying_gain_saturates_at_sample_range() {
    assert_eq!(scale_sample(30000, 1500), i16::MAX);
    assert_eq!(scale_sample(-30000, 1500), i16::MIN);
    assert_eq!(scale_sample(20000, 1500), 30000);
    assert_eq!(scale_sample(-20000, 1500), -30000);
}

#[test]
fn zero_gain_mutes() {
    assert_eq!(scale_sample(32767, 0), 0);
    assert_eq!(scale_sample(-32768, 0), 0);
}

#[test]
fn default_gain_is_half() {
    assert_eq!(DEFAULT_GAIN_MILLI, 500);
    assert_eq!(scale_sample(2000, DEFAULT_GAIN_MILLI), 1000);
}

#[test]
fn frame_is_scaled_sample_by_sample() {
    let frame = [100i16, -100, 32767, -32768, 0];
    let scaled = scale_samples(&frame, 500);
    assert_eq!(scaled, vec![50, -50, 16383, -16384, 0]);
}

use bpmbeats::adc::{config_frame, config_word, decode_sample, raw_to_microvolts, CONFIG_REG};

#[test]
fn config_word_combines_all_fields() {
    assert_eq!(config_word(), 0xC380);
}

#[test]
fn config_frame_is_register_then_big_endian_word() {
    let frame = config_frame();
    assert_eq!(frame, vec![CONFIG_REG, 0xC3, 0x80]);
}

#[test]
fn decode_sample_zero() {
    assert_eq!(decode_sample(0x00, 0x00), 0);
}

#[test]
fn decode_sample_positive_extremes() {
    assert_eq!(decode_sample(0x00, 0x01), 1);
    assert_eq!(decode_sample(0x7F, 0xFF), i16::MAX);
}

#[test]
fn decode_sample_negative_extremes() {
    assert_eq!(decode_sample(0xFF, 0xFF), -1);
    assert_eq!(decode_sample(0x80, 0x00), i16::MIN);
}

#[test]
fn decode_sample_matches_std_big_endian() {
    for raw in [-32768i16, -12345, -1, 0, 1, 300, 21600, 32767] {
        let bytes = raw.to_be_bytes();
        assert_eq!(decode_sample(bytes[0], bytes[1]), raw);
    }
}

#[test]
fn voltage_of_zero_is_zero() {
    assert_eq!(raw_to_microvolts(0), 0);
}

#[test]
fn voltage_is_125_microvolts_per_count() {
    assert_eq!(raw_to_microvolts(1), 125);
    assert_eq!(raw_to_microvolts(-1), -125);
    assert_eq!(raw_to_microvolts(8000), 1_000_000);
    assert_eq!(raw_to_microvolts(i16::MAX), 4_095_875);
    assert_eq!(raw_to_microvolts(i16::MIN), -4_096_000);
}

#[test]
fn voltage_matches_full_scale_formula() {
    for raw in [-32768i16, -100, 0, 5, 21600, 32767] {
        let expected = f64::from(raw) * 4.096 / 32768.0;
        let got = f64::from(raw_to_microvolts(raw)) / 1_000_000.0;
        assert!((expected - got).abs() < 1e-12);
    }
}

#[test]
fn voltage_is_monotonic_over_sample_points() {
    let mut prev = raw_to_microvolts(i16::MIN);
    for raw in [-20000i16, -1, 0, 1, 21599, 21601, 32767] {
        let v = raw_to_microvolts(raw);
        assert!(prev < v);
        prev = v;
    }
}

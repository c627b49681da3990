use bpmbeats::pulse_sensor::{bpm_centibpm, HeartMonitor, PeakDetector, BEAT_THRESHOLD_MICROVOLTS};

const ABOVE: i32 = BEAT_THRESHOLD_MICROVOLTS + 100_000;
const BELOW: i32 = BEAT_THRESHOLD_MICROVOLTS - 100_000;

#[test]
fn crossing_at_threshold_is_not_a_beat() {
    let mut d = PeakDetector::new(0);
    assert!(!d.observe(BEAT_THRESHOLD_MICROVOLTS, 1000));
    assert!(d.observe(BEAT_THRESHOLD_MICROVOLTS + 1, 1000));
}

#[test]
fn crossings_within_refractory_period_yield_one_beat() {
    let mut d = PeakDetector::new(0);
    let mut beats = 0;
    if d.observe(ABOVE, 301) {
        beats += 1;
    }
    if d.observe(ABOVE, 400) {
        beats += 1;
    }
    assert_eq!(beats, 1);
}

#[test]
fn crossings_beyond_refractory_period_yield_two_beats() {
    let mut d = PeakDetector::new(0);
    let mut beats = 0;
    if d.observe(ABOVE, 301) {
        beats += 1;
    }
    if d.observe(ABOVE, 602) {
        beats += 1;
    }
    assert_eq!(beats, 2);
}

#[test]
fn crossing_exactly_at_refractory_boundary_is_debounced() {
    let mut d = PeakDetector::new(0);
    assert!(d.observe(ABOVE, 301));
    assert!(!d.observe(ABOVE, 601));
    assert!(d.observe(ABOVE, 602));
}

#[test]
fn below_threshold_never_beats() {
    let mut d = PeakDetector::new(0);
    assert!(!d.observe(BELOW, 10_000));
    assert_eq!(d.last_beat_ms, 0);
}

#[test]
fn ten_beats_in_five_seconds_is_120_bpm() {
    let centi = bpm_centibpm(10, 5);
    assert_eq!(centi, 12_000);
    assert_eq!(f64::from(centi) / 100.0, 120.0);
}

#[test]
fn zero_beats_is_exactly_zero_bpm() {
    let centi = bpm_centibpm(0, 5);
    assert_eq!(centi, 0);
    assert_eq!(f64::from(centi) / 100.0, 0.0);
}

#[test]
fn monitor_publishes_once_per_window_and_resets() {
    let mut m = HeartMonitor::new(0);
    let mut published = Vec::new();
    // Beats every 500 ms; the window closes at the first sample at or past
    // 5000 ms. Ten beats land in the first window.
    let mut t = 0u64;
    while t < 5000 {
        t += 500;
        if let Some(bpm) = m.on_sample(ABOVE, t) {
            published.push(bpm);
        }
    }
    assert_eq!(published, vec![12_000]);
    assert_eq!(m.beat_count, 0);
    assert_eq!(m.window_start_ms, 5000);
}

#[test]
fn quiet_window_publishes_zero() {
    let mut m = HeartMonitor::new(0);
    assert_eq!(m.on_sample(BELOW, 2500), None);
    assert_eq!(m.on_sample(BELOW, 5000), Some(0));
}

#[test]
fn rollover_does_not_touch_the_beat_time() {
    let mut m = HeartMonitor::new(0);
    assert_eq!(m.on_sample(ABOVE, 400), None);
    assert_eq!(m.detector.last_beat_ms, 400);
    // The window closes on a quiet sample: the beat time stays at the last
    // real beat instead of jumping to the rollover instant.
    assert_eq!(m.on_sample(BELOW, 5000), Some(1200));
    assert_eq!(m.detector.last_beat_ms, 400);
    // So a genuine beat early in the new window is counted, not suppressed.
    assert_eq!(m.on_sample(ABOVE, 5100), None);
    assert_eq!(m.beat_count, 1);
    assert_eq!(m.detector.last_beat_ms, 5100);
}

#[test]
fn bounced_crossings_do_not_inflate_the_estimate() {
    let mut m = HeartMonitor::new(0);
    // Three crossings of a single physiological pulse, then silence.
    assert_eq!(m.on_sample(ABOVE, 400), None);
    assert_eq!(m.on_sample(ABOVE, 420), None);
    assert_eq!(m.on_sample(ABOVE, 440), None);
    assert_eq!(m.beat_count, 1);
    assert_eq!(m.on_sample(BELOW, 5000), Some(1200));
}

//! Beat detection and windowed heart-rate estimation.
//!
//! A [`PeakDetector`] turns a stream of sensed voltages into debounced beat
//! events: a beat is registered when the voltage exceeds the beat threshold
//! and more than the refractory period has elapsed since the previous beat.
//! A [`HeartMonitor`] counts those beats over fixed windows and, at the end
//! of each window, yields the rate estimate `(beats / window seconds) * 60`,
//! carried in centi-BPM.

use vstd::prelude::*;

verus! {

/// How often the sensor is sampled, in milliseconds.
pub const SAMPLE_INTERVAL_MS: u64 = 10;
/// How long a started conversion needs before its result is read back,
/// in milliseconds.
pub const SETTLE_MS: u64 = 10;
/// Voltage a sample must exceed to count as a beat, in microvolts (2.7 V).
pub const BEAT_THRESHOLD_MICROVOLTS: i32 = 2_700_000;
/// Minimum spacing between two registered beats, in milliseconds.
pub const REFRACTORY_MS: u64 = 300;
/// Length of one estimation window, in milliseconds.
pub const WINDOW_MS: u64 = 5000;
/// Length of one estimation window, in whole seconds.
pub const WINDOW_SECS: u32 = 5;

/// Whether a sample registers as a beat: the voltage exceeds the threshold
/// and more than the refractory period has passed since the last beat.
pub open spec fn beat_emitted(last_beat_ms: int, voltage_uv: int, now_ms: int) -> bool {
    voltage_uv > BEAT_THRESHOLD_MICROVOLTS && now_ms - last_beat_ms > REFRACTORY_MS
}

/// One step of the detector: the beat time after the sample, and whether the
/// sample registered as a beat.
pub open spec fn detector_step(last_beat_ms: int, voltage_uv: int, now_ms: int) -> (int, bool) {
    if beat_emitted(last_beat_ms, voltage_uv, now_ms) {
        (now_ms, true)
    } else {
        (last_beat_ms, false)
    }
}

/// Debounces threshold crossings into discrete beat events.
pub struct PeakDetector {
    /// When the last registered beat was observed, in milliseconds.
    pub last_beat_ms: u64,
}

impl PeakDetector {
    /// A detector that treats `now_ms` as the time of the most recent beat,
    /// so no beat can register until a refractory period has passed.
    pub fn new(now_ms: u64) -> (d: Self)
        ensures
            d.last_beat_ms == now_ms,
    {
        PeakDetector { last_beat_ms: now_ms }
    }

    /// Observes one voltage sample. A beat is registered if and only if the
    /// voltage exceeds the threshold and more than the refractory period has
    /// elapsed since the previous beat; registering a beat resets the beat
    /// time to `now_ms`, and nothing else changes the state.
    pub fn observe(&mut self, voltage_uv: i32, now_ms: u64) -> (beat: bool)
        requires
            old(self).last_beat_ms <= now_ms,
        ensures
            beat == detector_step(old(self).last_beat_ms as int, voltage_uv as int, now_ms as int).1,
            final(self).last_beat_ms == detector_step(
                old(self).last_beat_ms as int,
                voltage_uv as int,
                now_ms as int,
            ).0,
    {
        if voltage_uv > BEAT_THRESHOLD_MICROVOLTS && now_ms - self.last_beat_ms > REFRACTORY_MS {
            self.last_beat_ms = now_ms;
            true
        } else {
            false
        }
    }
}

/// How many beats two above-threshold crossings at `t1` and then `t2`
/// register, starting from a detector whose last beat was at `last0_ms`.
pub open spec fn beats_in_two_crossings(
    last0_ms: int,
    v1_uv: int,
    t1_ms: int,
    v2_uv: int,
    t2_ms: int,
) -> int {
    let first = detector_step(last0_ms, v1_uv, t1_ms);
    let second = detector_step(first.0, v2_uv, t2_ms);
    (if first.1 { 1int } else { 0int }) + (if second.1 { 1int } else { 0int })
}

/// Debounce: of two above-threshold crossings whose first registers as a
/// beat, exactly one beat is registered when they are separated by at most
/// the refractory period, and exactly two when separated by more.
pub proof fn lemma_debounce(last0_ms: int, v1_uv: int, t1_ms: int, v2_uv: int, t2_ms: int)
    requires
        v1_uv > BEAT_THRESHOLD_MICROVOLTS,
        v2_uv > BEAT_THRESHOLD_MICROVOLTS,
        beat_emitted(last0_ms, v1_uv, t1_ms),
        t1_ms <= t2_ms,
    ensures
        beats_in_two_crossings(last0_ms, v1_uv, t1_ms, v2_uv, t2_ms) == if t2_ms - t1_ms
            > REFRACTORY_MS {
            2int
        } else {
            1int
        },
{
}

/// The estimate a window's beat count stands for, in centi-BPM:
/// `(beats / window seconds) * 60`, scaled by one hundred.
pub open spec fn spec_bpm_centibpm(beat_count: int, window_secs: int) -> int {
    beat_count * 6000 / window_secs
}

/// Computes the centi-BPM estimate of a window from its beat count. A window
/// with no beats yields exactly zero.
pub fn bpm_centibpm(beat_count: u32, window_secs: u32) -> (bpm: u32)
    requires
        1 <= window_secs,
        beat_count * 6000 <= u32::MAX,
    ensures
        bpm == spec_bpm_centibpm(beat_count as int, window_secs as int),
        beat_count == 0 ==> bpm == 0,
{
    (beat_count * 6000) / window_secs
}

/// Debounced beat counting over fixed windows, yielding one rate estimate
/// per window.
pub struct HeartMonitor {
    /// The debouncing detector fed by every sample.
    pub detector: PeakDetector,
    /// When the current window began, in milliseconds.
    pub window_start_ms: u64,
    /// Beats registered so far in the current window.
    pub beat_count: u32,
}

impl HeartMonitor {
    /// Well-formedness: the last beat may predate the current window (its
    /// time moves only when a beat is emitted), but once the window holds a
    /// beat, the last beat lies inside it and the refractory period bounds
    /// how many beats the window can have gathered.
    pub open spec fn wf(self) -> bool {
        self.beat_count >= 1 ==> {
            &&& self.window_start_ms <= self.detector.last_beat_ms
            &&& self.detector.last_beat_ms < self.window_start_ms + WINDOW_MS
            &&& self.beat_count * REFRACTORY_MS <= (self.detector.last_beat_ms
                - self.window_start_ms) + REFRACTORY_MS
        }
    }

    /// A monitor whose window starts at `now_ms`, with no beats yet.
    pub fn new(now_ms: u64) -> (m: Self)
        ensures
            m.wf(),
            m.window_start_ms == now_ms,
            m.detector.last_beat_ms == now_ms,
            m.beat_count == 0,
    {
        HeartMonitor { detector: PeakDetector::new(now_ms), window_start_ms: now_ms, beat_count: 0 }
    }

    /// Feeds one voltage sample taken at `now_ms`. The sample is debounced
    /// into at most one beat; once the window has lasted at least its full
    /// duration, the window's estimate is returned and the window restarts at
    /// `now_ms` with the beat count reset. The beat time moves only when a
    /// sample emits a beat — a window rollover does not touch it, so a beat
    /// early in the new window is still debounced against the real last beat.
    pub fn on_sample(&mut self, voltage_uv: i32, now_ms: u64) -> (published: Option<u32>)
        requires
            old(self).wf(),
            old(self).detector.last_beat_ms <= now_ms,
            old(self).window_start_ms <= now_ms,
        ensures
            final(self).wf(),
            ({
                let beat = beat_emitted(
                    old(self).detector.last_beat_ms as int,
                    voltage_uv as int,
                    now_ms as int,
                );
                let count = old(self).beat_count + (if beat {
                    1int
                } else {
                    0int
                });
                if now_ms - old(self).window_start_ms >= WINDOW_MS {
                    &&& published matches Some(bpm) && bpm == spec_bpm_centibpm(
                        count,
                        WINDOW_SECS as int,
                    )
                    &&& final(self).beat_count == 0
                    &&& final(self).window_start_ms == now_ms
                    &&& final(self).detector.last_beat_ms == detector_step(
                        old(self).detector.last_beat_ms as int,
                        voltage_uv as int,
                        now_ms as int,
                    ).0
                } else {
                    &&& published is None
                    &&& final(self).beat_count == count
                    &&& final(self).window_start_ms == old(self).window_start_ms
                    &&& final(self).detector.last_beat_ms == detector_step(
                        old(self).detector.last_beat_ms as int,
                        voltage_uv as int,
                        now_ms as int,
                    ).0
                }
            }),
    {
        let beat = self.detector.observe(voltage_uv, now_ms);
        if beat {
            self.beat_count = self.beat_count + 1;
        }
        if now_ms - self.window_start_ms >= WINDOW_MS {
            let bpm = bpm_centibpm(self.beat_count, WINDOW_SECS);
            self.beat_count = 0;
            self.window_start_ms = now_ms;
            Some(bpm)
        } else {
            None
        }
    }
}

} // verus!

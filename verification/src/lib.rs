//! Heart-rate driven music pacing.
//!
//! A pulse sensor is sampled through an ADS1115 analog-to-digital converter;
//! threshold crossings of the sensed voltage are debounced into beat events,
//! which are aggregated over fixed windows into a beats-per-minute estimate.
//! A scheduler matches that live estimate against a track catalog and picks,
//! uniformly at random, a track whose tempo lies within a fixed tolerance.
//!
//! All rates are carried as hundredths of a beat per minute (centi-BPM) and
//! voltages as microvolts, so every quantity is an exact integer.

pub mod adc;
pub mod pulse_sensor;
pub mod scheduler;
pub mod shared_bpm;
pub mod spotify;

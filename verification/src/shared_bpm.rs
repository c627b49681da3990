//! The single point of hand-off between the sampling pipeline and the
//! scheduler: a cell holding the most recent heart-rate estimate.
//!
//! The cell always holds a valid estimate — it starts from the initial value
//! it was built with and each published estimate fully replaces the previous
//! one, with no smoothing across windows. The estimator side overwrites it
//! through [`SharedBpm::write`] and the scheduler side snapshots it through
//! [`SharedBpm::read`]; callers that run the two sides concurrently guard the
//! cell with mutual exclusion of their own.

use vstd::prelude::*;

verus! {

/// The estimate the sampling pipeline starts from before its first window
/// completes, in centi-BPM (60 BPM).
pub const INITIAL_BPM_CENTIBPM: u32 = 6000;

/// Holder of the most recent heart-rate estimate, in centi-BPM.
pub struct SharedBpm {
    bpm_centibpm: u32,
}

impl SharedBpm {
    /// The estimate the cell currently holds.
    pub closed spec fn spec_bpm(self) -> u32 {
        self.bpm_centibpm
    }

    /// A cell holding `initial_centibpm`.
    pub fn new(initial_centibpm: u32) -> (s: Self)
        ensures
            s.spec_bpm() == initial_centibpm,
    {
        SharedBpm { bpm_centibpm: initial_centibpm }
    }

    /// Snapshots the most recent estimate.
    pub fn read(&self) -> (bpm: u32)
        ensures
            bpm == self.spec_bpm(),
    {
        self.bpm_centibpm
    }

    /// Replaces the estimate with a newly computed one; the previous value is
    /// fully discarded.
    pub fn write(&mut self, bpm_centibpm: u32)
        ensures
            final(self).spec_bpm() == bpm_centibpm,
    {
        self.bpm_centibpm = bpm_centibpm;
    }
}

} // verus!

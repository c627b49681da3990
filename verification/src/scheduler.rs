//! Tempo-matching scheduling.
//!
//! Each cycle takes a snapshot of the live heart-rate estimate, filters the
//! track catalog down to the candidates whose tempo lies within a fixed
//! tolerance of it (inclusive bound), and either enqueues one candidate
//! chosen uniformly at random — pacing the next cycle by that track's
//! duration — or, when no track qualifies, backs off for a fixed idle
//! duration before re-evaluating.

use vstd::prelude::*;

verus! {

/// Maximum allowed absolute difference between a track's tempo and the live
/// rate for the track to qualify, in centi-BPM (5 BPM).
pub const TOLERANCE_CENTIBPM: u32 = 500;
/// How long the scheduler sleeps when no track qualifies, in milliseconds.
pub const IDLE_BACKOFF_MS: u32 = 15_000;

/// A catalog track with the fields the scheduler reads. The tempo is carried
/// in centi-BPM, the unit shared with the live heart-rate estimate.
pub struct TempoTrack {
    /// Catalog identifier, handed to the enqueue request.
    pub id: String,
    /// Display name.
    pub name: String,
    /// Running time, in milliseconds; the pacing sleep after an enqueue.
    pub duration_ms: u32,
    /// Tempo, in centi-BPM.
    pub tempo_centibpm: u32,
}

/// Whether a tempo lies within `tolerance` of the live rate, bounds included.
pub open spec fn within_tolerance(tempo_centibpm: int, bpm_centibpm: int, tolerance: int) -> bool {
    -tolerance <= tempo_centibpm - bpm_centibpm <= tolerance
}

/// Whether some track of the catalog qualifies at the given rate.
pub open spec fn has_candidate(tracks: Seq<TempoTrack>, bpm_centibpm: int, tolerance: int) -> bool {
    exists|i: int|
        0 <= i < tracks.len() && within_tolerance(
            #[trigger] tracks[i].tempo_centibpm as int,
            bpm_centibpm,
            tolerance,
        )
}

/// What one scheduling cycle decided.
pub enum SchedulerAction {
    /// Enqueue the track at `track_index` and sleep for its duration before
    /// the next cycle.
    Enqueue { track_index: usize, sleep_ms: u32 },
    /// No track qualifies: sleep for the backoff duration, then re-evaluate.
    Idle { sleep_ms: u32 },
}

/// The indices of the tracks whose tempo is within `tolerance_centibpm` of
/// `bpm_centibpm`, in catalog order: an index is listed if and only if its
/// track qualifies.
pub fn candidate_indices(
    tracks: &Vec<TempoTrack>,
    bpm_centibpm: u32,
    tolerance_centibpm: u32,
) -> (c: Vec<usize>)
    ensures
        forall|k: int| 0 <= k < c@.len() ==> #[trigger] c@[k] < tracks@.len(),
        forall|k1: int, k2: int| 0 <= k1 < k2 < c@.len() ==> c@[k1] < c@[k2],
        forall|i: int|
            0 <= i < tracks@.len() ==> (c@.contains(i as usize) <==> within_tolerance(
                #[trigger] tracks@[i].tempo_centibpm as int,
                bpm_centibpm as int,
                tolerance_centibpm as int,
            )),
        c@.len() == 0 <==> !has_candidate(tracks@, bpm_centibpm as int, tolerance_centibpm as int),
{
    let mut c: Vec<usize> = Vec::new();
    let mut i: usize = 0;
    while i < tracks.len()
        invariant
            i <= tracks@.len(),
            forall|k: int| 0 <= k < c@.len() ==> #[trigger] c@[k] < i,
            forall|k1: int, k2: int| 0 <= k1 < k2 < c@.len() ==> c@[k1] < c@[k2],
            forall|j: int|
                0 <= j < i ==> (c@.contains(j as usize) <==> within_tolerance(
                    #[trigger] tracks@[j].tempo_centibpm as int,
                    bpm_centibpm as int,
                    tolerance_centibpm as int,
                )),
        decreases tracks@.len() - i,
    {
        let tempo = tracks[i].tempo_centibpm;
        let diff = if tempo >= bpm_centibpm {
            tempo - bpm_centibpm
        } else {
            bpm_centibpm - tempo
        };
        let ghost c_before = c@;
        if diff <= tolerance_centibpm {
            c.push(i);
            proof {
                assert(c@ == c_before.push(i));
                assert(c@[c_before.len() as int] == i);
                assert(c@.contains(i));
            }
        }
        proof {
            assert forall|j: int| 0 <= j < i + 1 implies (c@.contains(j as usize)
                <==> within_tolerance(
                #[trigger] tracks@[j].tempo_centibpm as int,
                bpm_centibpm as int,
                tolerance_centibpm as int,
            )) by {
                if j < i {
                    if c_before.contains(j as usize) {
                        let k = choose|k: int| 0 <= k < c_before.len() && c_before[k] == j as usize;
                        assert(c@[k] == j as usize);
                    }
                    if c@.contains(j as usize) {
                        let k = choose|k: int| 0 <= k < c@.len() && c@[k] == j as usize;
                        if k < c_before.len() {
                            assert(c_before[k] == j as usize);
                        }
                    }
                }
            }
        }
        i = i + 1;
    }
    proof {
        if c@.len() > 0 {
            assert(c@.contains(c@[0]));
            assert(within_tolerance(
                tracks@[c@[0] as int].tempo_centibpm as int,
                bpm_centibpm as int,
                tolerance_centibpm as int,
            ));
        }
        if has_candidate(tracks@, bpm_centibpm as int, tolerance_centibpm as int) {
            let w = choose|w: int|
                0 <= w < tracks@.len() && within_tolerance(
                    #[trigger] tracks@[w].tempo_centibpm as int,
                    bpm_centibpm as int,
                    tolerance_centibpm as int,
                );
            assert(c@.contains(w as usize));
        }
    }
    c
}

/// Relies on rand's `StdRng`, the seedable standard generator, carried
/// opaquely through the scheduling loop.
#[verifier::external_type_specification]
#[verifier::external_body]
pub struct ExStdRng(rand::rngs::StdRng);

/// Relies on rand's `Rng::gen_range` over `0..n`: it panics only on an empty
/// range, and returns a uniformly distributed value of the range, so the
/// result is below `n`. Which value comes back depends on the generator's
/// state, so nothing more is assumed of it.
#[verifier::external_body]
fn rng_below(rng: &mut rand::rngs::StdRng, n: usize) -> (r: usize)
    requires
        n >= 1,
    ensures
        r < n,
{
    rand::Rng::gen_range(rng, 0..n)
}

/// One scheduling cycle against a snapshot of the live rate: if any track's
/// tempo lies within the tolerance (bounds included), one qualifying track is
/// chosen by a single uniform draw over exactly the qualifying tracks and an
/// enqueue paced by its duration is requested; otherwise the cycle asks for
/// one idle backoff sleep before re-evaluating.
pub fn scheduler_step(
    tracks: &Vec<TempoTrack>,
    bpm_centibpm: u32,
    tolerance_centibpm: u32,
    rng: &mut rand::rngs::StdRng,
) -> (action: SchedulerAction)
    ensures
        action is Idle <==> !has_candidate(
            tracks@,
            bpm_centibpm as int,
            tolerance_centibpm as int,
        ),
        action matches SchedulerAction::Idle { sleep_ms } ==> sleep_ms == IDLE_BACKOFF_MS,
        action matches SchedulerAction::Enqueue { track_index, sleep_ms } ==> track_index
            < tracks@.len() && within_tolerance(
            tracks@[track_index as int].tempo_centibpm as int,
            bpm_centibpm as int,
            tolerance_centibpm as int,
        ) && sleep_ms == tracks@[track_index as int].duration_ms,
{
    let candidates = candidate_indices(tracks, bpm_centibpm, tolerance_centibpm);
    if candidates.len() == 0 {
        SchedulerAction::Idle { sleep_ms: IDLE_BACKOFF_MS }
    } else {
        let slot = rng_below(rng, candidates.len());
        let track_index = candidates[slot];
        assert(candidates@.contains(candidates@[slot as int]));
        SchedulerAction::Enqueue { track_index, sleep_ms: tracks[track_index].duration_ms }
    }
}

} // verus!

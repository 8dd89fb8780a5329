//! A point-in-time snapshot of one task from the external tracker.
//!
//! The tracker owns the record; the engine only reads a copy. The snapshot
//! may go stale and is replaced only by an explicit refresh, never silently.

use vstd::prelude::*;
use crate::time::MAX_SECS;

verus! {

/// One candidate task as the tracker reported it: identifying fields, the
/// optional scheduling hints the engine reads, and the urgency weight that
/// was computed externally for the instant the candidates were fetched.
///
/// `urgency` is a fixed-point sampling weight (the caller picks the scale);
/// it is meaningful only relative to the other candidates of the same fetch.
#[derive(Clone, Debug)]
pub struct Task {
    /// The tracker's short working identifier.
    pub id: u64,
    /// The stable identifier used for mutation calls.
    pub uuid: String,
    /// Human-readable description.
    pub description: String,
    pub tags: Vec<String>,
    pub project: Option<String>,
    /// Due instant, in seconds since the epoch.
    pub due: Option<i64>,
    /// Declared time estimate, in seconds.
    pub estimate: Option<i64>,
    pub annotations: Vec<String>,
    /// Sampling weight for selection, computed externally.
    pub urgency: u64,
}

impl Task {
    /// Well-formedness: the timing fields the engine computes with stay in
    /// the bounded range of the timer model.
    pub open spec fn wf(self) -> bool {
        &&& (self.due matches Some(d) ==> 0 <= d <= MAX_SECS)
        &&& (self.estimate matches Some(e) ==> 0 <= e <= MAX_SECS)
    }

    /// Whether the snapshot carries any annotations.
    pub fn has_annotations(&self) -> (b: bool)
        ensures
            b == (self.annotations@.len() > 0),
    {
        self.annotations.len() > 0
    }
}

} // verus!

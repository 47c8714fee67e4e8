//! Serialization of drive intervals.
//!
//! The exclusive resource guard admits at most one drive at a time: the
//! second of two actuation requests receives the actuator only after
//! the first request's drive has ended, so its drive starts at or after
//! that end. This module states what that hand-over buys: two drives
//! scheduled that way are back-to-back, never overlapping.

use vstd::prelude::*;

verus! {

/// Whether instant `t` lies inside the drive that starts at `start`
/// and runs for `duration` time units.
pub open spec fn driving_at(start: int, duration: int, t: int) -> bool {
    start <= t < start + duration
}

/// Serialized drives never overlap: when one drive starts at or after
/// another ends — the order the exclusive guard enforces — there is no
/// instant at which both are running, whatever their durations.
pub proof fn lemma_serialized_drives_never_overlap(s1: int, d1: int, s2: int, d2: int)
    requires
        s1 + d1 <= s2,
    ensures
        forall|t: int| !(driving_at(s1, d1, t) && driving_at(s2, d2, t)),
{
}

} // verus!

//! The lifecycle of one actuation request.
//!
//! A request lives through a fixed sequence of phases — received,
//! authenticated, validated, guard acquired, driving, guard released,
//! responded — with early exits at each rejection point. The trace a
//! request takes is a pure function of its credential, its action and
//! the drive's outcome; the lemmas below pin down which phases a
//! rejected request can never reach, and that an acquired guard is
//! always released before the reply goes out.

use vstd::prelude::*;

use crate::auth::key_accepted;
use crate::handlers::WaterDecision;
use crate::handlers::water_decision;

verus! {

/// One phase in the life of an actuation request.
#[derive(PartialEq, Eq, Structural)]
pub enum RequestPhase {
    /// The request arrived.
    Received,
    /// The credential was accepted.
    Authenticated,
    /// The action was recognized.
    Validated,
    /// The exclusive guard was acquired.
    LockAcquired,
    /// The drive sequence is running.
    Driving,
    /// The exclusive guard was released.
    LockReleased,
    /// A success reply was produced.
    Responded,
    /// Terminal: the credential was absent or wrong.
    Unauthorized,
    /// Terminal: the action was not recognized.
    Rejected,
    /// Terminal: the driver reported a failure.
    Failed,
}

/// The phases one actuation request traverses, in order. `drive_ok`
/// reports how the drive ended, and matters only for a request that
/// earns one.
pub open spec fn water_request_trace(
    provided: Option<Seq<char>>,
    secret: Seq<char>,
    action: Seq<char>,
    drive_ok: bool,
) -> Seq<RequestPhase> {
    match water_decision(provided, secret, action) {
        WaterDecision::RejectUnauthorized => seq![
            RequestPhase::Received,
            RequestPhase::Unauthorized,
        ],
        WaterDecision::RejectInvalid => seq![
            RequestPhase::Received,
            RequestPhase::Authenticated,
            RequestPhase::Rejected,
        ],
        WaterDecision::Drive => seq![
            RequestPhase::Received,
            RequestPhase::Authenticated,
            RequestPhase::Validated,
            RequestPhase::LockAcquired,
            RequestPhase::Driving,
            RequestPhase::LockReleased,
            if drive_ok {
                RequestPhase::Responded
            } else {
                RequestPhase::Failed
            },
        ],
    }
}

/// A request with an absent or mismatched credential ends unauthorized
/// and never reaches the guard or the actuator: no phase of its trace
/// acquires the lock or drives.
pub proof fn lemma_unauthorized_trace_never_drives(
    provided: Option<Seq<char>>,
    secret: Seq<char>,
    action: Seq<char>,
    drive_ok: bool,
)
    requires
        !key_accepted(provided, secret),
    ensures
        water_request_trace(provided, secret, action, drive_ok).last()
            == RequestPhase::Unauthorized,
        forall|i: int|
            0 <= i < water_request_trace(provided, secret, action, drive_ok).len()
                ==> #[trigger] water_request_trace(provided, secret, action, drive_ok)[i]
                != RequestPhase::LockAcquired && water_request_trace(
                provided,
                secret,
                action,
                drive_ok,
            )[i] != RequestPhase::Driving,
{
    let t = water_request_trace(provided, secret, action, drive_ok);
    assert(t[0] == RequestPhase::Received);
    assert(t[1] == RequestPhase::Unauthorized);
}

/// An authenticated request with an unrecognized action is rejected
/// before the guard: no phase of its trace acquires the lock or drives.
pub proof fn lemma_rejected_trace_never_drives(
    provided: Option<Seq<char>>,
    secret: Seq<char>,
    action: Seq<char>,
    drive_ok: bool,
)
    requires
        key_accepted(provided, secret),
        action != "start"@,
    ensures
        water_request_trace(provided, secret, action, drive_ok).last() == RequestPhase::Rejected,
        forall|i: int|
            0 <= i < water_request_trace(provided, secret, action, drive_ok).len()
                ==> #[trigger] water_request_trace(provided, secret, action, drive_ok)[i]
                != RequestPhase::LockAcquired && water_request_trace(
                provided,
                secret,
                action,
                drive_ok,
            )[i] != RequestPhase::Driving,
{
    let t = water_request_trace(provided, secret, action, drive_ok);
    assert(t[0] == RequestPhase::Received);
    assert(t[1] == RequestPhase::Authenticated);
    assert(t[2] == RequestPhase::Rejected);
}

/// Whenever a trace acquires the guard, it releases it again before its
/// terminal phase, whether the drive succeeded or failed: the guard is
/// released unconditionally on every exit path.
pub proof fn lemma_acquired_guard_is_released(
    provided: Option<Seq<char>>,
    secret: Seq<char>,
    action: Seq<char>,
    drive_ok: bool,
)
    ensures
        forall|i: int|
            0 <= i < water_request_trace(provided, secret, action, drive_ok).len()
                && #[trigger] water_request_trace(provided, secret, action, drive_ok)[i]
                == RequestPhase::LockAcquired ==> exists|j: int|
                i < j < water_request_trace(provided, secret, action, drive_ok).len() - 1
                    && #[trigger] water_request_trace(provided, secret, action, drive_ok)[j]
                    == RequestPhase::LockReleased,
{
    let t = water_request_trace(provided, secret, action, drive_ok);
    if water_decision(provided, secret, action) is Drive {
        assert(t[5] == RequestPhase::LockReleased);
        assert(forall|i: int|
            0 <= i < t.len() && #[trigger] t[i] == RequestPhase::LockAcquired ==> i == 3);
        assert(3 < 5 < t.len() - 1);
    } else {
        assert(forall|i: int| 0 <= i < t.len() ==> #[trigger] t[i] != RequestPhase::LockAcquired)
            by {
            assert(t[0] == RequestPhase::Received);
        }
    }
}

} // verus!

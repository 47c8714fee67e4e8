//! The actuator: one physical output line, or its software simulation.
//!
//! The controller's variant is decided once, at startup, from the
//! outcome of the single hardware probe, and never changes afterwards.
//! A drive is described here as a plan of timed steps for the caller to
//! perform, and its outcome is turned back into the reply descriptor.

use vstd::prelude::*;

use crate::text::dec_digits;
use crate::text::u64_to_string;

verus! {

/// One step of the timed drive sequence.
#[derive(Clone, Copy, PartialEq, Eq, Structural, Debug)]
pub enum DriveStep {
    /// Set the output line to its active level.
    SetActive,
    /// Suspend the requesting task for the given number of seconds.
    Wait { secs: u64 },
    /// Set the output line back to its inactive level.
    SetInactive,
}

/// The one controlled actuator. The variant is fixed at construction:
/// either bound to a real output line, or a hardware-free stand-in that
/// only accounts for elapsed time.
#[derive(Clone, Copy, Debug)]
pub enum GpioController {
    /// Bound to a real output line on the given pin.
    Real { pin: u8 },
    /// No hardware binding; every drive is simulated.
    Dummy,
}

/// The drive sequence each variant prescribes: the real line is set
/// active, held for the duration, then set inactive; the simulation
/// only waits.
pub open spec fn spec_run_motor_plan(c: GpioController, duration_secs: u64) -> Seq<DriveStep> {
    if c is Real {
        seq![
            DriveStep::SetActive,
            DriveStep::Wait { secs: duration_secs },
            DriveStep::SetInactive,
        ]
    } else {
        seq![DriveStep::Wait { secs: duration_secs }]
    }
}

/// Descriptor reported after a drive on the real line.
pub open spec fn live_descriptor(duration_secs: u64) -> Seq<char> {
    "実機実行: "@ + dec_digits(duration_secs as nat) + "秒間モーターを制御しました"@
}

/// Descriptor reported after a simulated drive.
pub open spec fn simulated_descriptor(duration_secs: u64) -> Seq<char> {
    "ダミー実行: "@ + dec_digits(duration_secs as nat) + "秒間モーターを制御しました"@
}

/// Total seconds of suspension a drive sequence prescribes.
pub open spec fn wait_secs_total(plan: Seq<DriveStep>) -> int
    decreases plan.len(),
{
    if plan.len() == 0 {
        0
    } else {
        wait_secs_total(plan.drop_last()) + (match plan.last() {
            DriveStep::Wait { secs } => secs as int,
            _ => 0,
        })
    }
}

/// Whether a step touches the output line.
pub open spec fn touches_hardware(s: DriveStep) -> bool {
    !(s is Wait)
}

impl GpioController {
    /// Decides the variant from the outcome of the startup probe.
    /// `line_available` reports whether the caller managed to bind the
    /// output line for `pin`; on failure the controller falls back to
    /// the simulated variant instead of propagating the error, so the
    /// service stays usable without the device attached.
    pub fn new(pin: u8, line_available: bool) -> (c: GpioController)
        ensures
            line_available ==> c == (GpioController::Real { pin }),
            !line_available ==> c == GpioController::Dummy,
    {
        if line_available {
            GpioController::Real { pin }
        } else {
            GpioController::Dummy
        }
    }

    /// Pure query of the variant; no side effects.
    pub fn is_dummy(&self) -> (b: bool)
        ensures
            b == (*self is Dummy),
    {
        match self {
            GpioController::Dummy => true,
            GpioController::Real { .. } => false,
        }
    }

    /// The timed sequence one drive must perform, to be executed under
    /// the exclusive guard. The suspension inside it is the only wait a
    /// handler may hold the guard across.
    pub fn run_motor_plan(&self, duration_secs: u64) -> (plan: Vec<DriveStep>)
        ensures
            plan@ == spec_run_motor_plan(*self, duration_secs),
    {
        let mut plan: Vec<DriveStep> = Vec::new();
        match self {
            GpioController::Real { .. } => {
                plan.push(DriveStep::SetActive);
                plan.push(DriveStep::Wait { secs: duration_secs });
                plan.push(DriveStep::SetInactive);
            },
            GpioController::Dummy => {
                plan.push(DriveStep::Wait { secs: duration_secs });
            },
        }
        proof {
            assert(plan@ =~= spec_run_motor_plan(*self, duration_secs));
        }
        plan
    }

    /// The reply descriptor for one completed drive. `driver_error` is
    /// the failure the hardware facility reported while the plan ran,
    /// if any; the simulation has no driver to fail, so its drives
    /// always succeed.
    pub fn run_motor_result(&self, duration_secs: u64, driver_error: Option<String>) -> (r:
        Result<String, String>)
        ensures
            *self is Dummy ==> r is Ok && r->Ok_0@ == simulated_descriptor(duration_secs),
            *self is Real && driver_error is None ==> r is Ok && r->Ok_0@ == live_descriptor(
                duration_secs,
            ),
            *self is Real && driver_error is Some ==> r is Err && r->Err_0@ == driver_error->0@,
    {
        match self {
            GpioController::Dummy => Ok(
                String::from_str("ダミー実行: ").concat(
                    u64_to_string(duration_secs).as_str(),
                ).concat("秒間モーターを制御しました"),
            ),
            GpioController::Real { .. } => match driver_error {
                Option::None => Ok(
                    String::from_str("実機実行: ").concat(
                        u64_to_string(duration_secs).as_str(),
                    ).concat("秒間モーターを制御しました"),
                ),
                Option::Some(e) => Err(e),
            },
        }
    }
}

/// A drive suspends for exactly the requested duration, whichever
/// variant prescribes it.
pub proof fn lemma_plan_waits_full_duration(c: GpioController, duration_secs: u64)
    ensures
        wait_secs_total(spec_run_motor_plan(c, duration_secs)) == duration_secs as int,
{
    let p = spec_run_motor_plan(c, duration_secs);
    if c is Real {
        let p2 = p.drop_last();
        let p1 = p2.drop_last();
        let p0 = p1.drop_last();
        assert(p0 =~= Seq::<DriveStep>::empty());
        assert(wait_secs_total(p0) == 0);
        assert(p1.last() == DriveStep::SetActive);
        assert(wait_secs_total(p1) == 0);
        assert(p2.last() == (DriveStep::Wait { secs: duration_secs }));
        assert(wait_secs_total(p2) == duration_secs as int);
        assert(p.last() == DriveStep::SetInactive);
        assert(wait_secs_total(p) == duration_secs as int);
    } else {
        let p0 = p.drop_last();
        assert(p0 =~= Seq::<DriveStep>::empty());
        assert(wait_secs_total(p0) == 0);
        assert(p.last() == (DriveStep::Wait { secs: duration_secs }));
        assert(wait_secs_total(p) == duration_secs as int);
    }
}

/// In simulation mode a drive touches no hardware line and still
/// suspends for the full requested duration; that it always succeeds is
/// part of the drive-result contract.
pub proof fn lemma_simulated_drive(c: GpioController, duration_secs: u64)
    requires
        c is Dummy,
    ensures
        forall|i: int|
            0 <= i < spec_run_motor_plan(c, duration_secs).len() ==> !touches_hardware(
                #[trigger] spec_run_motor_plan(c, duration_secs)[i],
            ),
        wait_secs_total(spec_run_motor_plan(c, duration_secs)) == duration_secs as int,
{
    lemma_plan_waits_full_duration(c, duration_secs);
}

} // verus!

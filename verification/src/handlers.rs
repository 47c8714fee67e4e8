//! The two request handlers: the status query and the actuation
//! command. Each begins with the authentication check; the actuation
//! handler then validates its request and hands its caller the drive to
//! perform under the exclusive guard.

use vstd::prelude::*;

use crate::actuator::GpioController;
use crate::auth::key_accepted;
use crate::auth::provided_view;
use crate::auth::validate_api_key;
use crate::responses::ApiError;
use crate::responses::StatusResponse;
use crate::responses::WaterRequest;
use crate::responses::WaterResponse;
use crate::responses::driver_failure_error;
use crate::responses::invalid_request_error;
use crate::responses::is_driver_failure;
use crate::responses::is_invalid_request;
use crate::responses::is_unauthorized;
use crate::text::dec_digits;
use crate::text::u64_to_string;

verus! {

/// The mode label the status endpoint reports for each variant.
pub open spec fn mode_label(simulated: bool) -> Seq<char> {
    if simulated {
        "DUMMY MODE"@
    } else {
        "LIVE RPi.GPIO MODE"@
    }
}

/// The status handler. It requires only authentication; it reads the
/// controller's variant — fixed since startup — without acquiring the
/// actuation guard, so a status query never waits for an in-flight
/// drive. No side effects, idempotent.
pub fn status_handler(
    gpio: &GpioController,
    provided: Option<&String>,
    secret: &String,
    pin: u8,
) -> (r: Result<StatusResponse, ApiError>)
    ensures
        r is Ok <==> key_accepted(provided_view(provided), secret@),
        r is Err ==> is_unauthorized(r->Err_0),
        r is Ok ==> r->Ok_0.status@ == "Ready"@ && r->Ok_0.message@ == "Server is ready"@
            && r->Ok_0.server_mode@ == mode_label(*gpio is Dummy) && r->Ok_0.controlled_pin == pin,
{
    match validate_api_key(provided, secret) {
        Err(e) => Err(e),
        Ok(()) => {
            let mode = if gpio.is_dummy() {
                "DUMMY MODE"
            } else {
                "LIVE RPi.GPIO MODE"
            };
            Ok(
                StatusResponse {
                    status: String::from_str("Ready"),
                    message: String::from_str("Server is ready"),
                    server_mode: String::from_str(mode),
                    controlled_pin: pin,
                },
            )
        },
    }
}

/// How the actuation endpoint disposes of a request. The decision is
/// taken from the credential and the action alone, before any guard
/// acquisition.
pub enum WaterDecision {
    /// The credential is absent or wrong.
    RejectUnauthorized,
    /// The credential is right but the action is not the recognized value.
    RejectInvalid,
    /// The request is valid; the drive is owed.
    Drive,
}

/// The actuation endpoint decision: authentication first, then validation;
/// only a request that clears both earns the drive.
pub open spec fn water_decision(
    provided: Option<Seq<char>>,
    secret: Seq<char>,
    action: Seq<char>,
) -> WaterDecision {
    if !key_accepted(provided, secret) {
        WaterDecision::RejectUnauthorized
    } else if action != "start"@ {
        WaterDecision::RejectInvalid
    } else {
        WaterDecision::Drive
    }
}

/// What the actuation handler asks its caller to do next.
pub enum WaterAction {
    /// Answer with this error; the guard is never acquired and the
    /// actuator is never touched.
    Reply(ApiError),
    /// Acquire the exclusive guard and perform one drive of this many
    /// seconds, then build the reply from its outcome.
    Drive { duration_secs: u64 },
}

/// First half of the actuation handler: the authentication gate, then
/// request validation. A rejected request is answered without any side
/// effect; only a valid one directs the caller to the guard and the
/// actuator.
pub fn water_begin(
    provided: Option<&String>,
    secret: &String,
    req: &WaterRequest,
    duration_secs: u64,
) -> (a: WaterAction)
    ensures
        water_decision(provided_view(provided), secret@, req.action@) is RejectUnauthorized ==> (
        a matches WaterAction::Reply(e) && is_unauthorized(e)),
        water_decision(provided_view(provided), secret@, req.action@) is RejectInvalid ==> (
        a matches WaterAction::Reply(e) && is_invalid_request(e)),
        water_decision(provided_view(provided), secret@, req.action@) is Drive ==> a == (
        WaterAction::Drive { duration_secs }),
        a is Drive <==> water_decision(provided_view(provided), secret@, req.action@) is Drive,
{
    match validate_api_key(provided, secret) {
        Err(e) => WaterAction::Reply(e),
        Ok(()) => {
            if req.action == String::from_str("start") {
                WaterAction::Drive { duration_secs }
            } else {
                WaterAction::Reply(invalid_request_error())
            }
        },
    }
}

/// The completion message of a successful actuation.
pub open spec fn water_done_message(duration_secs: u64) -> Seq<char> {
    "水やり ("@ + dec_digits(duration_secs as nat) + "秒) が完了しました"@
}

/// Second half of the actuation handler: builds the reply from the
/// completed drive's outcome. A driver-reported failure surfaces as an
/// internal error — never retried, since the line may already have been
/// driven.
pub fn water_finish(drive_result: Result<String, String>, duration_secs: u64) -> (r: Result<
    WaterResponse,
    ApiError,
>)
    ensures
        drive_result is Ok ==> r is Ok && r->Ok_0.status@ == "success"@ && r->Ok_0.message@
            == water_done_message(duration_secs) && r->Ok_0.gpio_result@ == drive_result->Ok_0@,
        drive_result is Err ==> r is Err && is_driver_failure(r->Err_0, drive_result->Err_0@),
{
    match drive_result {
        Ok(desc) => Ok(
            WaterResponse {
                status: String::from_str("success"),
                message: String::from_str("水やり (").concat(
                    u64_to_string(duration_secs).as_str(),
                ).concat("秒) が完了しました"),
                gpio_result: desc,
            },
        ),
        Err(e) => Err(driver_failure_error(&e)),
    }
}

/// A request whose credential is absent or mismatched is rejected as
/// unauthorized whatever action it carries: the decision never reaches
/// the guard or the actuator.
pub proof fn lemma_bad_credential_rejected(
    provided: Option<Seq<char>>,
    secret: Seq<char>,
    action: Seq<char>,
)
    requires
        !key_accepted(provided, secret),
    ensures
        water_decision(provided, secret, action) is RejectUnauthorized,
        !(water_decision(provided, secret, action) is Drive),
{
}

/// An authenticated actuation request whose action is not the one
/// recognized value is rejected as invalid, and the guard is never
/// acquired for it.
pub proof fn lemma_unrecognized_action_rejected(
    provided: Option<Seq<char>>,
    secret: Seq<char>,
    action: Seq<char>,
)
    requires
        key_accepted(provided, secret),
        action != "start"@,
    ensures
        water_decision(provided, secret, action) is RejectInvalid,
        !(water_decision(provided, secret, action) is Drive),
{
}

/// The drive is owed exactly to authenticated requests that ask to
/// start.
pub proof fn lemma_drive_exactly_when_valid(
    provided: Option<Seq<char>>,
    secret: Seq<char>,
    action: Seq<char>,
)
    ensures
        water_decision(provided, secret, action) is Drive <==> key_accepted(provided, secret)
            && action == "start"@,
{
}

} // verus!

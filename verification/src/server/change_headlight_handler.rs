//! The operator command that sets a scooter's headlight and says in its answer what it set.

use crate::errors::AppError;
use crate::errors::message_of;
use crate::errors::report;
use crate::errors::status_of;
use crate::server::command_enums::SpeedMode;
use crate::server::command_enums::Turn;
use crate::server::workflow::SettingFlow;
use crate::server::workflow::SettingFlowView;
use crate::server::workflow::SettingStep;
use vstd::prelude::*;
use vstd::string::StringExecFns;

verus! {

/// A request to switch the headlight of the scooter `imei`: on for `true`, off for `false`.
#[derive(Debug)]
pub struct ChangeHeadlightRequest {
    pub imei: String,
    pub state: bool,
}

/// What the operator is told: whether the change went through, a message, and
/// the IMEI that was asked for.
#[derive(Debug)]
pub struct ChangeHeadlightResponse {
    pub success: bool,
    pub message: String,
    pub imei: String,
}

/// The message of a headlight change that went through.
pub open spec fn headlight_done_text(state: bool, imei: Seq<char>) -> Seq<char> {
    if state {
        "Headlight turned on for scooter with IMEI "@ + imei
    } else {
        "Headlight turned off for scooter with IMEI "@ + imei
    }
}


/// The workflow that carries out `request`.
pub fn begin_change_headlight(request: &ChangeHeadlightRequest) -> (flow: SettingFlow)
    ensures
        flow@ == (SettingFlowView {
            imei: request.imei@,
            headlight: if request.state {
                Turn::On
            } else {
                Turn::Off
            },
            speed_mode: SpeedMode::DontSet,
            throttle: Turn::DontSet,
            taillights_flashing: Turn::DontSet,
            current_step: SettingStep::SendS7,
        }),
{
    SettingFlow::toggle_headlight(request.imei.clone(), request.state)
}

/// The HTTP status and the body that report how the change ended.
pub fn change_headlight_reply(
    request: ChangeHeadlightRequest,
    outcome: Result<(), AppError>,
) -> (reply: (u16, ChangeHeadlightResponse))
    ensures
        reply.0 == status_of(outcome),
        reply.1.success == (outcome is Ok),
        reply.1.message@ == message_of(outcome, headlight_done_text(request.state, request.imei@)),
        reply.1.imei == request.imei,
{
    let success = outcome.is_ok();
    let mut done = if request.state {
        String::from_str("Headlight turned on for scooter with IMEI ")
    } else {
        String::from_str("Headlight turned off for scooter with IMEI ")
    };
    done.append(request.imei.as_str());
    let (status, message) = report(outcome, done);
    (status, ChangeHeadlightResponse { success, message, imei: request.imei })
}

} // verus!

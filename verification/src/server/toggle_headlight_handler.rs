//! The operator command that switches a scooter's headlight.

use crate::errors::AppError;
use crate::errors::message_of;
use crate::errors::report;
use crate::errors::status_of;
use crate::server::command_enums::SpeedMode;
use crate::server::command_enums::Turn;
use crate::server::workflow::SettingFlow;
use crate::server::workflow::SettingFlowView;
use crate::server::workflow::SettingStep;
use vstd::prelude::*;
use vstd::string::StringExecFns;

verus! {

/// A request to switch the headlight of the scooter `imei`: on for `true`, off for `false`.
#[derive(Debug)]
pub struct ToggleHeadlightRequest {
    pub imei: String,
    pub state: bool,
}

/// What the operator is told: whether the switch went through, a message, and
/// the IMEI that was asked for.
#[derive(Debug)]
pub struct ToggleHeadlightResponse {
    pub success: bool,
    pub message: String,
    pub imei: String,
}


/// The workflow that carries out `request`.
pub fn begin_toggle_headlight(request: &ToggleHeadlightRequest) -> (flow: SettingFlow)
    ensures
        flow@ == (SettingFlowView {
            imei: request.imei@,
            headlight: if request.state {
                Turn::On
            } else {
                Turn::Off
            },
            speed_mode: SpeedMode::DontSet,
            throttle: Turn::DontSet,
            taillights_flashing: Turn::DontSet,
            current_step: SettingStep::SendS7,
        }),
{
    SettingFlow::toggle_headlight(request.imei.clone(), request.state)
}

/// The HTTP status and the body that report how the switch ended.
pub fn toggle_headlight_reply(
    request: ToggleHeadlightRequest,
    outcome: Result<(), AppError>,
) -> (reply: (u16, ToggleHeadlightResponse))
    ensures
        reply.0 == status_of(outcome),
        reply.1.success == (outcome is Ok),
        reply.1.message@ == message_of(outcome, "Headlight toggled successfully"@),
        reply.1.imei == request.imei,
{
    let success = outcome.is_ok();
    let done = String::from_str("Headlight toggled successfully");
    let (status, message) = report(outcome, done);
    (status, ToggleHeadlightResponse { success, message, imei: request.imei })
}

} // verus!

//! The operator command that changes a scooter's speed gear.

use crate::errors::AppError;
use crate::errors::message_of;
use crate::errors::report;
use crate::errors::status_of;
use crate::server::command_enums::SpeedMode;
use crate::server::command_enums::Turn;
use crate::server::workflow::SettingFlow;
use crate::server::workflow::SettingFlowView;
use crate::server::workflow::SettingStep;
use vstd::prelude::*;
use vstd::string::StringExecFns;

verus! {

/// A request to put the scooter `imei` into the gear `gear`, 0 to 3.
#[derive(Debug)]
pub struct ChangeGearRequest {
    pub imei: String,
    pub gear: u8,
}

/// What the operator is told: whether the change of gear went through, a message, and
/// the IMEI that was asked for.
#[derive(Debug)]
pub struct ChangeGearResponse {
    pub success: bool,
    pub message: String,
    pub imei: String,
}


/// The workflow that carries out `request`. A gear that the protocol does
/// not have is a bad request.
pub fn begin_change_gear(request: &ChangeGearRequest) -> (flow: Result<SettingFlow, AppError>)
    ensures
        match flow {
            Ok(flow) => SpeedMode::of_code(request.gear) is Some && flow@ == (SettingFlowView {
                imei: request.imei@,
                headlight: Turn::DontSet,
                speed_mode: SpeedMode::of_code(request.gear)->0,
                throttle: Turn::DontSet,
                taillights_flashing: Turn::DontSet,
                current_step: SettingStep::SendS7,
            }),
            Err(error) => SpeedMode::of_code(request.gear) is None && error.status() == 400
                && error.detail_text() == "Out of range 0, 1, 2, 3"@,
        },
{
    match SettingFlow::change_gear(request.imei.clone(), request.gear) {
        Ok(flow) => Ok(flow),
        Err(message) => Err(AppError::InvalidCommand(message)),
    }
}

/// The HTTP status and the body that report how the change of gear ended.
pub fn change_gear_reply(request: ChangeGearRequest, outcome: Result<(), AppError>) -> (reply: (
    u16,
    ChangeGearResponse,
))
    ensures
        reply.0 == status_of(outcome),
        reply.1.success == (outcome is Ok),
        reply.1.message@ == message_of(outcome, "Gear changed"@),
        reply.1.imei == request.imei,
{
    let success = outcome.is_ok();
    let done = String::from_str("Gear changed");
    let (status, message) = report(outcome, done);
    (status, ChangeGearResponse { success, message, imei: request.imei })
}

} // verus!

//! The operator command that unlocks a scooter.

use crate::commands::unlock_flow::UnlockFlow;
use crate::commands::unlock_flow::UnlockFlowView;
use crate::config::USER_ID;
use crate::decimal::decimal_text;
use crate::decimal::unsigned_to_string;
use crate::errors::AppError;
use crate::errors::message_of;
use crate::errors::report;
use crate::errors::status_of;
use vstd::prelude::*;
use vstd::string::StringExecFns;

verus! {

/// A request to unlock the scooter `imei`.
#[derive(Debug)]
pub struct UnlockRequest {
    pub imei: String,
}

/// What the operator is told: whether the unlock went through, a message, and
/// the IMEI that was asked for.
#[derive(Debug)]
pub struct UnlockResponse {
    pub success: bool,
    pub message: String,
    pub imei: String,
}

/// The workflow that carries out `request` on behalf of the configured
/// operator, started at `now`, the reading of the clock in Unix seconds.
pub fn begin_unlock(request: &UnlockRequest, correlation_id: String, now: i64) -> (flow:
    UnlockFlow)
    ensures
        flow@ == UnlockFlowView::starting_at(
            request.imei@,
            correlation_id@,
            decimal_text(USER_ID as nat),
            now,
        ),
{
    UnlockFlow::new(request.imei.clone(), correlation_id, unsigned_to_string(USER_ID as u64), now)
}

/// The HTTP status and the body that report how the unlock ended.
pub fn unlock_reply(request: UnlockRequest, outcome: Result<(), AppError>) -> (reply: (
    u16,
    UnlockResponse,
))
    ensures
        reply.0 == status_of(outcome),
        reply.1.success == (outcome is Ok),
        reply.1.message@ == message_of(outcome, "Unlock operation completed successfully"@),
        reply.1.imei == request.imei,
{
    let success = outcome.is_ok();
    let done = String::from_str("Unlock operation completed successfully");
    let (status, message) = report(outcome, done);
    (status, UnlockResponse { success, message, imei: request.imei })
}

} // verus!

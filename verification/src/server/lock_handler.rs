//! The operator command that locks a scooter.

use crate::config::USER_ID;
use crate::errors::AppError;
use crate::errors::message_of;
use crate::errors::report;
use crate::errors::status_of;
use crate::server::workflow::LockFlow;
use crate::server::workflow::LockFlowView;
use crate::server::workflow::LockStep;
use vstd::prelude::*;
use vstd::string::StringExecFns;

verus! {

/// A request to lock the scooter `imei`.
#[derive(Debug)]
pub struct LockRequest {
    pub imei: String,
}

/// What the operator is told: whether the lock went through, a message, and
/// the IMEI that was asked for.
#[derive(Debug)]
pub struct LockResponse {
    pub success: bool,
    pub message: String,
    pub imei: String,
}

/// The workflow that carries out `request` on behalf of the configured
/// operator, started at `now`, the reading of the clock in Unix seconds.
pub fn begin_lock(request: &LockRequest, now: i64) -> (flow: LockFlow)
    ensures
        flow@ == (LockFlowView {
            imei: request.imei@,
            user_id: USER_ID,
            timestamp: now,
            current_step: LockStep::SendR0,
            key: Seq::<char>::empty(),
        }),
{
    LockFlow::new(request.imei.clone(), USER_ID, now)
}

/// The HTTP status and the body that report how the lock ended.
pub fn lock_reply(request: LockRequest, outcome: Result<(), AppError>) -> (reply: (
    u16,
    LockResponse,
))
    ensures
        reply.0 == status_of(outcome),
        reply.1.success == (outcome is Ok),
        reply.1.message@ == message_of(outcome, "Lock operation completed successfully"@),
        reply.1.imei == request.imei,
{
    let success = outcome.is_ok();
    let done = String::from_str("Lock operation completed successfully");
    let (status, message) = report(outcome, done);
    (status, LockResponse { success, message, imei: request.imei })
}

} // verus!

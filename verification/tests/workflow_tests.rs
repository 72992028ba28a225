use scooter_gateway::commands::unlock_flow::{UnlockFlow, UnlockStep};
use scooter_gateway::errors::AppError;
use scooter_gateway::server::change_gear_handler::{
    begin_change_gear, change_gear_reply, ChangeGearRequest,
};
use scooter_gateway::server::change_headlight_handler::{
    begin_change_headlight, change_headlight_reply, ChangeHeadlightRequest,
};
use scooter_gateway::server::command_enums::{SpeedMode, Turn};
use scooter_gateway::server::handler::{not_found_failure, step_failure, StepEvent};
use scooter_gateway::server::lock_handler::{begin_lock, lock_reply, LockRequest};
use scooter_gateway::server::registry::Registry;
use scooter_gateway::server::toggle_headlight_handler::{
    begin_toggle_headlight, toggle_headlight_reply, ToggleHeadlightRequest,
};
use scooter_gateway::server::unlock_handler::{begin_unlock, unlock_reply, UnlockRequest};
use scooter_gateway::server::workflow::{FlowAction, LockFlow, LockStep, SettingFlow, SettingStep};

const IMEI: &str = "123456789012345";

#[test]
fn unlock_happy_path_sends_three_frames() {
    let mut flow = UnlockFlow::new(
        IMEI.to_string(),
        "req-1".to_string(),
        "1234".to_string(),
        1497689816,
    );
    assert_eq!(flow.current_step, UnlockStep::SendR0);
    assert_eq!(
        flow.action(),
        FlowAction::Send("0xFFFF*SCOS,LZ,123456789012345,R0,0,20,1234,1497689816#\n".to_string())
    );
    flow.sent();
    assert_eq!(flow.action(), FlowAction::Receive);

    assert!(flow.received("*SCOR,LZ,123456789012345,R0,0,55,1234,1497689816#\n"));
    assert_eq!(flow.key, "55");
    assert_eq!(
        flow.action(),
        FlowAction::Send("0xFFFF*SCOS,LZ,123456789012345,L0,55,1234,1497689819#\n".to_string())
    );
    flow.sent();
    assert_eq!(flow.action(), FlowAction::Receive);

    assert!(flow.received("*SCOR,LZ,123456789012345,L0,0,1234,1497689819#\n"));
    assert_eq!(
        flow.action(),
        FlowAction::Send("0xFFFF*SCOS,LZ,123456789012345,L0#\n".to_string())
    );
    assert_eq!(flow.current_step, UnlockStep::SendFinalL0);
    flow.sent();
    assert_eq!(flow.current_step, UnlockStep::Completed);
    assert_eq!(flow.action(), FlowAction::Finish);
}

#[test]
fn unlock_stamps_second_round_three_seconds_later() {
    let flow = UnlockFlow::new(IMEI.to_string(), String::new(), "7".to_string(), -2);
    assert_eq!(flow.timestamp_1, "-2");
    assert_eq!(flow.timestamp_2, "1");
    assert_eq!(flow.key_effective_time, 20);
    assert_eq!(flow.key, "");
}

#[test]
fn unlock_ignores_telemetry_while_waiting_for_key() {
    let mut flow = UnlockFlow::new(
        IMEI.to_string(),
        "req-2".to_string(),
        "1234".to_string(),
        1497689816,
    );
    flow.sent();
    assert!(!flow.received("*SCOR,LZ,123456789012345,H0,0,3780,22,78,0#\n"));
    assert_eq!(flow.current_step, UnlockStep::WaitForR0Response);
    assert_eq!(flow.action(), FlowAction::Receive);
    assert!(flow.received("*SCOR,LZ,123456789012345,R0,0,55,1234,1497689816#\n"));
    assert_eq!(flow.current_step, UnlockStep::SendL0);
    assert_eq!(flow.key, "55");
}

#[test]
fn unlock_ignores_answers_that_differ_in_one_field() {
    let mut flow = UnlockFlow::new(
        IMEI.to_string(),
        "req-3".to_string(),
        "1234".to_string(),
        1497689816,
    );
    flow.sent();
    // another user, another timestamp, a lock instead of an unlock, another scooter,
    // a leading zero, a blank
    assert!(!flow.received("*SCOR,LZ,123456789012345,R0,0,55,1235,1497689816#\n"));
    assert!(!flow.received("*SCOR,LZ,123456789012345,R0,0,55,1234,1497689817#\n"));
    assert!(!flow.received("*SCOR,LZ,123456789012345,R0,1,55,1234,1497689816#\n"));
    assert!(!flow.received("*SCOR,LZ,123456789012346,R0,0,55,1234,1497689816#\n"));
    assert!(!flow.received("*SCOR,LZ,123456789012345,R0,0,55,01234,1497689816#\n"));
    assert!(!flow.received("*SCOR,LZ,123456789012345,R0,0,55, 1234,1497689816#\n"));
    assert!(!flow.received("*SCOR,LZ,123456789012345,R0,0,,1234,1497689816#\n"));
    assert_eq!(flow.current_step, UnlockStep::WaitForR0Response);
    assert_eq!(flow.key, "");
}

#[test]
fn unlock_does_not_read_frames_while_it_has_to_send() {
    let mut flow = UnlockFlow::new(IMEI.to_string(), String::new(), "1234".to_string(), 10);
    assert!(!flow.received("*SCOR,LZ,123456789012345,R0,0,55,1234,10#\n"));
    assert_eq!(flow.current_step, UnlockStep::SendR0);
    flow.sent();
    flow.sent();
    assert_eq!(flow.current_step, UnlockStep::WaitForR0Response);
}

#[test]
fn unlock_confirmation_must_report_success() {
    let mut flow = UnlockFlow::new(IMEI.to_string(), String::new(), "1234".to_string(), 100);
    flow.sent();
    assert!(flow.received("*SCOR,LZ,123456789012345,R0,0,7,1234,100#\n"));
    flow.sent();
    assert!(!flow.received("*SCOR,LZ,123456789012345,L0,1,1234,103#\n"));
    assert!(!flow.received("*SCOR,LZ,123456789012345,L0,2,1234,103#\n"));
    assert!(!flow.received("*SCOR,LZ,123456789012345,L0,0,1234,100#\n"));
    assert_eq!(flow.current_step, UnlockStep::WaitForL0Response);
    assert!(flow.received("*SCOR,LZ,123456789012345,L0,0,1234,103#\n"));
    assert_eq!(flow.current_step, UnlockStep::SendFinalL0);
}

#[test]
fn unlock_takes_verdicts_only_in_the_step_that_waits_for_them() {
    let mut flow = UnlockFlow::new(IMEI.to_string(), String::new(), "1234".to_string(), 100);
    assert!(!flow.key_received(Ok("9".to_string())));
    assert!(!flow.confirmation_received(Ok(())));
    flow.sent();
    assert!(!flow.key_received(Err("no".to_string())));
    assert!(!flow.confirmation_received(Ok(())));
    assert!(flow.key_received(Ok("9".to_string())));
    assert_eq!(flow.key, "9");
    flow.sent();
    assert!(!flow.key_received(Ok("10".to_string())));
    assert_eq!(flow.key, "9");
    assert!(!flow.confirmation_received(Err("no".to_string())));
    assert!(flow.confirmation_received(Ok(())));
}

#[test]
fn lock_with_cycling_time_is_accepted() {
    let mut flow = LockFlow::new(IMEI.to_string(), 1234, 1497689816);
    assert_eq!(
        flow.action(),
        FlowAction::Send("0xFFFF*SCOS,LZ,123456789012345,R0,1,20,1234,1497689816#\n".to_string())
    );
    flow.sent();
    assert!(flow.received("*SCOR,LZ,123456789012345,R0,1,55,1234,1497689816#\n"));
    assert_eq!(
        flow.action(),
        FlowAction::Send("0xFFFF*SCOS,LZ,123456789012345,L1,55#\n".to_string())
    );
    flow.sent();
    assert_eq!(flow.action(), FlowAction::Receive);
    assert!(flow.received("*SCOR,LZ,123456789012345,L1,0,1234,1497700000,87#\n"));
    assert_eq!(
        flow.action(),
        FlowAction::Send("0xFFFF*SCOS,LZ,123456789012345,L1#\n".to_string())
    );
    flow.sent();
    assert_eq!(flow.current_step, LockStep::Completed);
    assert_eq!(flow.action(), FlowAction::Finish);
}

#[test]
fn lock_ignores_unlock_answers_and_failures() {
    let mut flow = LockFlow::new(IMEI.to_string(), 1234, 5);
    flow.sent();
    assert!(!flow.received("*SCOR,LZ,123456789012345,R0,0,55,1234,5#\n"));
    assert!(!flow.received("*SCOR,LZ,123456789012345,W0,1#\n"));
    assert!(flow.received("*SCOR,LZ,123456789012345,R0,1,200,1234,5#\n"));
    assert_eq!(flow.key, "200");
    flow.sent();
    assert!(!flow.received("*SCOR,LZ,123456789012345,L1,1,1234,1497700000,87#\n"));
    assert!(!flow.received("*SCOR,LZ,123456789012345,L1,0,1234,1497700000#\n"));
    assert!(!flow.received("*SCOR,LZ,123456789012345,L1,0,1234,,87#\n"));
    assert_eq!(flow.current_step, LockStep::WaitForL1Response);
}

#[test]
fn change_gear_sets_only_the_speed_mode() {
    let mut flow = SettingFlow::change_gear(IMEI.to_string(), 3).unwrap();
    assert_eq!(flow.headlight, Turn::DontSet);
    assert_eq!(flow.speed_mode, SpeedMode::High);
    assert_eq!(flow.throttle, Turn::DontSet);
    assert_eq!(flow.taillights_flashing, Turn::DontSet);
    assert_eq!(
        flow.action(),
        FlowAction::Send("0xFFFF*SCOS,LZ,123456789012345,S7,0,3,0,0#\n".to_string())
    );
    flow.sent();
    assert!(!flow.received("*SCOR,LZ,123456789012345,S7,0,2,0,0#\n"));
    assert!(!flow.received("*SCOR,LZ,123456789012345,H0,0,3780,22,78,0#\n"));
    assert_eq!(flow.current_step, SettingStep::WaitForS7Response);
    assert!(flow.received("*SCOR,LZ,123456789012345,S7,0,3,0,0#\n"));
    assert_eq!(flow.current_step, SettingStep::Completed);
    assert_eq!(flow.action(), FlowAction::Finish);
}

#[test]
fn change_gear_refuses_a_gear_above_three() {
    let refused = SettingFlow::change_gear(IMEI.to_string(), 4);
    assert_eq!(refused.unwrap_err(), "Out of range 0, 1, 2, 3");
    assert!(SettingFlow::change_gear(IMEI.to_string(), 0).is_ok());
    assert!(SettingFlow::change_gear(IMEI.to_string(), 255).is_err());
}

#[test]
fn toggle_headlight_sets_only_the_headlight() {
    let on = SettingFlow::toggle_headlight(IMEI.to_string(), true);
    assert_eq!(
        on.action(),
        FlowAction::Send("0xFFFF*SCOS,LZ,123456789012345,S7,2,0,0,0#\n".to_string())
    );
    let mut off = SettingFlow::toggle_headlight(IMEI.to_string(), false);
    assert_eq!(
        off.action(),
        FlowAction::Send("0xFFFF*SCOS,LZ,123456789012345,S7,1,0,0,0#\n".to_string())
    );
    off.sent();
    assert!(!off.echo_received(Err("mismatch".to_string())));
    assert!(off.received("*SCOR,LZ,123456789012345,S7,1,0,0,0#\n"));
    assert!(!off.echo_received(Ok(())));
}

#[test]
fn unknown_imei_is_reported_as_not_found() {
    let registry: Registry<u32> = Registry::new();
    let request = UnlockRequest { imei: "000000000000000".to_string() };
    let outcome = match registry.checkout(&request.imei) {
        Ok(_) => Ok(()),
        Err(message) => Err(AppError::ClientNotFound(message)),
    };
    let (status, body) = unlock_reply(request, outcome);
    assert_eq!(status, 404);
    assert!(!body.success);
    assert!(body.message.contains("not found"));
    assert_eq!(body.message, "Client with IMEI 000000000000000 not found");
    assert_eq!(body.imei, "000000000000000");
}

#[test]
fn replies_report_success_with_their_fixed_messages() {
    let (status, body) = unlock_reply(UnlockRequest { imei: IMEI.to_string() }, Ok(()));
    assert_eq!((status, body.success), (200, true));
    assert_eq!(body.message, "Unlock operation completed successfully");
    assert_eq!(body.imei, IMEI);

    let (status, body) = lock_reply(LockRequest { imei: IMEI.to_string() }, Ok(()));
    assert_eq!((status, body.success), (200, true));
    assert_eq!(body.message, "Lock operation completed successfully");

    let (status, body) =
        change_gear_reply(ChangeGearRequest { imei: IMEI.to_string(), gear: 1 }, Ok(()));
    assert_eq!((status, body.success), (200, true));
    assert_eq!(body.message, "Gear changed");

    let (status, body) = toggle_headlight_reply(
        ToggleHeadlightRequest { imei: IMEI.to_string(), state: true },
        Ok(()),
    );
    assert_eq!((status, body.success), (200, true));
    assert_eq!(body.message, "Headlight toggled successfully");

    let (status, body) = change_headlight_reply(
        ChangeHeadlightRequest { imei: IMEI.to_string(), state: true },
        Ok(()),
    );
    assert_eq!((status, body.success), (200, true));
    assert_eq!(body.message, "Headlight turned on for scooter with IMEI 123456789012345");
    let (_, body) = change_headlight_reply(
        ChangeHeadlightRequest { imei: IMEI.to_string(), state: false },
        Ok(()),
    );
    assert_eq!(body.message, "Headlight turned off for scooter with IMEI 123456789012345");
}

#[test]
fn replies_report_failures_with_their_status() {
    let (status, body) = lock_reply(
        LockRequest { imei: IMEI.to_string() },
        Err(AppError::SocketError("Failed to read response".to_string())),
    );
    assert_eq!(status, 500);
    assert!(!body.success);
    assert_eq!(body.message, "Failed to read response");
    assert_eq!(body.imei, IMEI);

    let request = ChangeGearRequest { imei: IMEI.to_string(), gear: 9 };
    let refused = begin_change_gear(&request).unwrap_err();
    assert_eq!(refused.status_code(), 400);
    let (status, body) = change_gear_reply(request, Err(refused));
    assert_eq!(status, 400);
    assert_eq!(body.message, "Out of range 0, 1, 2, 3");
}

#[test]
fn handlers_begin_the_flow_of_their_request() {
    let unlock = begin_unlock(&UnlockRequest { imei: IMEI.to_string() }, "c".to_string(), 50);
    assert_eq!(
        unlock.action(),
        FlowAction::Send("0xFFFF*SCOS,LZ,123456789012345,R0,0,20,1234,50#\n".to_string())
    );
    assert_eq!(unlock.correlation_id, "c");
    assert_eq!(unlock.user_id, "1234");
    assert_eq!(unlock.timestamp_1, "50");
    assert_eq!(unlock.timestamp_2, "53");
    let lock = begin_lock(&LockRequest { imei: IMEI.to_string() }, -7);
    assert_eq!(
        lock.action(),
        FlowAction::Send("0xFFFF*SCOS,LZ,123456789012345,R0,1,20,1234,-7#\n".to_string())
    );
    assert_eq!(lock.user_id, 1234);
    assert_eq!(lock.timestamp, -7);
    let gear = begin_change_gear(&ChangeGearRequest { imei: IMEI.to_string(), gear: 2 }).unwrap();
    assert_eq!(
        gear.action(),
        FlowAction::Send("0xFFFF*SCOS,LZ,123456789012345,S7,0,2,0,0#\n".to_string())
    );
    let toggle =
        begin_toggle_headlight(&ToggleHeadlightRequest { imei: IMEI.to_string(), state: false });
    assert_eq!(
        toggle.action(),
        FlowAction::Send("0xFFFF*SCOS,LZ,123456789012345,S7,1,0,0,0#\n".to_string())
    );
    let change =
        begin_change_headlight(&ChangeHeadlightRequest { imei: IMEI.to_string(), state: true });
    assert_eq!(
        change.action(),
        FlowAction::Send("0xFFFF*SCOS,LZ,123456789012345,S7,2,0,0,0#\n".to_string())
    );
}

#[test]
fn errors_show_their_kind_and_message() {
    let invalid = AppError::InvalidCommand("gear".to_string());
    let missing = AppError::ClientNotFound("x".to_string());
    let socket = AppError::SocketError("reset".to_string());
    assert_eq!(invalid.to_string(), "Invalid command: gear");
    assert_eq!(missing.to_string(), "Client not found: x");
    assert_eq!(socket.to_string(), "Socket error: reset");
    assert_eq!(invalid.status_code(), 400);
    assert_eq!(missing.status_code(), 404);
    assert_eq!(socket.status_code(), 500);
    assert_eq!(socket.detail(), "reset");
}

#[test]
fn failures_of_an_exchange_are_internal_errors() {
    let (sending, lost) = step_failure(StepEvent::WriteFailed, "0xFFFF*SCOS,LZ,1,L0#\n");
    assert!(lost);
    assert_eq!(sending.status_code(), 500);
    assert_eq!(sending.detail(), "Failed to send command: 0xFFFF*SCOS,LZ,1,L0#\n");
    let (reading, lost) = step_failure(StepEvent::ReadFailed, "");
    assert!(lost);
    assert_eq!(reading.detail(), "Failed to read response");
    assert_eq!(reading.status_code(), 500);
    let (closed, lost) = step_failure(StepEvent::Closed, "ignored");
    assert!(lost);
    assert_eq!(closed.detail(), "Failed to read response");
    let missing = not_found_failure("Client with IMEI 1 not found".to_string());
    assert_eq!(missing.status_code(), 404);
    assert_eq!(missing.detail(), "Client with IMEI 1 not found");
}

#[test]
fn a_timeout_fails_the_workflow_and_keeps_the_session() {
    let (silent, lost) = step_failure(StepEvent::TimedOut, "ignored");
    assert!(!lost);
    assert_eq!(silent.detail(), "Timed out waiting for response");
    assert_eq!(silent.status_code(), 500);
}

#[test]
fn the_second_stamp_stops_at_the_last_second() {
    let late = UnlockFlow::new(IMEI.to_string(), String::new(), "9".to_string(), i64::MAX - 3);
    assert_eq!(late.timestamp_2, i64::MAX.to_string());
    let latest = UnlockFlow::new(IMEI.to_string(), String::new(), "9".to_string(), i64::MAX);
    assert_eq!(latest.timestamp_1, i64::MAX.to_string());
    assert_eq!(latest.timestamp_2, i64::MAX.to_string());
    let early = UnlockFlow::new(IMEI.to_string(), String::new(), "9".to_string(), i64::MIN);
    assert_eq!(early.timestamp_2, (i64::MIN + 3).to_string());
}

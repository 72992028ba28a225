//! The operator workflows as state machines. A workflow says what has to be
//! done next, a frame to send or a frame to wait for, and is told what
//! happened; whoever owns the connection does the sending and the reading.
//! A frame that is not the awaited one leaves the workflow where it is.

use crate::config::KEY_DURATION;
use crate::server::command_enums::SpeedMode;
use crate::server::command_enums::Turn;
use crate::server::commands::frame_text;
use crate::server::commands::generate_l1_ack;
use crate::server::commands::generate_l1_command;
use crate::server::commands::generate_r0_command;
use crate::server::commands::generate_s7_command;
use crate::server::commands::r0_content;
use crate::server::commands::R0Operation;
use crate::server::commands::s7_content;
use crate::server::commands::server_header;
use crate::server::protocol::key_of;
use crate::server::protocol::l1_expectation;
use crate::server::protocol::r0_expectation;
use crate::server::protocol::s7_expectation;
use crate::server::protocol::validate_l1_response;
use crate::server::protocol::validate_r0_response;
use crate::server::protocol::validate_s7_response;
use crate::server::protocol::validation_of;
use crate::text::result_view;
use crate::text::text_result_view;
use vstd::prelude::*;

verus! {

/// What has to be done next for a workflow.
#[derive(Debug, Clone, PartialEq, Eq)]
pub enum FlowAction {
    /// Send this frame, then report it as sent.
    Send(String),
    /// Read one frame and hand it over.
    Receive,
    /// Nothing is left to do: the operation succeeded.
    Finish,
}

/// A [`FlowAction`] with its frame as a sequence of characters.
pub enum FlowActionView {
    Send(Seq<char>),
    Receive,
    Finish,
}

impl View for FlowAction {
    type V = FlowActionView;

    open spec fn view(&self) -> FlowActionView {
        match self {
            FlowAction::Send(frame) => FlowActionView::Send(frame@),
            FlowAction::Receive => FlowActionView::Receive,
            FlowAction::Finish => FlowActionView::Finish,
        }
    }
}

/// Where a lock stands.
#[derive(Debug, Clone, Copy, PartialEq, Eq, Structural)]
pub enum LockStep {
    SendR0,
    WaitForR0Response,
    SendL1,
    WaitForL1Response,
    SendFinalL1,
    Completed,
}

/// One lock of one scooter: ask for a key with `R0`, lock with `L1` and the
/// key, and end with an empty `L1`.
#[derive(Debug)]
pub struct LockFlow {
    pub imei: String,
    pub user_id: u32,
    pub timestamp: i64,
    pub current_step: LockStep,
    /// The key that the scooter issued; empty until it did.
    pub key: String,
}

/// A [`LockFlow`] with its text as sequences of characters.
pub struct LockFlowView {
    pub imei: Seq<char>,
    pub user_id: u32,
    pub timestamp: i64,
    pub current_step: LockStep,
    pub key: Seq<char>,
}

impl View for LockFlow {
    type V = LockFlowView;

    open spec fn view(&self) -> LockFlowView {
        LockFlowView {
            imei: self.imei@,
            user_id: self.user_id,
            timestamp: self.timestamp,
            current_step: self.current_step,
            key: self.key@,
        }
    }
}

impl LockFlowView {
    /// What the step calls for.
    pub open spec fn action(self) -> FlowActionView {
        match self.current_step {
            LockStep::SendR0 => FlowActionView::Send(
                frame_text(
                    server_header(),
                    self.imei,
                    "R0"@,
                    r0_content(R0Operation::Lock, KEY_DURATION, self.user_id, self.timestamp),
                ),
            ),
            LockStep::SendL1 => FlowActionView::Send(
                frame_text(server_header(), self.imei, "L1"@, seq![self.key]),
            ),
            LockStep::SendFinalL1 => FlowActionView::Send(
                frame_text(server_header(), self.imei, "L1"@, Seq::<Seq<char>>::empty()),
            ),
            LockStep::WaitForR0Response | LockStep::WaitForL1Response => FlowActionView::Receive,
            LockStep::Completed => FlowActionView::Finish,
        }
    }

    /// The flow after the frame of a sending step went out. Other steps stay.
    pub open spec fn sent(self) -> LockFlowView {
        LockFlowView {
            current_step: match self.current_step {
                LockStep::SendR0 => LockStep::WaitForR0Response,
                LockStep::SendL1 => LockStep::WaitForL1Response,
                LockStep::SendFinalL1 => LockStep::Completed,
                other => other,
            },
            ..self
        }
    }

    /// The flow after the validator spoke on a frame that came while the
    /// key was awaited: a key moves it on, a refusal leaves it waiting.
    pub open spec fn with_key(self, key: Result<Seq<char>, Seq<char>>) -> LockFlowView {
        match key {
            Ok(text) if self.current_step == LockStep::WaitForR0Response => LockFlowView {
                current_step: LockStep::SendL1,
                key: text,
                ..self
            },
            _ => self,
        }
    }

    /// The flow after the validator spoke on a frame that came while the
    /// confirmation was awaited.
    pub open spec fn with_confirmation(self, verdict: Result<(), Seq<char>>) -> LockFlowView {
        match verdict {
            Ok(_) if self.current_step == LockStep::WaitForL1Response => LockFlowView {
                current_step: LockStep::SendFinalL1,
                ..self
            },
            _ => self,
        }
    }

    /// The flow after `frame` came in. Only a waiting step looks at it, and
    /// only the awaited frame moves the flow on.
    pub open spec fn received(self, frame: Seq<char>) -> LockFlowView {
        match self.current_step {
            LockStep::WaitForR0Response => self.with_key(
                key_of(
                    validation_of(
                        frame,
                        self.imei,
                        "R0"@,
                        r0_expectation(R0Operation::Lock, self.user_id, self.timestamp),
                    ),
                    frame,
                ),
            ),
            LockStep::WaitForL1Response => self.with_confirmation(
                validation_of(frame, self.imei, "L1"@, l1_expectation(self.user_id)),
            ),
            _ => self,
        }
    }
}

impl LockStep {
    /// The place of the step in the order of the workflow.
    pub open spec fn rank(self) -> nat {
        match self {
            LockStep::SendR0 => 0,
            LockStep::WaitForR0Response => 1,
            LockStep::SendL1 => 2,
            LockStep::WaitForL1Response => 3,
            LockStep::SendFinalL1 => 4,
            LockStep::Completed => 5,
        }
    }
}

/// A lock goes through its steps in order, one at a time: a frame that went
/// out ends a sending step, a frame that came in ends at most the waiting
/// step it came in, and nothing else moves the flow. It finishes only
/// behind the step that sends the final acknowledgement.
pub proof fn lemma_lock_moves_forward(flow: LockFlowView, frame: Seq<char>)
    ensures
        flow.action() is Send ==> flow.sent().current_step.rank() == flow.current_step.rank() + 1,
        !(flow.action() is Send) ==> flow.sent() == flow,
        flow.action() is Receive ==> flow.received(frame).current_step.rank()
            == flow.current_step.rank() || flow.received(frame).current_step.rank()
            == flow.current_step.rank() + 1,
        !(flow.action() is Receive) ==> flow.received(frame) == flow,
        flow.action() is Finish <==> flow.current_step == LockStep::Completed,
        flow.sent().current_step == LockStep::Completed ==> flow.current_step
            == LockStep::SendFinalL1 || flow.current_step == LockStep::Completed,
        flow.received(frame).current_step == LockStep::Completed ==> flow.current_step
            == LockStep::Completed,
        flow.received(frame).imei == flow.imei && flow.received(frame).user_id == flow.user_id
            && flow.received(frame).timestamp == flow.timestamp,
{
}

impl LockFlow {
    /// A lock of the scooter `imei`, asked for by `user_id` at `timestamp`.
    pub fn new(imei: String, user_id: u32, timestamp: i64) -> (flow: Self)
        ensures
            flow@ == (LockFlowView {
                imei: imei@,
                user_id,
                timestamp,
                current_step: LockStep::SendR0,
                key: Seq::<char>::empty(),
            }),
    {
        LockFlow { imei, user_id, timestamp, current_step: LockStep::SendR0, key: String::new() }
    }

    /// What has to be done next.
    pub fn action(&self) -> (action: FlowAction)
        ensures
            action@ == self@.action(),
    {
        match self.current_step {
            LockStep::SendR0 => FlowAction::Send(
                generate_r0_command(
                    self.imei.as_str(),
                    &R0Operation::Lock,
                    KEY_DURATION,
                    self.user_id,
                    self.timestamp,
                ),
            ),
            LockStep::SendL1 => FlowAction::Send(
                generate_l1_command(self.imei.as_str(), self.key.as_str()),
            ),
            LockStep::SendFinalL1 => FlowAction::Send(generate_l1_ack(self.imei.as_str())),
            LockStep::WaitForR0Response | LockStep::WaitForL1Response => FlowAction::Receive,
            LockStep::Completed => FlowAction::Finish,
        }
    }

    /// Tells the flow that the frame it asked to send went out.
    pub fn sent(&mut self)
        ensures
            final(self)@ == old(self)@.sent(),
    {
        self.current_step = match self.current_step {
            LockStep::SendR0 => LockStep::WaitForR0Response,
            LockStep::SendL1 => LockStep::WaitForL1Response,
            LockStep::SendFinalL1 => LockStep::Completed,
            other => other,
        };
    }

    /// Takes what the validator said of a frame while the key was awaited.
    /// Tells whether the frame moved the flow on.
    pub fn key_received(&mut self, key: Result<String, String>) -> (advanced: bool)
        ensures
            final(self)@ == old(self)@.with_key(text_result_view(key)),
            advanced == (old(self).current_step == LockStep::WaitForR0Response && key is Ok),
    {
        match key {
            Ok(text) => {
                if self.current_step == LockStep::WaitForR0Response {
                    self.key = text;
                    self.current_step = LockStep::SendL1;
                    true
                } else {
                    false
                }
            },
            Err(_) => false,
        }
    }

    /// Takes what the validator said of a frame while the confirmation was
    /// awaited. Tells whether the frame moved the flow on.
    pub fn confirmation_received(&mut self, verdict: Result<(), String>) -> (advanced: bool)
        ensures
            final(self)@ == old(self)@.with_confirmation(result_view(verdict)),
            advanced == (old(self).current_step == LockStep::WaitForL1Response && verdict is Ok),
    {
        match verdict {
            Ok(_) => {
                if self.current_step == LockStep::WaitForL1Response {
                    self.current_step = LockStep::SendFinalL1;
                    true
                } else {
                    false
                }
            },
            Err(_) => false,
        }
    }

    /// Hands the flow a frame that came from the scooter. Tells whether it
    /// was the awaited one; any other frame is ignored.
    pub fn received(&mut self, frame: &str) -> (advanced: bool)
        ensures
            final(self)@ == old(self)@.received(frame@),
            advanced == (final(self)@.current_step != old(self)@.current_step),
    {
        match self.current_step {
            LockStep::WaitForR0Response => {
                let key = validate_r0_response(
                    frame,
                    self.imei.as_str(),
                    &R0Operation::Lock,
                    self.user_id,
                    self.timestamp,
                );
                self.key_received(key)
            },
            LockStep::WaitForL1Response => {
                let verdict = validate_l1_response(frame, self.imei.as_str(), self.user_id);
                self.confirmation_received(verdict)
            },
            _ => false,
        }
    }
}

/// Where a change of settings stands.
#[derive(Debug, Clone, Copy, PartialEq, Eq, Structural)]
pub enum SettingStep {
    SendS7,
    WaitForS7Response,
    Completed,
}

/// One change of a scooter's settings: send `S7` and wait for the scooter to
/// echo the four settings.
#[derive(Debug)]
pub struct SettingFlow {
    pub imei: String,
    pub headlight: Turn,
    pub speed_mode: SpeedMode,
    pub throttle: Turn,
    pub taillights_flashing: Turn,
    pub current_step: SettingStep,
}

/// A [`SettingFlow`] with its text as a sequence of characters.
pub struct SettingFlowView {
    pub imei: Seq<char>,
    pub headlight: Turn,
    pub speed_mode: SpeedMode,
    pub throttle: Turn,
    pub taillights_flashing: Turn,
    pub current_step: SettingStep,
}

impl View for SettingFlow {
    type V = SettingFlowView;

    open spec fn view(&self) -> SettingFlowView {
        SettingFlowView {
            imei: self.imei@,
            headlight: self.headlight,
            speed_mode: self.speed_mode,
            throttle: self.throttle,
            taillights_flashing: self.taillights_flashing,
            current_step: self.current_step,
        }
    }
}

impl SettingFlowView {
    /// What the step calls for.
    pub open spec fn action(self) -> FlowActionView {
        match self.current_step {
            SettingStep::SendS7 => FlowActionView::Send(
                frame_text(
                    server_header(),
                    self.imei,
                    "S7"@,
                    s7_content(
                        self.headlight.code(),
                        self.speed_mode.code(),
                        self.throttle.code(),
                        self.taillights_flashing.code(),
                    ),
                ),
            ),
            SettingStep::WaitForS7Response => FlowActionView::Receive,
            SettingStep::Completed => FlowActionView::Finish,
        }
    }

    /// The flow after the `S7` frame went out. Other steps stay.
    pub open spec fn sent(self) -> SettingFlowView {
        SettingFlowView {
            current_step: match self.current_step {
                SettingStep::SendS7 => SettingStep::WaitForS7Response,
                other => other,
            },
            ..self
        }
    }

    /// The flow after the validator spoke on a frame that came while the
    /// echo was awaited.
    pub open spec fn with_echo(self, verdict: Result<(), Seq<char>>) -> SettingFlowView {
        match verdict {
            Ok(_) if self.current_step == SettingStep::WaitForS7Response => SettingFlowView {
                current_step: SettingStep::Completed,
                ..self
            },
            _ => self,
        }
    }

    /// The flow after `frame` came in.
    pub open spec fn received(self, frame: Seq<char>) -> SettingFlowView {
        match self.current_step {
            SettingStep::WaitForS7Response => self.with_echo(
                validation_of(
                    frame,
                    self.imei,
                    "S7"@,
                    s7_expectation(
                        self.headlight.code(),
                        self.speed_mode.code(),
                        self.throttle.code(),
                        self.taillights_flashing.code(),
                    ),
                ),
            ),
            _ => self,
        }
    }
}

/// A change of settings sends one frame and waits for its echo: the frame
/// that went out ends the sending step, only a frame that came in can end
/// the waiting step, and the settings that are asked for never change.
pub proof fn lemma_setting_moves_forward(flow: SettingFlowView, frame: Seq<char>)
    ensures
        flow.sent().current_step == (if flow.current_step == SettingStep::SendS7 {
            SettingStep::WaitForS7Response
        } else {
            flow.current_step
        }),
        !(flow.action() is Receive) ==> flow.received(frame) == flow,
        flow.received(frame).current_step == flow.current_step || (flow.current_step
            == SettingStep::WaitForS7Response && flow.received(frame).current_step
            == SettingStep::Completed),
        flow.action() is Finish <==> flow.current_step == SettingStep::Completed,
        flow.received(frame).imei == flow.imei && flow.received(frame).headlight == flow.headlight
            && flow.received(frame).speed_mode == flow.speed_mode && flow.received(frame).throttle
            == flow.throttle && flow.received(frame).taillights_flashing
            == flow.taillights_flashing,
{
}

impl SettingFlow {
    /// A change of the speed mode to the gear `gear`; the other settings
    /// stay as they are. A gear above 3 is refused.
    pub fn change_gear(imei: String, gear: u8) -> (flow: Result<Self, String>)
        ensures
            match flow {
                Ok(flow) => SpeedMode::of_code(gear) is Some && flow@ == (SettingFlowView {
                    imei: imei@,
                    headlight: Turn::DontSet,
                    speed_mode: SpeedMode::of_code(gear)->0,
                    throttle: Turn::DontSet,
                    taillights_flashing: Turn::DontSet,
                    current_step: SettingStep::SendS7,
                }),
                Err(message) => SpeedMode::of_code(gear) is None && message@
                    == "Out of range 0, 1, 2, 3"@,
            },
    {
        match SpeedMode::try_from(gear) {
            Ok(speed_mode) => Ok(
                SettingFlow {
                    imei,
                    headlight: Turn::DontSet,
                    speed_mode,
                    throttle: Turn::DontSet,
                    taillights_flashing: Turn::DontSet,
                    current_step: SettingStep::SendS7,
                },
            ),
            Err(message) => Err(message),
        }
    }

    /// A switch of the headlight, on for `true` and off for `false`; the
    /// other settings stay as they are.
    pub fn toggle_headlight(imei: String, state: bool) -> (flow: Self)
        ensures
            flow@ == (SettingFlowView {
                imei: imei@,
                headlight: if state {
                    Turn::On
                } else {
                    Turn::Off
                },
                speed_mode: SpeedMode::DontSet,
                throttle: Turn::DontSet,
                taillights_flashing: Turn::DontSet,
                current_step: SettingStep::SendS7,
            }),
    {
        SettingFlow {
            imei,
            headlight: if state {
                Turn::On
            } else {
                Turn::Off
            },
            speed_mode: SpeedMode::DontSet,
            throttle: Turn::DontSet,
            taillights_flashing: Turn::DontSet,
            current_step: SettingStep::SendS7,
        }
    }

    /// What has to be done next.
    pub fn action(&self) -> (action: FlowAction)
        ensures
            action@ == self@.action(),
    {
        match self.current_step {
            SettingStep::SendS7 => FlowAction::Send(
                generate_s7_command(
                    self.imei.as_str(),
                    &self.headlight,
                    &self.speed_mode,
                    &self.throttle,
                    &self.taillights_flashing,
                ),
            ),
            SettingStep::WaitForS7Response => FlowAction::Receive,
            SettingStep::Completed => FlowAction::Finish,
        }
    }

    /// Tells the flow that the frame it asked to send went out.
    pub fn sent(&mut self)
        ensures
            final(self)@ == old(self)@.sent(),
    {
        self.current_step = match self.current_step {
            SettingStep::SendS7 => SettingStep::WaitForS7Response,
            other => other,
        };
    }

    /// Takes what the validator said of a frame while the echo was awaited.
    /// Tells whether the frame moved the flow on.
    pub fn echo_received(&mut self, verdict: Result<(), String>) -> (advanced: bool)
        ensures
            final(self)@ == old(self)@.with_echo(result_view(verdict)),
            advanced == (old(self).current_step == SettingStep::WaitForS7Response && verdict is Ok),
    {
        match verdict {
            Ok(_) => {
                if self.current_step == SettingStep::WaitForS7Response {
                    self.current_step = SettingStep::Completed;
                    true
                } else {
                    false
                }
            },
            Err(_) => false,
        }
    }

    /// Hands the flow a frame that came from the scooter. Tells whether it
    /// was the awaited one; any other frame is ignored.
    pub fn received(&mut self, frame: &str) -> (advanced: bool)
        ensures
            final(self)@ == old(self)@.received(frame@),
            advanced == (final(self)@.current_step != old(self)@.current_step),
    {
        match self.current_step {
            SettingStep::WaitForS7Response => {
                let verdict = validate_s7_response(
                    frame,
                    self.imei.as_str(),
                    u8::from(&self.headlight),
                    u8::from(&self.speed_mode),
                    u8::from(&self.throttle),
                    u8::from(&self.taillights_flashing),
                );
                self.echo_received(verdict)
            },
            _ => false,
        }
    }
}

} // verus!

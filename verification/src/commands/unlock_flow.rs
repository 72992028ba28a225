//! The unlock workflow: three rounds that carry a key, issued by the
//! scooter in the first, from the request to the final acknowledgement.

use crate::config::KEY_DURATION;
use crate::decimal::decimal_text;
use crate::decimal::signed_decimal_text;
use crate::decimal::signed_to_string;
use crate::decimal::unsigned_to_string;
use crate::server::commands::frame_text;
use crate::server::commands::generate_command;
use crate::server::commands::server_header;
use crate::server::protocol::digits_fragment;
use crate::server::protocol::extract_key;
use crate::server::protocol::key_of;
use crate::server::protocol::validate_command;
use crate::server::protocol::validation_of;
use crate::server::workflow::FlowAction;
use crate::server::workflow::FlowActionView;
use crate::text::result_view;
use crate::text::text_result_view;
use vstd::prelude::*;

verus! {

/// Where an unlock stands.
#[derive(Debug, Clone, Copy, PartialEq, Eq, Structural)]
pub enum UnlockStep {
    SendR0,
    WaitForR0Response,
    SendL0,
    WaitForL0Response,
    SendFinalL0,
    Completed,
}

/// One unlock of one scooter. The request carries the first timestamp, the
/// unlock itself the second, three seconds later.
#[derive(Debug)]
pub struct UnlockFlow {
    pub imei: String,
    pub correlation_id: String,
    pub current_step: UnlockStep,
    pub key_effective_time: u8,
    pub user_id: String,
    pub timestamp_1: String,
    pub timestamp_2: String,
    /// The key that the scooter issued; empty until it did.
    pub key: String,
}

/// An [`UnlockFlow`] with its text as sequences of characters.
pub struct UnlockFlowView {
    pub imei: Seq<char>,
    pub correlation_id: Seq<char>,
    pub current_step: UnlockStep,
    pub key_effective_time: u8,
    pub user_id: Seq<char>,
    pub timestamp_1: Seq<char>,
    pub timestamp_2: Seq<char>,
    pub key: Seq<char>,
}

impl View for UnlockFlow {
    type V = UnlockFlowView;

    open spec fn view(&self) -> UnlockFlowView {
        UnlockFlowView {
            imei: self.imei@,
            correlation_id: self.correlation_id@,
            current_step: self.current_step,
            key_effective_time: self.key_effective_time,
            user_id: self.user_id@,
            timestamp_1: self.timestamp_1@,
            timestamp_2: self.timestamp_2@,
            key: self.key@,
        }
    }
}

/// The stamp of the second round: three seconds after the first, or the
/// last second that can be written where that is nearer.
pub open spec fn second_stamp(now: i64) -> i64 {
    if now <= i64::MAX - 3 {
        (now + 3) as i64
    } else {
        i64::MAX
    }
}

impl UnlockFlowView {
    /// The flow of an unlock of the scooter `imei` that starts at `now`: it
    /// has the request to send, and no key yet.
    pub open spec fn starting_at(
        imei: Seq<char>,
        correlation_id: Seq<char>,
        user_id: Seq<char>,
        now: i64,
    ) -> UnlockFlowView {
        UnlockFlowView {
            imei,
            correlation_id,
            current_step: UnlockStep::SendR0,
            key_effective_time: KEY_DURATION,
            user_id,
            timestamp_1: signed_decimal_text(now as int),
            timestamp_2: signed_decimal_text(second_stamp(now) as int),
            key: Seq::<char>::empty(),
        }
    }

    /// The content of the `R0` request: unlock, the key's lifetime, who
    /// asks, and the first timestamp.
    pub open spec fn request(self) -> Seq<Seq<char>> {
        seq![
            seq!['0'],
            decimal_text(self.key_effective_time as nat),
            self.user_id,
            self.timestamp_1,
        ]
    }

    /// What the answer to the request has to hold: unlock, a key of one or
    /// more digits, and the user and the timestamp of the request.
    pub open spec fn awaited_key(self) -> Seq<Seq<char>> {
        seq![seq!['0'], digits_fragment(), self.user_id, self.timestamp_1]
    }

    /// The content of the `L0` frame that unlocks: the key, who asks, and
    /// the second timestamp.
    pub open spec fn unlock(self) -> Seq<Seq<char>> {
        seq![self.key, self.user_id, self.timestamp_2]
    }

    /// What the confirmation has to hold: success, and the user and the
    /// timestamp of the unlock.
    pub open spec fn awaited_confirmation(self) -> Seq<Seq<char>> {
        seq![seq!['0'], self.user_id, self.timestamp_2]
    }

    /// What the step calls for.
    pub open spec fn action(self) -> FlowActionView {
        match self.current_step {
            UnlockStep::SendR0 => FlowActionView::Send(
                frame_text(server_header(), self.imei, "R0"@, self.request()),
            ),
            UnlockStep::SendL0 => FlowActionView::Send(
                frame_text(server_header(), self.imei, "L0"@, self.unlock()),
            ),
            UnlockStep::SendFinalL0 => FlowActionView::Send(
                frame_text(server_header(), self.imei, "L0"@, Seq::<Seq<char>>::empty()),
            ),
            UnlockStep::WaitForR0Response | UnlockStep::WaitForL0Response => {
                FlowActionView::Receive
            },
            UnlockStep::Completed => FlowActionView::Finish,
        }
    }

    /// The flow after the frame of a sending step went out. Other steps stay.
    pub open spec fn sent(self) -> UnlockFlowView {
        UnlockFlowView {
            current_step: match self.current_step {
                UnlockStep::SendR0 => UnlockStep::WaitForR0Response,
                UnlockStep::SendL0 => UnlockStep::WaitForL0Response,
                UnlockStep::SendFinalL0 => UnlockStep::Completed,
                other => other,
            },
            ..self
        }
    }

    /// The flow after the validator spoke on a frame that came while the
    /// key was awaited: a key moves it on, a refusal leaves it waiting.
    pub open spec fn with_key(self, key: Result<Seq<char>, Seq<char>>) -> UnlockFlowView {
        match key {
            Ok(text) if self.current_step == UnlockStep::WaitForR0Response => UnlockFlowView {
                current_step: UnlockStep::SendL0,
                key: text,
                ..self
            },
            _ => self,
        }
    }

    /// The flow after the validator spoke on a frame that came while the
    /// confirmation was awaited.
    pub open spec fn with_confirmation(self, verdict: Result<(), Seq<char>>) -> UnlockFlowView {
        match verdict {
            Ok(_) if self.current_step == UnlockStep::WaitForL0Response => UnlockFlowView {
                current_step: UnlockStep::SendFinalL0,
                ..self
            },
            _ => self,
        }
    }

    /// The flow after `frame` came in. Only a waiting step looks at it, and
    /// only the awaited frame moves the flow on.
    pub open spec fn received(self, frame: Seq<char>) -> UnlockFlowView {
        match self.current_step {
            UnlockStep::WaitForR0Response => self.with_key(
                key_of(validation_of(frame, self.imei, "R0"@, self.awaited_key()), frame),
            ),
            UnlockStep::WaitForL0Response => self.with_confirmation(
                validation_of(frame, self.imei, "L0"@, self.awaited_confirmation()),
            ),
            _ => self,
        }
    }
}

impl UnlockStep {
    /// The place of the step in the order of the workflow.
    pub open spec fn rank(self) -> nat {
        match self {
            UnlockStep::SendR0 => 0,
            UnlockStep::WaitForR0Response => 1,
            UnlockStep::SendL0 => 2,
            UnlockStep::WaitForL0Response => 3,
            UnlockStep::SendFinalL0 => 4,
            UnlockStep::Completed => 5,
        }
    }
}

/// An unlock goes through its steps in order, one at a time: a frame that
/// went out ends a sending step, a frame that came in ends at most the
/// waiting step it came in, and nothing else moves the flow. It finishes
/// only behind the step that sends the final acknowledgement, and whom it
/// is for and what it stamps never change.
pub proof fn lemma_unlock_moves_forward(flow: UnlockFlowView, frame: Seq<char>)
    ensures
        flow.action() is Send ==> flow.sent().current_step.rank() == flow.current_step.rank() + 1,
        !(flow.action() is Send) ==> flow.sent() == flow,
        flow.action() is Receive ==> flow.received(frame).current_step.rank()
            == flow.current_step.rank() || flow.received(frame).current_step.rank()
            == flow.current_step.rank() + 1,
        !(flow.action() is Receive) ==> flow.received(frame) == flow,
        flow.action() is Finish <==> flow.current_step == UnlockStep::Completed,
        flow.sent().current_step == UnlockStep::Completed ==> flow.current_step
            == UnlockStep::SendFinalL0 || flow.current_step == UnlockStep::Completed,
        flow.received(frame).current_step == UnlockStep::Completed ==> flow.current_step
            == UnlockStep::Completed,
        flow.received(frame).imei == flow.imei && flow.received(frame).user_id == flow.user_id
            && flow.received(frame).timestamp_1 == flow.timestamp_1 && flow.received(
            frame,
        ).timestamp_2 == flow.timestamp_2,
{
}

impl UnlockFlow {
    /// An unlock of the scooter `imei` that starts at `now`, the reading of
    /// the clock in Unix seconds. Both rounds are stamped from that one
    /// reading.
    pub fn new(imei: String, correlation_id: String, user_id: String, now: i64) -> (flow: Self)
        ensures
            flow@ == UnlockFlowView::starting_at(imei@, correlation_id@, user_id@, now),
    {
        let later: i64 = if now <= i64::MAX - 3 {
            now + 3
        } else {
            i64::MAX
        };
        UnlockFlow {
            imei,
            correlation_id,
            current_step: UnlockStep::SendR0,
            key_effective_time: KEY_DURATION,
            user_id,
            timestamp_1: signed_to_string(now),
            timestamp_2: signed_to_string(later),
            key: String::new(),
        }
    }

    /// What has to be done next.
    pub fn action(&self) -> (action: FlowAction)
        ensures
            action@ == self@.action(),
    {
        proof {
            reveal_strlit("0");
        }
        assert("0"@ =~= seq!['0']);
        match self.current_step {
            UnlockStep::SendR0 => {
                let lifetime = unsigned_to_string(self.key_effective_time as u64);
                let mut content: Vec<&str> = Vec::new();
                content.push("0");
                content.push(lifetime.as_str());
                content.push(self.user_id.as_str());
                content.push(self.timestamp_1.as_str());
                assert(content.deep_view() =~= self@.request());
                let fields = content.as_slice();
                FlowAction::Send(generate_command(self.imei.as_str(), "R0", fields))
            },
            UnlockStep::SendL0 => {
                let mut content: Vec<&str> = Vec::new();
                content.push(self.key.as_str());
                content.push(self.user_id.as_str());
                content.push(self.timestamp_2.as_str());
                assert(content.deep_view() =~= self@.unlock());
                let fields = content.as_slice();
                FlowAction::Send(generate_command(self.imei.as_str(), "L0", fields))
            },
            UnlockStep::SendFinalL0 => {
                let content: Vec<&str> = Vec::new();
                let fields = content.as_slice();
                FlowAction::Send(generate_command(self.imei.as_str(), "L0", fields))
            },
            UnlockStep::WaitForR0Response | UnlockStep::WaitForL0Response => FlowAction::Receive,
            UnlockStep::Completed => FlowAction::Finish,
        }
    }

    /// Tells the flow that the frame it asked to send went out.
    pub fn sent(&mut self)
        ensures
            final(self)@ == old(self)@.sent(),
    {
        self.current_step = match self.current_step {
            UnlockStep::SendR0 => UnlockStep::WaitForR0Response,
            UnlockStep::SendL0 => UnlockStep::WaitForL0Response,
            UnlockStep::SendFinalL0 => UnlockStep::Completed,
            other => other,
        };
    }

    /// Takes what the validator said of a frame while the key was awaited.
    /// Tells whether the frame moved the flow on.
    pub fn key_received(&mut self, key: Result<String, String>) -> (advanced: bool)
        ensures
            final(self)@ == old(self)@.with_key(text_result_view(key)),
            advanced == (old(self).current_step == UnlockStep::WaitForR0Response && key is Ok),
    {
        match key {
            Ok(text) => {
                if self.current_step == UnlockStep::WaitForR0Response {
                    self.key = text;
                    self.current_step = UnlockStep::SendL0;
                    true
                } else {
                    false
                }
            },
            Err(_) => false,
        }
    }

    /// Takes what the validator said of a frame while the confirmation was
    /// awaited. Tells whether the frame moved the flow on.
    pub fn confirmation_received(&mut self, verdict: Result<(), String>) -> (advanced: bool)
        ensures
            final(self)@ == old(self)@.with_confirmation(result_view(verdict)),
            advanced == (old(self).current_step == UnlockStep::WaitForL0Response && verdict is Ok),
    {
        match verdict {
            Ok(_) => {
                if self.current_step == UnlockStep::WaitForL0Response {
                    self.current_step = UnlockStep::SendFinalL0;
                    true
                } else {
                    false
                }
            },
            Err(_) => false,
        }
    }

    /// Hands the flow a frame that came from the scooter. Tells whether it
    /// was the awaited one; any other frame is ignored.
    pub fn received(&mut self, frame: &str) -> (advanced: bool)
        ensures
            final(self)@ == old(self)@.received(frame@),
            advanced == (final(self)@.current_step != old(self)@.current_step),
    {
        proof {
            reveal_strlit("0");
            reveal_strlit("\\d+");
        }
        assert("0"@ =~= seq!['0']);
        assert("\\d+"@ =~= digits_fragment());
        match self.current_step {
            UnlockStep::WaitForR0Response => {
                let mut content: Vec<&str> = Vec::new();
                content.push("0");
                content.push("\\d+");
                content.push(self.user_id.as_str());
                content.push(self.timestamp_1.as_str());
                assert(content.deep_view() =~= self@.awaited_key());
                let expected = content.as_slice();
                let verdict = validate_command(frame, self.imei.as_str(), "R0", expected);
                let key = extract_key(verdict, frame);
                self.key_received(key)
            },
            UnlockStep::WaitForL0Response => {
                let mut content: Vec<&str> = Vec::new();
                content.push("0");
                content.push(self.user_id.as_str());
                content.push(self.timestamp_2.as_str());
                assert(content.deep_view() =~= self@.awaited_confirmation());
                let expected = content.as_slice();
                let verdict = validate_command(frame, self.imei.as_str(), "L0", expected);
                self.confirmation_received(verdict)
            },
            _ => false,
        }
    }
}

} // verus!

//! The wire protocol's decisions: what to send, and what each answer leads to.
//! The caller owns the connection: it sends the frames handed out here, in
//! order, and hands back each inbound frame (`None` when no text frame came).
use vstd::prelude::*;
use crate::json::{json_member_text, json_member_text_of};
use crate::router::HOIActionData;
use crate::state::{identity_descriptor, super_tier_names, MainState};
use crate::text::{names_of, occurs, occurs_in, opt_text};

verus! {

/// Returned when the first answer of an exchange is missing or not text.
pub const EXECUTION_FAILED: &'static str = "Issue With Execution";

/// Returned when the answer after an escalation is missing or not text.
pub const GATHER_FAILED: &'static str = "Issue During Message Gather";

/// The status text of an answer signals escalation when it holds `needs-admin-auth`.
pub open spec fn status_signals(status: Option<Seq<char>>) -> bool {
    match status {
        Some(t) => occurs_in("needs-admin-auth"@, t),
        None => false,
    }
}

/// An answer asks for escalation when it is a JSON document whose `status`
/// member, rendered as JSON, holds `needs-admin-auth`.
pub open spec fn needs_escalation(response: Seq<char>) -> bool {
    status_signals(json_member_text_of(response, "status"@))
}

/// The three handshake frames: regular password, identity descriptor, display name.
pub open spec fn handshake_of(state: &MainState) -> Seq<Seq<char>> {
    seq![state.regular_password@, identity_descriptor(state.name@), state.outside_name@]
}

/// The frames that open an exchange: the operation code, then the payload if any.
pub open spec fn request_frames_of(op_code: Seq<char>, payload: Option<Seq<char>>) -> Seq<Seq<char>> {
    match payload {
        Some(p) => seq![op_code, p],
        None => seq![op_code],
    }
}

/// Where an exchange stands.
#[derive(PartialEq, Eq, Structural, Clone, Copy, Debug)]
pub enum ExchangePhase {
    /// The request is out; its first answer is awaited.
    AwaitingFirst,
    /// The escalation password is out; the final answer is awaited.
    AwaitingFinal,
    /// The result has been handed out.
    Finished,
}

/// What to do after an answer.
#[derive(Clone, Debug)]
pub enum ExchangeStep {
    /// Send this password, then hand back the next answer.
    Escalate(String),
    /// The exchange is over; this is its result.
    Complete(String),
}

/// A step as character sequences.
pub enum StepView {
    Escalate(Seq<char>),
    Complete(Seq<char>),
}

impl ExchangeStep {
    pub open spec fn view(&self) -> StepView {
        match self {
            ExchangeStep::Escalate(p) => StepView::Escalate(p@),
            ExchangeStep::Complete(t) => StepView::Complete(t@),
        }
    }
}

/// One request in flight: the operation code it was opened with and where it stands.
pub struct Exchange {
    pub op_code: String,
    pub phase: ExchangePhase,
}

/// The next phase and step of an exchange of `op_code` in `phase`, on `reply`.
pub open spec fn transition(
    state: &MainState,
    op_code: Seq<char>,
    phase: ExchangePhase,
    reply: Option<Seq<char>>,
) -> (ExchangePhase, StepView) {
    match phase {
        ExchangePhase::AwaitingFirst => match reply {
            None => (ExchangePhase::Finished, StepView::Complete(EXECUTION_FAILED@)),
            Some(t) => if needs_escalation(t) {
                (ExchangePhase::AwaitingFinal, StepView::Escalate(state.escalation_password_of(op_code)))
            } else {
                (ExchangePhase::Finished, StepView::Complete(t))
            },
        },
        _ => match reply {
            None => (ExchangePhase::Finished, StepView::Complete(GATHER_FAILED@)),
            Some(t) => (ExchangePhase::Finished, StepView::Complete(t)),
        },
    }
}

/// The frames of the handshake, in the order they must be sent.
pub fn handshake_frames(state: &MainState) -> (r: Vec<String>)
    ensures
        names_of(r@) == handshake_of(state),
{
    let r = vec![state.regular_password.clone(), state.name_and_type(), state.outside_name.clone()];
    assert(names_of(r@) =~= handshake_of(state));
    r
}

/// The handshake's outcome: authenticated exactly when all three frames went
/// out and the single answer is the text `success`.
pub fn authenticate(frames_sent: bool, reply: &Option<String>) -> (r: bool)
    ensures
        r == (frames_sent && opt_text(*reply) == Some("success"@)),
{
    if !frames_sent {
        return false;
    }
    match reply {
        Some(t) => crate::text::same_text(t.as_str(), "success"),
        None => false,
    }
}

/// Whether a `status` member, as rendered JSON text, signals escalation.
pub fn status_signals_escalation(status: &Option<String>) -> (r: bool)
    ensures
        r == status_signals(opt_text(*status)),
{
    match status {
        Some(t) => occurs("needs-admin-auth", t.as_str()),
        None => false,
    }
}

/// Whether the answer `response` asks for an escalation password.
pub fn requires_admin_auth(response: &str) -> (r: bool)
    ensures
        r == needs_escalation(response@),
{
    let status = json_member_text(response, "status");
    status_signals_escalation(&status)
}

/// The frames of the bot-control sub-protocol: its operation code, the action,
/// then the target bot. No answer is read for them.
pub fn execute_action(action_data: &HOIActionData) -> (r: Vec<String>)
    ensures
        names_of(r@) == seq!["bot_control"@, action_data.action@, action_data.bot_name@],
{
    let r = vec!["bot_control".to_owned(), action_data.action.clone(), action_data.bot_name.clone()];
    assert(names_of(r@) =~= seq!["bot_control"@, action_data.action@, action_data.bot_name@]);
    r
}

/// Opens an exchange: the frames to send (operation code, then payload if
/// any) and the exchange, awaiting its first answer.
pub fn execute_request(op_code: String, payload: Option<String>) -> (r: (Exchange, Vec<String>))
    ensures
        r.0.op_code == op_code,
        r.0.phase == ExchangePhase::AwaitingFirst,
        names_of(r.1@) == request_frames_of(op_code@, opt_text(payload)),
{
    let mut frames: Vec<String> = vec![op_code.clone()];
    match payload {
        Some(p) => {
            frames.push(p);
        },
        None => {},
    }
    assert(names_of(frames@) =~= request_frames_of(op_code@, opt_text(payload)));
    (Exchange { op_code, phase: ExchangePhase::AwaitingFirst }, frames)
}

impl Exchange {
    /// Takes the next answer (`None` when no text frame came) and says what to
    /// do: escalate once, on the first answer only, or complete.
    pub fn on_reply(&mut self, state: &MainState, reply: Option<String>) -> (r: ExchangeStep)
        requires
            old(self).phase != ExchangePhase::Finished,
        ensures
            final(self).op_code == old(self).op_code,
            (final(self).phase, r.view())
                == transition(state, old(self).op_code@, old(self).phase, opt_text(reply)),
    {
        match self.phase {
            ExchangePhase::AwaitingFirst => match reply {
                None => {
                    self.phase = ExchangePhase::Finished;
                    ExchangeStep::Complete(EXECUTION_FAILED.to_owned())
                },
                Some(t) => {
                    if requires_admin_auth(t.as_str()) {
                        self.phase = ExchangePhase::AwaitingFinal;
                        ExchangeStep::Escalate(state.escalation_password(self.op_code.as_str()))
                    } else {
                        self.phase = ExchangePhase::Finished;
                        ExchangeStep::Complete(t)
                    }
                },
            },
            _ => {
                self.phase = ExchangePhase::Finished;
                match reply {
                    None => ExchangeStep::Complete(GATHER_FAILED.to_owned()),
                    Some(t) => ExchangeStep::Complete(t),
                }
            },
        }
    }
}

/// The escalation password depends on the operation code that the exchange was
/// opened with and on the fixed super tier alone: the super-admin password for a
/// code of that tier, the admin password for any other.
pub proof fn lemma_escalation_password_choice(state: &MainState, op_code: Seq<char>)
    requires
        state.wf(),
    ensures
        super_tier_names().contains(op_code)
            ==> state.escalation_password_of(op_code) == state.super_admin_password@,
        !super_tier_names().contains(op_code)
            ==> state.escalation_password_of(op_code) == state.admin_password@,
{
}

/// An exchange escalates at most once: whatever the first two answers hold,
/// the exchange is finished after them, and the second one completes it.
pub proof fn lemma_single_escalation(
    state: &MainState,
    op_code: Seq<char>,
    first: Option<Seq<char>>,
    second: Option<Seq<char>>,
)
    ensures
        ({
            let (phase, _) = transition(state, op_code, ExchangePhase::AwaitingFirst, first);
            phase != ExchangePhase::Finished ==> {
                &&& phase == ExchangePhase::AwaitingFinal
                &&& transition(state, op_code, phase, second).0 == ExchangePhase::Finished
                &&& transition(state, op_code, phase, second).1 is Complete
            }
        }),
{
}

} // verus!

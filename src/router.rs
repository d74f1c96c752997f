//! From one input line to the request that it asks for.
use vstd::prelude::*;
use crate::json::{json_member_str, json_member_str_of};
use crate::protocol::request_frames_of;
use crate::state::{accepted_names, payload_names, MainState};
use crate::text::{contains_name, names_of, opt_text, same_text, split_tokens, tokens};

verus! {

/// How a response is shown: re-rendered when it is JSON, or verbatim.
#[derive(PartialEq, Eq, Structural, Clone, Copy, Debug)]
pub enum OutputStyle {
    Pretty,
    Raw,
}

/// One routed input line: the command name, its payload, and how to show the answer.
#[derive(Clone, Debug)]
pub struct Command {
    pub name: String,
    pub payload: Option<String>,
    pub style: OutputStyle,
}

/// A bot-control action: which bot, and what it should do.
#[derive(Clone, Debug)]
pub struct HOIActionData {
    pub bot_name: String,
    pub action: String,
}

/// What a routed command asks of the connection.
#[derive(Clone, Debug)]
pub enum Request {
    /// The bot-control sub-protocol, sent without waiting for an answer.
    Control(HOIActionData),
    /// One request/response exchange.
    Exchange { op_code: String, payload: Option<String> },
}

/// A line is routed when it has one to three tokens and names an accepted command.
pub open spec fn routable(state: &MainState, toks: Seq<Seq<char>>) -> bool {
    1 <= toks.len() <= 3 && names_of(state.accepted_commands@).contains(toks[0])
}

/// Raw exactly when a third token reads `raw`.
pub open spec fn style_of(toks: Seq<Seq<char>>) -> OutputStyle {
    if toks.len() == 3 && toks[2] == "raw"@ {
        OutputStyle::Raw
    } else {
        OutputStyle::Pretty
    }
}

/// The second token, for a payload-bearing command given exactly two tokens.
pub open spec fn payload_of(state: &MainState, toks: Seq<Seq<char>>) -> Option<Seq<char>> {
    if toks.len() == 2 && names_of(state.commands_that_requires_data@).contains(toks[0]) {
        Some(toks[1])
    } else {
        None
    }
}

/// The wire operation code of a command name.
pub open spec fn op_code_of(name: Seq<char>) -> Seq<char> {
    if name == "control"@ {
        "bot_control"@
    } else if name == "devices"@ {
        "servers_devices"@
    } else if name == "deactivated"@ {
        "servers_deactivated_bots"@
    } else if name == "banned"@ {
        "servers_banned_ips"@
    } else if name == "external_controller"@ {
        "external_controller_request"@
    } else if name == "remove-banned"@ {
        "remove-banned-ip"@
    } else if name == "add-banned"@ {
        "add-banned-ip"@
    } else {
        name
    }
}

/// The action record that a control payload decodes to, if it does.
pub open spec fn action_of(payload: Seq<char>) -> Option<(Seq<char>, Seq<char>)> {
    match (json_member_str_of(payload, "bot_name"@), json_member_str_of(payload, "action"@)) {
        (Some(bot), Some(act)) => Some((bot, act)),
        _ => None,
    }
}

/// Splits `line` into tokens and routes it: `None` unless it holds one to three
/// tokens of which the first is an accepted command.
pub fn route(state: &MainState, line: &str) -> (r: Option<Command>)
    ensures
        r is Some <==> routable(state, tokens(line@)),
        r matches Some(c) ==> {
            &&& c.name@ == tokens(line@)[0]
            &&& opt_text(c.payload) == payload_of(state, tokens(line@))
            &&& c.style == style_of(tokens(line@))
        },
{
    let toks = split_tokens(line);
    proof {
        assert(names_of(toks@).len() == toks@.len());
    }
    if toks.len() == 0 || toks.len() > 3 {
        return None;
    }
    if !contains_name(&state.accepted_commands, toks[0].as_str()) {
        return None;
    }
    let style = if toks.len() == 3 && same_text(toks[2].as_str(), "raw") {
        OutputStyle::Raw
    } else {
        OutputStyle::Pretty
    };
    let payload = if toks.len() == 2
        && contains_name(&state.commands_that_requires_data, toks[0].as_str()) {
        Some(toks[1].clone())
    } else {
        None
    };
    Some(Command { name: toks[0].clone(), payload, style })
}

/// The wire operation code of a command name: aliases map to their code, any
/// other name is its own code.
pub fn command_to_op_code(code: &str) -> (r: String)
    ensures
        r@ == op_code_of(code@),
{
    if same_text(code, "control") {
        "bot_control".to_owned()
    } else if same_text(code, "devices") {
        "servers_devices".to_owned()
    } else if same_text(code, "deactivated") {
        "servers_deactivated_bots".to_owned()
    } else if same_text(code, "banned") {
        "servers_banned_ips".to_owned()
    } else if same_text(code, "external_controller") {
        "external_controller_request".to_owned()
    } else if same_text(code, "remove-banned") {
        "remove-banned-ip".to_owned()
    } else if same_text(code, "add-banned") {
        "add-banned-ip".to_owned()
    } else {
        code.to_owned()
    }
}

/// Decodes a control payload: a JSON object with string members `bot_name`
/// and `action`.
pub fn decode_action(payload: &str) -> (r: Option<HOIActionData>)
    ensures
        r is Some <==> action_of(payload@) is Some,
        r matches Some(a) ==> action_of(payload@) == Some((a.bot_name@, a.action@)),
{
    let bot_name = json_member_str(payload, "bot_name");
    let action = json_member_str(payload, "action");
    match (bot_name, action) {
        (Some(bot_name), Some(action)) => Some(HOIActionData { bot_name, action }),
        _ => None,
    }
}

/// What a routed command asks for. A `control` command runs the bot-control
/// sub-protocol when its payload decodes to an action record and is dropped
/// (`None`) otherwise; every other command is an exchange of its operation code
/// and payload.
pub fn command_to_functionality(cmd: &Command) -> (r: Option<Request>)
    ensures
        cmd.name@ == "control"@ ==> match cmd.payload {
            Some(p) => match r {
                Some(Request::Control(a)) => action_of(p@) == Some((a.bot_name@, a.action@)),
                Some(Request::Exchange { .. }) => false,
                None => action_of(p@) is None,
            },
            None => r is None,
        },
        cmd.name@ != "control"@ ==> match r {
            Some(Request::Exchange { op_code, payload }) => {
                &&& op_code@ == op_code_of(cmd.name@)
                &&& opt_text(payload) == opt_text(cmd.payload)
            },
            _ => false,
        },
{
    if same_text(cmd.name.as_str(), "control") {
        match &cmd.payload {
            Some(p) => match decode_action(p.as_str()) {
                Some(a) => Some(Request::Control(a)),
                None => None,
            },
            None => None,
        }
    } else {
        let op_code = command_to_op_code(cmd.name.as_str());
        Some(Request::Exchange { op_code, payload: cmd.payload.clone() })
    }
}

/// A line with no tokens, more than three, or an unknown first token is not
/// routed.
pub proof fn lemma_unroutable_lines(state: &MainState, line: Seq<char>)
    requires
        state.wf(),
        tokens(line).len() == 0 || tokens(line).len() > 3
            || !accepted_names().contains(tokens(line)[0]),
    ensures
        !routable(state, tokens(line)),
{
}

/// A payload-bearing command other than `control`, given exactly two tokens,
/// carries the second token character for character, and the exchange it opens
/// sends that token right after the operation code.
pub proof fn lemma_payload_is_second_token(state: &MainState, line: Seq<char>)
    requires
        state.wf(),
        tokens(line).len() == 2,
        payload_names().contains(tokens(line)[0]),
    ensures
        payload_of(state, tokens(line)) == Some(tokens(line)[1]),
        request_frames_of(op_code_of(tokens(line)[0]), payload_of(state, tokens(line)))
            == seq![op_code_of(tokens(line)[0]), tokens(line)[1]],
{
}

} // verus!

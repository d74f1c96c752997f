use hoi_client::{
    authenticate, command_to_functionality, command_to_op_code, decode_action, execute_action,
    execute_request, format_final_result, handshake_frames, log_current_connection_status,
    log_custom_green, requires_admin_auth, route, status_signals_escalation, Command,
    ExchangePhase, ExchangeStep, MainState, OutputStyle, Request, EXECUTION_FAILED, GATHER_FAILED,
};

fn session() -> MainState {
    MainState::new(
        "admin-pw".to_owned(),
        "regular-pw".to_owned(),
        "super-pw".to_owned(),
        "alice".to_owned(),
        "Outside".to_owned(),
        "ws://127.0.0.1:9000".to_owned(),
    )
}

fn exchange_of(state: &MainState, line: &str) -> (String, Option<String>) {
    let cmd = route(state, line).expect("routed");
    match command_to_functionality(&cmd) {
        Some(Request::Exchange { op_code, payload }) => (op_code, payload),
        other => panic!("not an exchange: {:?}", other),
    }
}

#[test]
fn devices_maps_to_servers_devices_and_returns_reply() {
    let state = session();
    let (op, payload) = exchange_of(&state, "devices");
    assert_eq!(op, "servers_devices");
    assert_eq!(payload, None);
    let (mut ex, frames) = execute_request(op, payload);
    assert_eq!(frames, vec!["servers_devices".to_owned()]);
    let step = ex.on_reply(&state, Some("[\"bot-1\"]".to_owned()));
    assert!(matches!(step, ExchangeStep::Complete(ref t) if t == "[\"bot-1\"]"));
    assert_eq!(ex.phase, ExchangePhase::Finished);
}

#[test]
fn add_task_escalates_with_super_admin_password() {
    let state = session();
    let (op, payload) = exchange_of(&state, "add-task payload123");
    assert_eq!(op, "add-task");
    assert_eq!(payload, Some("payload123".to_owned()));
    let (mut ex, frames) = execute_request(op, payload);
    assert_eq!(frames, vec!["add-task".to_owned(), "payload123".to_owned()]);
    let step = ex.on_reply(&state, Some("{\"status\":\"needs-admin-auth\"}".to_owned()));
    assert!(matches!(step, ExchangeStep::Escalate(ref p) if p == "super-pw"));
    assert_eq!(ex.phase, ExchangePhase::AwaitingFinal);
    let step = ex.on_reply(&state, Some("{\"status\":\"task added\"}".to_owned()));
    assert!(matches!(step, ExchangeStep::Complete(ref t) if t == "{\"status\":\"task added\"}"));
    assert_eq!(ex.phase, ExchangePhase::Finished);
}

#[test]
fn other_commands_escalate_with_admin_password() {
    let state = session();
    let (op, payload) = exchange_of(&state, "server_config");
    let (mut ex, _) = execute_request(op, payload);
    let step = ex.on_reply(&state, Some("{\"status\":\"needs-admin-auth\"}".to_owned()));
    assert!(matches!(step, ExchangeStep::Escalate(ref p) if p == "admin-pw"));
}

#[test]
fn aliased_super_tier_command_uses_wire_code() {
    let state = session();
    // The payload table lists the wire code, not the alias: no payload here.
    let (op, payload) = exchange_of(&state, "add-banned 10.0.0.1");
    assert_eq!(op, "add-banned-ip");
    assert_eq!(payload, None);
    let (mut ex, _) = execute_request(op, payload);
    let step = ex.on_reply(&state, Some("{\"status\":\"needs-admin-auth\"}".to_owned()));
    assert!(matches!(step, ExchangeStep::Escalate(ref p) if p == "super-pw"));
}

#[test]
fn escalation_happens_at_most_once() {
    let state = session();
    let (mut ex, _) = execute_request("add-task".to_owned(), Some("t".to_owned()));
    let signal = "{\"status\":\"needs-admin-auth\"}".to_owned();
    assert!(matches!(ex.on_reply(&state, Some(signal.clone())), ExchangeStep::Escalate(_)));
    let step = ex.on_reply(&state, Some(signal.clone()));
    assert!(matches!(step, ExchangeStep::Complete(ref t) if *t == signal));
    assert_eq!(ex.phase, ExchangePhase::Finished);
}

#[test]
fn missing_answers_give_sentinels() {
    let state = session();
    let (mut ex, _) = execute_request("contacts".to_owned(), None);
    assert!(matches!(ex.on_reply(&state, None), ExchangeStep::Complete(ref t) if t == EXECUTION_FAILED));
    let (mut ex, _) = execute_request("contacts".to_owned(), None);
    let signal = "{\"status\":\"needs-admin-auth\"}".to_owned();
    assert!(matches!(ex.on_reply(&state, Some(signal)), ExchangeStep::Escalate(_)));
    assert!(matches!(ex.on_reply(&state, None), ExchangeStep::Complete(ref t) if t == GATHER_FAILED));
    assert_eq!(EXECUTION_FAILED, "Issue With Execution");
    assert_eq!(GATHER_FAILED, "Issue During Message Gather");
}

#[test]
fn handshake_rejected_unless_success() {
    assert!(!authenticate(true, &Some("denied".to_owned())));
    assert!(!authenticate(true, &None));
    assert!(!authenticate(false, &Some("success".to_owned())));
    assert!(!authenticate(true, &Some("success ".to_owned())));
    assert!(authenticate(true, &Some("success".to_owned())));
}

#[test]
fn handshake_frames_in_order() {
    let state = session();
    let frames = handshake_frames(&state);
    assert_eq!(
        frames,
        vec![
            "regular-pw".to_owned(),
            "{\"name\":\"alice\",\"type\":\"non-bot\"}".to_owned(),
            "Outside".to_owned(),
        ]
    );
}

#[test]
fn identity_descriptor_escapes_name() {
    let state = MainState::new(
        String::new(),
        String::new(),
        String::new(),
        "a\"b".to_owned(),
        String::new(),
        String::new(),
    );
    assert_eq!(state.name_and_type(), "{\"name\":\"a\\\"b\",\"type\":\"non-bot\"}");
}

#[test]
fn control_decodes_and_emits_three_frames() {
    let state = session();
    let cmd = route(&state, "control {\"bot_name\":\"x\",\"action\":\"stop\"}").expect("routed");
    match command_to_functionality(&cmd) {
        Some(Request::Control(action)) => {
            assert_eq!(action.bot_name, "x");
            assert_eq!(action.action, "stop");
            assert_eq!(
                execute_action(&action),
                vec!["bot_control".to_owned(), "stop".to_owned(), "x".to_owned()]
            );
        }
        other => panic!("not a control request: {:?}", other),
    }
}

#[test]
fn control_with_bad_payload_is_dropped() {
    let state = session();
    let cmd = route(&state, "control not-json").expect("routed");
    assert!(command_to_functionality(&cmd).is_none());
    let cmd = route(&state, "control {\"bot_name\":\"x\"}").expect("routed");
    assert!(command_to_functionality(&cmd).is_none());
    let cmd = route(&state, "control").expect("routed");
    assert!(command_to_functionality(&cmd).is_none());
}

#[test]
fn decode_action_needs_string_members() {
    assert!(decode_action("{\"bot_name\":1,\"action\":\"stop\"}").is_none());
    let a = decode_action("{\"action\":\"go\",\"bot_name\":\"b7\",\"extra\":true}").expect("decoded");
    assert_eq!(a.bot_name, "b7");
    assert_eq!(a.action, "go");
}

#[test]
fn route_rejects_bad_token_counts_and_unknown_names() {
    let state = session();
    assert!(route(&state, "").is_none());
    assert!(route(&state, "   ").is_none());
    assert!(route(&state, "devices a b c").is_none());
    assert!(route(&state, "reboot").is_none());
    assert!(route(&state, "add-banned-ip 1.2.3.4").is_none());
}

#[test]
fn route_reads_style_and_payload() {
    let state = session();
    let c = route(&state, "devices x raw").expect("routed");
    assert_eq!(c.name, "devices");
    assert_eq!(c.payload, None);
    assert_eq!(c.style, OutputStyle::Raw);
    let c = route(&state, "devices x pretty").expect("routed");
    assert_eq!(c.style, OutputStyle::Pretty);
    let c = route(&state, "devices x").expect("routed");
    assert_eq!(c.payload, None);
    assert_eq!(c.style, OutputStyle::Pretty);
    let c = route(&state, "add-task {\"a\":\"b\"} raw").expect("routed");
    assert_eq!(c.payload, None);
    assert_eq!(c.style, OutputStyle::Raw);
}

#[test]
fn payload_is_second_token_verbatim() {
    let state = session();
    let c = route(&state, "  custom_type_add \t{\"k\":\"\\u00e9\"}\n").expect("routed");
    assert_eq!(c.name, "custom_type_add");
    assert_eq!(c.payload, Some("{\"k\":\"\\u00e9\"}".to_owned()));
}

#[test]
fn op_codes_of_aliases_and_plain_names() {
    assert_eq!(command_to_op_code("control"), "bot_control");
    assert_eq!(command_to_op_code("devices"), "servers_devices");
    assert_eq!(command_to_op_code("deactivated"), "servers_deactivated_bots");
    assert_eq!(command_to_op_code("banned"), "servers_banned_ips");
    assert_eq!(command_to_op_code("external_controller"), "external_controller_request");
    assert_eq!(command_to_op_code("remove-banned"), "remove-banned-ip");
    assert_eq!(command_to_op_code("add-banned"), "add-banned-ip");
    assert_eq!(command_to_op_code("contacts"), "contacts");
}

#[test]
fn escalation_signal_detection() {
    assert!(requires_admin_auth("{\"status\":\"needs-admin-auth\"}"));
    assert!(requires_admin_auth("{\"status\":{\"why\":\"needs-admin-auth now\"}}"));
    assert!(!requires_admin_auth("{\"status\":\"ok\"}"));
    assert!(!requires_admin_auth("{\"state\":\"needs-admin-auth\"}"));
    assert!(!requires_admin_auth("needs-admin-auth"));
    assert!(!requires_admin_auth("{\"status\":null}"));
    assert!(status_signals_escalation(&Some("\"needs-admin-auth\"".to_owned())));
    assert!(!status_signals_escalation(&Some("needs-admin".to_owned())));
    assert!(!status_signals_escalation(&None));
}

#[test]
fn raw_format_is_identity() {
    for x in ["", "{\"a\":1}", "not json", "  [1, 2] "] {
        assert_eq!(format_final_result(x.to_owned(), OutputStyle::Raw), x);
    }
}

#[test]
fn pretty_format_renders_json_and_keeps_other_text() {
    assert_eq!(
        format_final_result("{\"a\":1,\"b\":[true]}".to_owned(), OutputStyle::Pretty),
        "{\n  \"a\": 1,\n  \"b\": [\n    true\n  ]\n}"
    );
    assert_eq!(format_final_result("plain text".to_owned(), OutputStyle::Pretty), "plain text");
}

#[test]
fn pretty_format_is_idempotent_on_json() {
    for x in ["{\"z\":1,\"a\":{\"k\":[1,2.5,\"s\"]}}", "[]", "\"str\"", "42"] {
        let once = format_final_result(x.to_owned(), OutputStyle::Pretty);
        let twice = format_final_result(once.clone(), OutputStyle::Pretty);
        assert_eq!(once, twice);
    }
}

#[test]
fn session_tables_are_fixed() {
    let state = session();
    assert_eq!(state.accepted_commands.len(), 18);
    assert_eq!(state.super_auth_commands.len(), 6);
    assert_eq!(state.commands_that_requires_data.len(), 9);
    assert_eq!(state.escalation_password("remove-contact"), "super-pw");
    assert_eq!(state.escalation_password("contacts"), "admin-pw");
}

#[test]
fn green_log_lines() {
    assert_eq!(log_custom_green("d", "L"), "[\u{1b}[32mL\u{1b}[0m]:[d]");
    let lines = log_current_connection_status("ws://h", "me", "srv");
    assert_eq!(lines.len(), 3);
    assert_eq!(lines[0], "[\u{1b}[32mConnection String\u{1b}[0m]:[ws://h]");
    assert_eq!(lines[2], "[\u{1b}[32mServer's Name\u{1b}[0m]:[srv]");
}

#[test]
fn command_payload_passes_through_unchanged() {
    let cmd = Command {
        name: "external_controller".to_owned(),
        payload: Some("a\\\"b".to_owned()),
        style: OutputStyle::Pretty,
    };
    match command_to_functionality(&cmd) {
        Some(Request::Exchange { op_code, payload }) => {
            assert_eq!(op_code, "external_controller_request");
            assert_eq!(payload, Some("a\\\"b".to_owned()));
        }
        other => panic!("not an exchange: {:?}", other),
    }
}

//! The session: credentials, identity, target and the command tables.
use vstd::prelude::*;
use crate::json::{json_quoted, json_quoted_of};
use crate::text::{contains_name, names_of};

verus! {

/// The command names that the router accepts.
pub open spec fn accepted_names() -> Seq<Seq<char>> {
    seq![
        "control"@, "devices"@, "deactivated"@, "banned"@, "passive_data"@,
        "external_controller"@, "custom_type_add"@, "add-task"@, "remove-task"@,
        "add-contact"@, "remove-contact"@, "add-banned"@, "remove-banned"@,
        "contacts"@, "recent_connections"@, "executed_actions"@, "server_config"@,
        "recent_executed_tasks"@,
    ]
}

/// The operation codes whose escalation needs the super-admin password.
pub open spec fn super_tier_names() -> Seq<Seq<char>> {
    seq![
        "add-banned-ip"@, "remove-banned-ip"@, "add-task"@, "remove-task"@,
        "remove-contact"@, "add-contact"@,
    ]
}

/// The command names that carry a payload.
pub open spec fn payload_names() -> Seq<Seq<char>> {
    seq![
        "custom_type_add"@, "control"@, "external_controller"@, "add-banned-ip"@,
        "remove-banned-ip"@, "add-task"@, "remove-task"@, "remove-contact"@,
        "add-contact"@,
    ]
}

/// The command names that the router accepts.
pub fn accepted_commands() -> (r: Vec<String>)
    ensures
        names_of(r@) == accepted_names(),
{
    let r = vec![
        "control".to_owned(), "devices".to_owned(), "deactivated".to_owned(),
        "banned".to_owned(), "passive_data".to_owned(), "external_controller".to_owned(),
        "custom_type_add".to_owned(), "add-task".to_owned(), "remove-task".to_owned(),
        "add-contact".to_owned(), "remove-contact".to_owned(), "add-banned".to_owned(),
        "remove-banned".to_owned(), "contacts".to_owned(), "recent_connections".to_owned(),
        "executed_actions".to_owned(), "server_config".to_owned(),
        "recent_executed_tasks".to_owned(),
    ];
    assert(names_of(r@) =~= accepted_names());
    r
}

/// The operation codes whose escalation needs the super-admin password.
pub fn super_auth_commands() -> (r: Vec<String>)
    ensures
        names_of(r@) == super_tier_names(),
{
    let r = vec![
        "add-banned-ip".to_owned(), "remove-banned-ip".to_owned(), "add-task".to_owned(),
        "remove-task".to_owned(), "remove-contact".to_owned(), "add-contact".to_owned(),
    ];
    assert(names_of(r@) =~= super_tier_names());
    r
}

/// The command names that carry a payload.
pub fn require_data_with_command() -> (r: Vec<String>)
    ensures
        names_of(r@) == payload_names(),
{
    let r = vec![
        "custom_type_add".to_owned(), "control".to_owned(), "external_controller".to_owned(),
        "add-banned-ip".to_owned(), "remove-banned-ip".to_owned(), "add-task".to_owned(),
        "remove-task".to_owned(), "remove-contact".to_owned(), "add-contact".to_owned(),
    ];
    assert(names_of(r@) =~= payload_names());
    r
}

/// The identity descriptor sent during the handshake, for identity `name`.
pub open spec fn identity_descriptor(name: Seq<char>) -> Seq<char> {
    "{\"name\":"@ + json_quoted_of(name) + ",\"type\":\"non-bot\"}"@
}

/// Everything a session reads: three password tiers, the client's identity,
/// the server's display name, the connection target and the command tables.
pub struct MainState {
    pub admin_password: String,
    pub regular_password: String,
    pub super_admin_password: String,
    pub name: String,
    pub outside_name: String,
    pub connection_str: String,
    pub accepted_commands: Vec<String>,
    pub super_auth_commands: Vec<String>,
    pub commands_that_requires_data: Vec<String>,
}

impl MainState {
    /// The command tables are the fixed ones.
    pub open spec fn wf(&self) -> bool {
        &&& names_of(self.accepted_commands@) == accepted_names()
        &&& names_of(self.super_auth_commands@) == super_tier_names()
        &&& names_of(self.commands_that_requires_data@) == payload_names()
    }

    /// The password sent when the server asks to escalate the request `op_code`.
    pub open spec fn escalation_password_of(&self, op_code: Seq<char>) -> Seq<char> {
        if names_of(self.super_auth_commands@).contains(op_code) {
            self.super_admin_password@
        } else {
            self.admin_password@
        }
    }

    pub fn new(
        admin_password: String,
        regular_password: String,
        super_admin_password: String,
        name: String,
        outside_name: String,
        connection_str: String,
    ) -> (r: Self)
        ensures
            r.wf(),
            r.admin_password == admin_password,
            r.regular_password == regular_password,
            r.super_admin_password == super_admin_password,
            r.name == name,
            r.outside_name == outside_name,
            r.connection_str == connection_str,
    {
        Self {
            admin_password,
            regular_password,
            super_admin_password,
            name,
            outside_name,
            connection_str,
            accepted_commands: accepted_commands(),
            super_auth_commands: super_auth_commands(),
            commands_that_requires_data: require_data_with_command(),
        }
    }

    /// The identity descriptor `{"name":<name>,"type":"non-bot"}` as JSON text.
    pub fn name_and_type(&self) -> (r: String)
        ensures
            r@ == identity_descriptor(self.name@),
    {
        let mut r = "{\"name\":".to_owned();
        let quoted = json_quoted(self.name.as_str());
        r.append(quoted.as_str());
        r.append(",\"type\":\"non-bot\"}");
        r
    }

    /// The password to send when the server asks to escalate the request
    /// `op_code`: the super-admin one for the super tier, else the admin one.
    pub fn escalation_password(&self, op_code: &str) -> (r: String)
        ensures
            r@ == self.escalation_password_of(op_code@),
    {
        if contains_name(&self.super_auth_commands, op_code) {
            self.super_admin_password.clone()
        } else {
            self.admin_password.clone()
        }
    }
}

} // verus!

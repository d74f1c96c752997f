//! Protocol engine of an interactive client for a remote bot-control server:
//! command routing, the authentication handshake, the request/escalation
//! exchange and response rendering, each stated and proved with Verus.
pub mod console;
mod json;
mod paint;
pub mod output;
pub mod protocol;
pub mod router;
pub mod state;
pub mod text;

pub use state::{accepted_commands, require_data_with_command, super_auth_commands, MainState};
pub use text::{contains_name, occurs, same_text, split_tokens};
pub use router::{command_to_functionality, command_to_op_code, decode_action, route, Command, HOIActionData, OutputStyle, Request};
pub use protocol::{authenticate, execute_action, execute_request, handshake_frames, requires_admin_auth, status_signals_escalation, Exchange, ExchangePhase, ExchangeStep, EXECUTION_FAILED, GATHER_FAILED};
pub use console::{log_current_connection_status, log_custom_green};
pub use output::{format_final_result, pretty_or_verbatim};

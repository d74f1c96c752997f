//! Log lines shown on the terminal.
use vstd::prelude::*;
use crate::paint::{green_prefix, paint_green, style_reset};

verus! {

/// A log line `[label]:[data]` whose label is painted green.
pub open spec fn green_line(data: Seq<char>, label: Seq<char>) -> Seq<char> {
    "["@ + green_prefix() + label + style_reset() + "]:["@ + data + "]"@
}

/// The line `[label]:[data]`, with the label painted green.
pub fn log_custom_green(data: &str, name_of_log: &str) -> (r: String)
    ensures
        r@ == green_line(data@, name_of_log@),
{
    let mut r = "[".to_owned();
    let label = paint_green(name_of_log);
    r.append(label.as_str());
    r.append("]:[");
    r.append(data);
    r.append("]");
    assert(r@ =~= green_line(data@, name_of_log@));
    r
}

/// The lines that report the connection: its target, the client's name on the
/// server, and the server's name, in that order.
pub fn log_current_connection_status(connection_str: &str, name: &str, outside_name: &str) -> (r: Vec<String>)
    ensures
        r@.len() == 3,
        r@[0]@ == green_line(connection_str@, "Connection String"@),
        r@[1]@ == green_line(name@, "Your Name On Server:"@),
        r@[2]@ == green_line(outside_name@, "Server's Name"@),
{
    vec![
        log_custom_green(connection_str, "Connection String"),
        log_custom_green(name, "Your Name On Server:"),
        log_custom_green(outside_name, "Server's Name"),
    ]
}

} // verus!

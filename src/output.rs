//! Rendering of a response for the terminal.
use vstd::prelude::*;
use crate::json::{json_pretty, json_pretty_of};
use crate::router::OutputStyle;
use crate::text::opt_text;

verus! {

/// The pretty rendering when there is one, else the response unchanged.
pub open spec fn pretty_or_verbatim_of(data: Seq<char>, pretty: Option<Seq<char>>) -> Seq<char> {
    match pretty {
        Some(p) => p,
        None => data,
    }
}

/// How `data` is shown in `style`: verbatim when raw; when pretty, re-rendered
/// as indented JSON where it parses as JSON, else verbatim.
pub open spec fn formatted(data: Seq<char>, style: OutputStyle) -> Seq<char> {
    match style {
        OutputStyle::Raw => data,
        OutputStyle::Pretty => pretty_or_verbatim_of(data, json_pretty_of(data)),
    }
}

/// Picks what to show from a response and its pretty rendering, if one was had.
pub fn pretty_or_verbatim(data: String, pretty: Option<String>) -> (r: String)
    ensures
        r@ == pretty_or_verbatim_of(data@, opt_text(pretty)),
{
    match pretty {
        Some(p) => p,
        None => data,
    }
}

/// Renders a response in the given style.
pub fn format_final_result(data: String, style: OutputStyle) -> (r: String)
    ensures
        r@ == formatted(data@, style),
{
    if style == OutputStyle::Raw {
        return data;
    }
    let pretty = json_pretty(data.as_str());
    pretty_or_verbatim(data, pretty)
}

/// Raw rendering is the identity.
pub proof fn lemma_raw_is_identity(x: Seq<char>)
    ensures
        formatted(x, OutputStyle::Raw) == x,
{
}

} // verus!

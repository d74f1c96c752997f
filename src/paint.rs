//! Colouring of log labels, through ansi_term.
use vstd::prelude::*;

verus! {

/// The escape sequence that switches the terminal's foreground to green.
pub open spec fn green_prefix() -> Seq<char> {
    seq!['\x1b', '[', '3', '2', 'm']
}

/// The escape sequence that resets all terminal styles.
pub open spec fn style_reset() -> Seq<char> {
    seq!['\x1b', '[', '0', 'm']
}

/// Relies on ansi_term's `Colour::Green.paint` and its `Display`: the text
/// between the green foreground code and the reset code.
#[verifier::external_body]
pub(crate) fn paint_green(s: &str) -> (r: String)
    ensures
        r@ == green_prefix() + s@ + style_reset(),
{
    ansi_term::Colour::Green.paint(s).to_string()
}

} // verus!

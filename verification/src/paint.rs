//! Colour for the few lines that are meant to catch the eye.

use vstd::prelude::*;

verus! {

/// `text` between the escape sequences that switch green on and all
/// styles off.
pub open spec fn green(text: Seq<char>) -> Seq<char> {
    "\x1B[32m"@ + text + "\x1B[0m"@
}

/// `text` between the escape sequences that switch bold red on and all
/// styles off.
pub open spec fn bold_red(text: Seq<char>) -> Seq<char> {
    "\x1B[1;31m"@ + text + "\x1B[0m"@
}

/// `Colour::paint` of ansi_term on `Green`, written out: the code of the
/// green foreground, the text untouched, and the reset code.
#[verifier::external_body]
pub(crate) fn paint_green(text: &str) -> (painted: String)
    ensures
        painted@ == green(text@),
{
    ansi_term::Colour::Green.paint(text).to_string()
}

/// `Colour::bold` and `Style::paint` of ansi_term on `Red`, written out:
/// the codes of bold and of the red foreground in one sequence, the text
/// untouched, and the reset code.
#[verifier::external_body]
pub(crate) fn paint_bold_red(text: &str) -> (painted: String)
    ensures
        painted@ == bold_red(text@),
{
    ansi_term::Colour::Red.bold().paint(text).to_string()
}

} // verus!

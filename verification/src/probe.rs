//! The read-only questions asked of the environment, and their answers.

use vstd::prelude::*;
use vstd::string::StringExecFns;
use vstd::utf8::{decode_utf8, encode_utf8, valid_utf8};
use crate::error::{CliError, ErrorView};
use crate::invocation::{capture_command, invocation_of, manager, Invocation, IoMode};
use crate::listing::{
    find_entry, first_entry, lines, split_lines, squeeze, squeezed, trim_end, trimmed_end,
};
use crate::text::optional_text;

verus! {

/// What a run that collects output hands back.
#[derive(Debug, PartialEq, Eq)]
pub enum Captured {
    /// The program could not be found or started.
    Unavailable,
    /// The program ran; these bytes are all it wrote to its output.
    Output(Vec<u8>),
}

/// A [`Captured`] with its bytes as a sequence.
pub enum CapturedView {
    Unavailable,
    Output(Seq<u8>),
}

impl View for Captured {
    type V = CapturedView;

    open spec fn view(&self) -> CapturedView {
        match self {
            Captured::Unavailable => CapturedView::Unavailable,
            Captured::Output(bytes) => CapturedView::Output(bytes@),
        }
    }
}

/// `String::from_utf8` of std: it succeeds exactly on valid UTF-8, and the
/// text it gives is made of the very bytes it was given.
#[verifier::external_body]
fn from_utf8(bytes: Vec<u8>) -> (text: Option<String>)
    ensures
        text.is_some() == valid_utf8(bytes@),
        text matches Some(spelled) ==> encode_utf8(spelled@) == bytes@,
{
    String::from_utf8(bytes).ok()
}

/// The text that captured bytes spell, or `OutputDecodeFailure`.
pub open spec fn decoded(bytes: Seq<u8>) -> Result<Seq<char>, ErrorView> {
    if valid_utf8(bytes) {
        Ok(decode_utf8(bytes))
    } else {
        Err(ErrorView::OutputDecodeFailure)
    }
}

/// The view of a decoding result.
pub open spec fn decoding_view(result: Result<String, CliError>) -> Result<Seq<char>, ErrorView> {
    match result {
        Ok(text) => Ok(text@),
        Err(error) => Err(error@),
    }
}

/// Captured bytes as text. Bytes that are not UTF-8 give
/// `OutputDecodeFailure`.
pub fn decode_output(bytes: Vec<u8>) -> (result: Result<String, CliError>)
    ensures
        decoding_view(result) == decoded(bytes@),
{
    match from_utf8(bytes) {
        Some(text) => {
            proof {
                vstd::utf8::encode_utf8_decode_utf8(text@);
            }
            Ok(text)
        },
        None => Err(CliError::OutputDecodeFailure),
    }
}

/// What a capturing run of `tool` yields: the text it wrote,
/// `ToolNotFound` if it could not be started, `OutputDecodeFailure` if what
/// it wrote is not UTF-8. The exit code plays no part.
pub open spec fn capture_of(tool: Seq<char>, captured: CapturedView) -> Result<
    Seq<char>,
    ErrorView,
> {
    match captured {
        CapturedView::Unavailable => Err(ErrorView::ToolNotFound(tool)),
        CapturedView::Output(bytes) => decoded(bytes),
    }
}

/// The version a program reported: what it printed, without the white space
/// at the end. Nothing when it could not be run or what it printed is no
/// text.
pub open spec fn version_report(captured: CapturedView) -> Option<Seq<char>> {
    match captured {
        CapturedView::Output(bytes) if valid_utf8(bytes) => Some(trimmed_end(decode_utf8(bytes))),
        _ => None,
    }
}

/// The entry for the package `name` in a package listing: the first line
/// whose first word is `name`, its columns one space apart. Nothing when
/// the listing could not be had, is no text, or has no such line; a line
/// for a package whose name only begins with `name` does not count.
pub open spec fn package_report(name: Seq<char>, captured: CapturedView) -> Option<Seq<char>> {
    match captured {
        CapturedView::Output(bytes) if valid_utf8(bytes) => match first_entry(
            lines(decode_utf8(bytes)),
            name,
        ) {
            Some(line) => Some(squeezed(line)),
            None => None,
        },
        _ => None,
    }
}

/// The request that lists the packages installed in the managed
/// environment.
pub open spec fn listing_request() -> crate::invocation::InvocationView {
    invocation_of(manager(), seq!["run"@, "pip"@, "list"@], IoMode::Capture)
}

/// The request that lists the packages installed in the managed
/// environment.
pub fn check_package_version() -> (invocation: Invocation)
    ensures
        invocation@ == listing_request(),
{
    let arguments: Vec<&str> = vec!["run", "pip", "list"];
    assert(arguments.deep_view() =~= seq!["run"@, "pip"@, "list"@]);
    capture_command("uv", arguments)
}

/// What a capturing run of `command` yields: its output as text, or the
/// failure that kept it from giving any.
pub fn captured_text(command: &str, captured: Captured) -> (result: Result<String, CliError>)
    ensures
        decoding_view(result) == capture_of(command@, captured@),
{
    match captured {
        Captured::Unavailable => Err(CliError::ToolNotFound(String::from_str(command))),
        Captured::Output(bytes) => decode_output(bytes),
    }
}

/// The version line to show for `command`, which was asked for its
/// version. A probe that failed shows nothing.
pub fn version_text(command: &str, captured: Captured) -> (report: Option<String>)
    ensures
        optional_text(report) == version_report(captured@),
{
    match captured_text(command, captured) {
        Ok(text) => Some(trim_end(text.as_str())),
        Err(_) => None,
    }
}

/// The line to show for the package `name`, read from the package listing
/// of the environment manager. A probe that failed shows nothing.
pub fn package_version(name: &str, captured: Captured) -> (report: Option<String>)
    ensures
        optional_text(report) == package_report(name@, captured@),
{
    match captured_text("uv", captured) {
        Ok(text) => {
            let list = split_lines(text.as_str());
            match find_entry(&list, name) {
                Some(line) => Some(squeeze(line)),
                None => None,
            }
        },
        Err(_) => None,
    }
}

} // verus!

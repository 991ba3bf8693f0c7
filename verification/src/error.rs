//! The ways an invocation can fail.

use vstd::prelude::*;
use vstd::string::StringExecFns;

verus! {

/// Every failure the tool reports. Each one ends the current invocation.
#[derive(Debug, PartialEq, Eq)]
pub enum CliError {
    /// The command line named no subcommand the tool knows.
    SubcommandNotProvided,
    /// `remove` was given no package to remove.
    PackageNameRequired,
    /// The task-definition script is not on disk.
    ManifestMissing,
    /// The named program could not be started.
    ToolNotFound(String),
    /// The named program ended without an exit code.
    ProcessTerminatedAbnormally(String),
    /// Captured output was not UTF-8 text.
    OutputDecodeFailure,
    /// The task-definition script could not be written.
    ManifestWriteFailure,
}

/// A [`CliError`] as plain text.
pub enum ErrorView {
    SubcommandNotProvided,
    PackageNameRequired,
    ManifestMissing,
    ToolNotFound(Seq<char>),
    ProcessTerminatedAbnormally(Seq<char>),
    OutputDecodeFailure,
    ManifestWriteFailure,
}

impl View for CliError {
    type V = ErrorView;

    open spec fn view(&self) -> ErrorView {
        match self {
            CliError::SubcommandNotProvided => ErrorView::SubcommandNotProvided,
            CliError::PackageNameRequired => ErrorView::PackageNameRequired,
            CliError::ManifestMissing => ErrorView::ManifestMissing,
            CliError::ToolNotFound(tool) => ErrorView::ToolNotFound(tool@),
            CliError::ProcessTerminatedAbnormally(tool) => ErrorView::ProcessTerminatedAbnormally(
                tool@,
            ),
            CliError::OutputDecodeFailure => ErrorView::OutputDecodeFailure,
            CliError::ManifestWriteFailure => ErrorView::ManifestWriteFailure,
        }
    }
}

/// The single line shown to the user for each failure.
pub open spec fn message_text(error: ErrorView) -> Seq<char> {
    match error {
        ErrorView::SubcommandNotProvided => "Subcommand not provided"@,
        ErrorView::PackageNameRequired => "a package name is required"@,
        ErrorView::ManifestMissing => "No manifest file exists"@,
        ErrorView::ToolNotFound(tool) => tool + " failed to run."@,
        ErrorView::ProcessTerminatedAbnormally(tool) => tool + " failed with no status code"@,
        ErrorView::OutputDecodeFailure => "output was not valid UTF-8"@,
        ErrorView::ManifestWriteFailure => "Hellbox.py failed to write"@,
    }
}

/// The exit status and the failure of a finished invocation, as plain text.
pub open spec fn outcome_view(outcome: Result<i32, CliError>) -> Result<i32, ErrorView> {
    match outcome {
        Ok(code) => Ok(code),
        Err(error) => Err(error@),
    }
}

/// The exit code with which the tool itself ends: the code that a
/// successful command hands back, which for a delegated command is the
/// child's own, and 1 for every failure.
pub open spec fn exit_code_of(outcome: Result<i32, ErrorView>) -> i32 {
    match outcome {
        Ok(code) => code,
        Err(_) => 1,
    }
}

/// The line the tool writes to the error stream before it ends: none for a
/// command that succeeded, the failure's message otherwise.
pub open spec fn last_words_of(outcome: Result<i32, ErrorView>) -> Option<Seq<char>> {
    match outcome {
        Ok(_) => None,
        Err(error) => Some(message_text(error)),
    }
}

impl CliError {
    /// The single line shown to the user for this failure.
    pub fn message(&self) -> (text: String)
        ensures
            text@ == message_text(self@),
    {
        match self {
            CliError::SubcommandNotProvided => String::from_str("Subcommand not provided"),
            CliError::PackageNameRequired => String::from_str("a package name is required"),
            CliError::ManifestMissing => String::from_str("No manifest file exists"),
            CliError::ToolNotFound(tool) => tool.clone().concat(" failed to run."),
            CliError::ProcessTerminatedAbnormally(tool) => tool.clone().concat(
                " failed with no status code",
            ),
            CliError::OutputDecodeFailure => String::from_str("output was not valid UTF-8"),
            CliError::ManifestWriteFailure => String::from_str("Hellbox.py failed to write"),
        }
    }
}

/// How the tool ends for `outcome`: its exit code, and the line to write
/// to the error stream first, if there is one.
pub fn exit_report(outcome: &Result<i32, CliError>) -> (report: (i32, Option<String>))
    ensures
        report.0 == exit_code_of(outcome_view(*outcome)),
        crate::text::optional_text(report.1) == last_words_of(outcome_view(*outcome)),
        outcome is Err ==> report.0 != 0,
{
    match outcome {
        Ok(code) => (*code, None),
        Err(error) => (1, Some(error.message())),
    }
}

} // verus!

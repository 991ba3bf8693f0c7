//! Requests to run an external program, and what their endings mean.

use vstd::prelude::*;
use vstd::string::StringExecFns;
use crate::error::{CliError, ErrorView};
use crate::text::owned_list;

verus! {

/// How the standard streams of a child process are connected.
#[derive(Debug, Clone, Copy, PartialEq, Eq, Structural)]
pub enum IoMode {
    /// No input; output and errors go straight to the user's terminal.
    Interactive,
    /// Output is collected and handed back as bytes.
    Capture,
    /// Output and errors are discarded; only whether it ran matters.
    Silent,
}

/// One external program to run: its name, its arguments, its streams.
///
/// The arguments are a vector, handed to the program one by one. Nothing
/// in them is quoted, split or read by a shell.
#[derive(Debug, PartialEq, Eq)]
pub struct Invocation {
    pub program: String,
    pub arguments: Vec<String>,
    pub mode: IoMode,
}

/// An [`Invocation`] as plain text.
pub struct InvocationView {
    pub program: Seq<char>,
    pub arguments: Seq<Seq<char>>,
    pub mode: IoMode,
}

impl View for Invocation {
    type V = InvocationView;

    open spec fn view(&self) -> InvocationView {
        InvocationView {
            program: self.program@,
            arguments: self.arguments.deep_view(),
            mode: self.mode,
        }
    }
}

/// The name of the environment manager on the search path.
pub open spec fn manager() -> Seq<char> {
    "uv"@
}

/// The name of the Python interpreter on the search path.
pub open spec fn interpreter() -> Seq<char> {
    "python"@
}

/// The request to run `program` with `arguments` in `mode`.
pub open spec fn invocation_of(
    program: Seq<char>,
    arguments: Seq<Seq<char>>,
    mode: IoMode,
) -> InvocationView {
    InvocationView { program, arguments, mode }
}

/// The request that creates a fresh project environment.
pub open spec fn project_request() -> InvocationView {
    invocation_of(manager(), seq!["init"@], IoMode::Interactive)
}

/// The request that installs every declared dependency.
pub open spec fn sync_request() -> InvocationView {
    invocation_of(manager(), seq!["sync"@], IoMode::Interactive)
}

/// The request that adds the package `name`: the subcommand, then the name
/// as it was given, and nothing else.
pub open spec fn add_request(name: Seq<char>) -> InvocationView {
    invocation_of(manager(), seq!["add"@, name], IoMode::Interactive)
}

/// The request that removes the package `name`: the subcommand, then the
/// name as it was given, and nothing else.
pub open spec fn remove_request(name: Seq<char>) -> InvocationView {
    invocation_of(manager(), seq!["remove"@, name], IoMode::Interactive)
}

/// The request that asks `tool` for its version and collects the answer.
pub open spec fn version_request(tool: Seq<char>) -> InvocationView {
    invocation_of(tool, seq!["--version"@], IoMode::Capture)
}

/// The request that finds out whether `tool` can be run at all.
pub open spec fn presence_request(tool: Seq<char>) -> InvocationView {
    invocation_of(tool, seq!["--version"@], IoMode::Silent)
}

/// How a child process that was waited for came to its end.
#[derive(Debug, Clone, Copy, PartialEq, Eq, Structural)]
pub enum Completion {
    /// The program could not be found or started.
    Unavailable,
    /// The program ended without an exit code, as when a signal kills it.
    Signalled,
    /// The program ran and exited with this code.
    Exited(i32),
}

/// What an ending means for the tool that was run: its exit code, whatever
/// it is, or the failure that kept it from having one.
pub open spec fn status_of(tool: Seq<char>, completion: Completion) -> Result<i32, ErrorView> {
    match completion {
        Completion::Unavailable => Err(ErrorView::ToolNotFound(tool)),
        Completion::Signalled => Err(ErrorView::ProcessTerminatedAbnormally(tool)),
        Completion::Exited(code) => Ok(code),
    }
}

/// Whether a program did what it was run for: it ran to its end and exited
/// with 0. Any other exit code, an ending without one, and a program that
/// could not be started are all failures.
pub open spec fn succeeded(completion: Completion) -> bool {
    completion == Completion::Exited(0)
}

/// A request in the given mode for `command` with `arguments`.
fn request(command: &str, arguments: &Vec<&str>, mode: IoMode) -> (invocation: Invocation)
    ensures
        invocation@ == invocation_of(command@, arguments.deep_view(), mode),
{
    Invocation { program: String::from_str(command), arguments: owned_list(arguments), mode }
}

/// The request to run `command` with `arguments` in front of the user:
/// no input, output and errors passed through.
pub fn run_command(command: &str, arguments: Vec<&str>) -> (invocation: Invocation)
    ensures
        invocation@ == invocation_of(command@, arguments.deep_view(), IoMode::Interactive),
{
    request(command, &arguments, IoMode::Interactive)
}

/// The request to run `command` with `arguments` only to learn whether it
/// can be run at all.
pub fn check_command(command: &str, arguments: Vec<&str>) -> (invocation: Invocation)
    ensures
        invocation@ == invocation_of(command@, arguments.deep_view(), IoMode::Silent),
{
    request(command, &arguments, IoMode::Silent)
}

/// The request to run `command` with `arguments` and collect what it
/// writes to its output.
pub fn capture_command(command: &str, arguments: Vec<&str>) -> (invocation: Invocation)
    ensures
        invocation@ == invocation_of(command@, arguments.deep_view(), IoMode::Capture),
{
    request(command, &arguments, IoMode::Capture)
}

/// The request that asks `command` for its version and collects the answer.
pub fn check_version(command: &str) -> (invocation: Invocation)
    ensures
        invocation@ == version_request(command@),
{
    let arguments: Vec<&str> = vec!["--version"];
    assert(arguments.deep_view() =~= seq!["--version"@]);
    capture_command(command, arguments)
}

/// What the ending of an interactive run of `command` means: the exit code
/// of a program that ran to its end, `ToolNotFound` for one that could not
/// be started, `ProcessTerminatedAbnormally` for one without an exit code.
pub fn exit_status(command: &str, completion: Completion) -> (status: Result<i32, CliError>)
    ensures
        crate::error::outcome_view(status) == status_of(command@, completion),
{
    match completion {
        Completion::Unavailable => Err(CliError::ToolNotFound(String::from_str(command))),
        Completion::Signalled => Err(
            CliError::ProcessTerminatedAbnormally(String::from_str(command)),
        ),
        Completion::Exited(code) => Ok(code),
    }
}

/// The request that creates a fresh project environment.
pub fn create_project() -> (invocation: Invocation)
    ensures
        invocation@ == project_request(),
{
    let arguments: Vec<&str> = vec!["init"];
    assert(arguments.deep_view() =~= seq!["init"@]);
    run_command("uv", arguments)
}

/// The request that installs every declared dependency.
pub fn install_dependencies() -> (invocation: Invocation)
    ensures
        invocation@ == sync_request(),
{
    let arguments: Vec<&str> = vec!["sync"];
    assert(arguments.deep_view() =~= seq!["sync"@]);
    run_command("uv", arguments)
}

/// The request that adds the package `name`, passed on exactly as given.
pub fn install_package(name: &str) -> (invocation: Invocation)
    ensures
        invocation@ == add_request(name@),
{
    let arguments: Vec<&str> = vec!["add", name];
    assert(arguments.deep_view() =~= seq!["add"@, name@]);
    run_command("uv", arguments)
}

/// The request that removes the package `name`, passed on exactly as given.
pub fn uninstall_package(name: &str) -> (invocation: Invocation)
    ensures
        invocation@ == remove_request(name@),
{
    let arguments: Vec<&str> = vec!["remove", name];
    assert(arguments.deep_view() =~= seq!["remove"@, name@]);
    run_command("uv", arguments)
}

} // verus!

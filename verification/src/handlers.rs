//! One handler for each command, and the router that picks among them.
//!
//! A handler is asked again and again: given the stage the command has
//! reached and the event that just happened, it names the next stage, the
//! lines to show and the one thing to do next. It starts at
//! [`Stage::Start`] with [`Event::Started`] and is done at
//! [`Stage::Finished`].

use vstd::prelude::*;
use vstd::string::StringExecFns;
use crate::command::{CommandView, ParsedCommand};
use crate::config::{Environment, EnvironmentView};
use crate::error::{outcome_view, CliError, ErrorView};
use crate::invocation::{
    add_request, check_command, check_version, create_project, exit_status, install_dependencies,
    install_package, interpreter, manager, presence_request, project_request, remove_request,
    status_of, succeeded, sync_request, uninstall_package, version_request, Completion,
    Invocation,
    InvocationView,
};
use crate::paint::{bold_red, green, paint_bold_red, paint_green};
use crate::probe::{
    check_package_version, listing_request, package_report, package_version, version_report,
    version_text,
};
use crate::protocol::{
    quiet, reporting, saying, Action, ActionView, Event, EventView, Stage, Step, StepView, Stream,
};
use crate::script::{default_task, inspect_request, run_inspect, run_task, task_request};
use crate::text::{borrowed, optional_slice};

verus! {

/// A stage and a step as plain values.
pub open spec fn turn_view(turn: (Stage, Step)) -> (Stage, StepView) {
    (turn.0, turn.1@)
}

/// The end of a command: nothing shown, `outcome` handed back.
pub open spec fn ended(outcome: Result<i32, ErrorView>) -> (Stage, StepView) {
    (Stage::Finished, quiet(ActionView::Finish(outcome)))
}

/// The answer to an event that fits no open request: the stage stays, and
/// nothing is shown or done.
pub open spec fn ignored(stage: Stage) -> (Stage, StepView) {
    (stage, quiet(ActionView::Idle))
}

/// The course of a command whose whole work is one program: it is run, and
/// the way it ends is the outcome.
pub open spec fn delegation(request: InvocationView, stage: Stage, event: EventView) -> (
    Stage,
    StepView,
) {
    match (stage, event) {
        (Stage::Start, EventView::Started) => (
            Stage::Delegating,
            quiet(ActionView::Invoke(request)),
        ),
        (Stage::Delegating, EventView::Completed(completion)) => ended(
            status_of(manager(), completion),
        ),
        _ => ignored(stage),
    }
}

/// The course of a command that needs the manifest at `manifest`: it first
/// asks whether the file is there. Without it the command fails with
/// `ManifestMissing` and runs nothing; with it `request` is run, and the
/// way it ends is the outcome.
pub open spec fn guarded(
    manifest: Seq<char>,
    request: InvocationView,
    stage: Stage,
    event: EventView,
) -> (Stage, StepView) {
    match (stage, event) {
        (Stage::Start, EventView::Started) => (
            Stage::Locating,
            quiet(ActionView::Locate(manifest)),
        ),
        (Stage::Locating, EventView::Located(exists)) => if exists {
            (Stage::Delegating, quiet(ActionView::Invoke(request)))
        } else {
            ended(Err(ErrorView::ManifestMissing))
        },
        (Stage::Delegating, EventView::Completed(completion)) => ended(
            status_of(manager(), completion),
        ),
        _ => ignored(stage),
    }
}

/// What the manifest holds when `init` creates it.
pub open spec fn manifest_contents() -> Seq<char> {
    "from hellbox import Hellbox\n\nHellbox.autoimport()"@
}

/// What follows the answer to "is the manifest at `filepath` there?": a
/// manifest that exists is left alone and the work is done; one that is
/// missing is written.
pub open spec fn manifest_step(filepath: Seq<char>, exists: bool) -> (Stage, StepView) {
    if exists {
        ended(Ok(0))
    } else {
        (
            Stage::Writing,
            quiet(ActionView::Write { path: filepath, contents: manifest_contents() }),
        )
    }
}

/// What follows a program of the `init` chain: `next` if it succeeded.
/// One that failed ends the chain there, and what came of it is the
/// outcome of `init`: its exit code if it had one, which is then not 0,
/// else the failure that kept it from having one.
pub open spec fn chained(completion: Completion, next: (Stage, StepView)) -> (Stage, StepView) {
    if succeeded(completion) {
        next
    } else {
        ended(status_of(manager(), completion))
    }
}

/// The course of `init`: create the environment, install the task runner
/// into it, then make sure the manifest exists. Each step is taken only
/// after the one before it succeeded; the first that fails is the last,
/// and its failure is the outcome.
pub open spec fn init_flow(environment: EnvironmentView, stage: Stage, event: EventView) -> (
    Stage,
    StepView,
) {
    match (stage, event) {
        (Stage::Start, EventView::Started) => (
            Stage::Creating,
            quiet(ActionView::Invoke(project_request())),
        ),
        (Stage::Creating, EventView::Completed(completion)) => chained(
            completion,
            (
                Stage::Bootstrapping,
                quiet(ActionView::Invoke(add_request(environment.hellbox_package))),
            ),
        ),
        (Stage::Bootstrapping, EventView::Completed(completion)) => chained(
            completion,
            (Stage::Checking, quiet(ActionView::Locate(environment.manifest_filename))),
        ),
        (Stage::Checking, EventView::Located(exists)) => manifest_step(
            environment.manifest_filename,
            exists,
        ),
        (Stage::Writing, EventView::Written(done)) => if done {
            ended(Ok(0))
        } else {
            ended(Err(ErrorView::ManifestWriteFailure))
        },
        _ => ignored(stage),
    }
}

/// The course of `install` without a package: every declared dependency
/// is installed.
pub open spec fn install_flow(stage: Stage, event: EventView) -> (Stage, StepView) {
    delegation(sync_request(), stage, event)
}

/// The course of `add`: the named package is added; without a name it is
/// the course of `install`.
pub open spec fn add_flow(name: Option<Seq<char>>, stage: Stage, event: EventView) -> (
    Stage,
    StepView,
) {
    match name {
        Some(name) => delegation(add_request(name), stage, event),
        None => install_flow(stage, event),
    }
}

/// The course of `remove`: the named package is removed; without a name
/// the command fails at once with `PackageNameRequired`.
pub open spec fn remove_flow(name: Option<Seq<char>>, stage: Stage, event: EventView) -> (
    Stage,
    StepView,
) {
    match name {
        Some(name) => delegation(remove_request(name), stage, event),
        None => match (stage, event) {
            (Stage::Start, EventView::Started) => ended(Err(ErrorView::PackageNameRequired)),
            _ => ignored(stage),
        },
    }
}

/// The name of the task to run: the one given, else the default task.
pub open spec fn task_name(task: Option<Seq<char>>) -> Seq<char> {
    match task {
        Some(name) => name,
        None => default_task(),
    }
}

/// The course of `run`.
pub open spec fn run_flow(
    environment: EnvironmentView,
    task: Option<Seq<char>>,
    stage: Stage,
    event: EventView,
) -> (Stage, StepView) {
    guarded(
        environment.manifest_filename,
        task_request(environment.manifest_filename, task_name(task)),
        stage,
        event,
    )
}

/// The course of `inspect`.
pub open spec fn inspect_flow(environment: EnvironmentView, stage: Stage, event: EventView) -> (
    Stage,
    StepView,
) {
    guarded(
        environment.manifest_filename,
        inspect_request(environment.manifest_filename),
        stage,
        event,
    )
}

/// The name under which the task runner appears in a package listing.
pub open spec fn runner_package() -> Seq<char> {
    "hellbox"@
}

/// The line that names the tool and its own version.
pub open spec fn own_version_line(version: Seq<char>) -> Seq<char> {
    "hell "@ + version
}

/// The course of `environment`: the tool's own version is shown, then what
/// can be learnt of the task runner, the interpreter and the environment
/// manager. A probe that fails shows nothing; the outcome is always 0.
pub open spec fn environment_flow(version: Seq<char>, stage: Stage, event: EventView) -> (
    Stage,
    StepView,
) {
    match (stage, event) {
        (Stage::Start, EventView::Started) => (
            Stage::Listing,
            saying(
                Stream::Output,
                own_version_line(version),
                ActionView::Invoke(listing_request()),
            ),
        ),
        (Stage::Listing, EventView::Captured(captured)) => (
            Stage::AskingInterpreter,
            reporting(
                package_report(runner_package(), captured),
                ActionView::Invoke(version_request(interpreter())),
            ),
        ),
        (Stage::AskingInterpreter, EventView::Captured(captured)) => (
            Stage::AskingManager,
            reporting(version_report(captured), ActionView::Invoke(version_request(manager()))),
        ),
        (Stage::AskingManager, EventView::Captured(captured)) => (
            Stage::Finished,
            reporting(version_report(captured), ActionView::Finish(Ok(0))),
        ),
        _ => ignored(stage),
    }
}

/// The lines that open the check after installation.
pub open spec fn installed_banner() -> Seq<char> {
    green("hell was installed!"@) + "\nChecking for expected tools..."@
}

/// What is shown when the environment manager is missing: that it is, what
/// it is for, and the command that installs it.
pub open spec fn missing_manager_hint() -> Seq<char> {
    bold_red("uv: not found"@)
        + "\n\nThe uv tool creates and runs the Python virtual environment used by hell, and is a required dependency. It can be installed with pip.\n\n  pip install uv\n"@
}

/// What is shown when no tool is missing.
pub open spec fn all_present() -> Seq<char> {
    green("OK!"@)
}

/// What the check says once it knows how the probe of the environment
/// manager ended: the hint if it could not be started, the all-clear if it
/// could.
pub open spec fn probe_verdict(completion: Completion) -> Seq<char> {
    if completion == Completion::Unavailable {
        missing_manager_hint()
    } else {
        all_present()
    }
}

/// The course of the check after installation: it looks for the
/// environment manager, says what it found, and ends with 0 whatever that
/// was.
pub open spec fn postinstall_flow(stage: Stage, event: EventView) -> (Stage, StepView) {
    match (stage, event) {
        (Stage::Start, EventView::Started) => (
            Stage::Probing,
            saying(
                Stream::Error,
                installed_banner(),
                ActionView::Invoke(presence_request(manager())),
            ),
        ),
        (Stage::Probing, EventView::Completed(completion)) => (
            Stage::Finished,
            saying(Stream::Error, probe_verdict(completion), ActionView::Finish(Ok(0))),
        ),
        _ => ignored(stage),
    }
}

/// The course of `command`, whichever it is.
pub open spec fn routed(
    environment: EnvironmentView,
    version: Seq<char>,
    command: CommandView,
    stage: Stage,
    event: EventView,
) -> (Stage, StepView) {
    match command {
        CommandView::Init => init_flow(environment, stage, event),
        CommandView::Install(name) => add_flow(name, stage, event),
        CommandView::Remove(name) => remove_flow(name, stage, event),
        CommandView::Run(task) => run_flow(environment, task, stage, event),
        CommandView::Inspect => inspect_flow(environment, stage, event),
        CommandView::EnvironmentInfo => environment_flow(version, stage, event),
        CommandView::PostInstallCheck => postinstall_flow(stage, event),
    }
}

/// The end of a command with `outcome`.
fn end(outcome: Result<i32, CliError>) -> (turn: (Stage, Step))
    ensures
        turn_view(turn) == ended(outcome_view(outcome)),
{
    (Stage::Finished, Step::quiet(Action::Finish(outcome)))
}

/// The answer to an event that fits no open request.
fn ignore(stage: Stage) -> (turn: (Stage, Step))
    ensures
        turn_view(turn) == ignored(stage),
{
    (stage, Step::quiet(Action::Idle))
}

/// One turn of a command whose whole work is the one program that
/// `request` names.
fn delegate(request: Invocation, stage: Stage, event: Event) -> (turn: (Stage, Step))
    ensures
        turn_view(turn) == delegation(request@, stage, event@),
{
    match (stage, event) {
        (Stage::Start, Event::Started) => (
            Stage::Delegating,
            Step::quiet(Action::Invoke(request)),
        ),
        (Stage::Delegating, Event::Completed(completion)) => end(exit_status("uv", completion)),
        _ => ignore(stage),
    }
}

/// One turn of a command that runs `request` if the manifest is there.
fn guard(manifest: &str, request: Invocation, stage: Stage, event: Event) -> (turn: (
    Stage,
    Step,
))
    ensures
        turn_view(turn) == guarded(manifest@, request@, stage, event@),
{
    match (stage, event) {
        (Stage::Start, Event::Started) => (
            Stage::Locating,
            Step::quiet(Action::Locate(String::from_str(manifest))),
        ),
        (Stage::Locating, Event::Located(exists)) => {
            if exists {
                (Stage::Delegating, Step::quiet(Action::Invoke(request)))
            } else {
                end(Err(CliError::ManifestMissing))
            }
        },
        (Stage::Delegating, Event::Completed(completion)) => end(exit_status("uv", completion)),
        _ => ignore(stage),
    }
}

/// What `init` does once it knows whether the manifest at `filepath`
/// exists: nothing if it does, else ask for it to be written.
pub fn create_manifest(filepath: &str, exists: bool) -> (turn: (Stage, Step))
    ensures
        turn_view(turn) == manifest_step(filepath@, exists),
{
    if !exists {
        (
            Stage::Writing,
            Step::quiet(
                Action::Write {
                    path: String::from_str(filepath),
                    contents: String::from_str(
                        "from hellbox import Hellbox\n\nHellbox.autoimport()",
                    ),
                },
            ),
        )
    } else {
        end(Ok(0))
    }
}

/// One turn of `init`.
pub fn handle_init(environment: &Environment, stage: Stage, event: Event) -> (turn: (
    Stage,
    Step,
))
    ensures
        turn_view(turn) == init_flow(environment@, stage, event@),
{
    match (stage, event) {
        (Stage::Start, Event::Started) => (
            Stage::Creating,
            Step::quiet(Action::Invoke(create_project())),
        ),
        (Stage::Creating, Event::Completed(completion)) => match exit_status("uv", completion) {
            Ok(0) => (
                Stage::Bootstrapping,
                Step::quiet(Action::Invoke(install_package(environment.hellbox_package.as_str()))),
            ),
            failure => end(failure),
        },
        (Stage::Bootstrapping, Event::Completed(completion)) => match exit_status(
            "uv",
            completion,
        ) {
            Ok(0) => (
                Stage::Checking,
                Step::quiet(Action::Locate(environment.manifest_filename.clone())),
            ),
            failure => end(failure),
        },
        (Stage::Checking, Event::Located(exists)) => create_manifest(
            environment.manifest_filename.as_str(),
            exists,
        ),
        (Stage::Writing, Event::Written(done)) => {
            if done {
                end(Ok(0))
            } else {
                end(Err(CliError::ManifestWriteFailure))
            }
        },
        _ => ignore(stage),
    }
}

/// One turn of `install` without a package.
pub fn handle_install(stage: Stage, event: Event) -> (turn: (Stage, Step))
    ensures
        turn_view(turn) == install_flow(stage, event@),
{
    delegate(install_dependencies(), stage, event)
}

/// One turn of `add`.
pub fn handle_add(name: Option<&str>, stage: Stage, event: Event) -> (turn: (Stage, Step))
    ensures
        turn_view(turn) == add_flow(optional_slice(name), stage, event@),
{
    match name {
        Some(name) => delegate(install_package(name), stage, event),
        None => handle_install(stage, event),
    }
}

/// One turn of `remove`.
pub fn handle_remove(name: Option<&str>, stage: Stage, event: Event) -> (turn: (Stage, Step))
    ensures
        turn_view(turn) == remove_flow(optional_slice(name), stage, event@),
{
    match name {
        Some(name) => delegate(uninstall_package(name), stage, event),
        None => match (stage, event) {
            (Stage::Start, Event::Started) => end(Err(CliError::PackageNameRequired)),
            _ => ignore(stage),
        },
    }
}

/// One turn of `run`.
pub fn handle_run(environment: &Environment, task: Option<&str>, stage: Stage, event: Event) -> (turn:
    (Stage, Step))
    ensures
        turn_view(turn) == run_flow(environment@, optional_slice(task), stage, event@),
{
    let name = match task {
        Some(name) => name,
        None => "default",
    };
    let manifest = environment.manifest_filename.as_str();
    guard(manifest, run_task(manifest, name), stage, event)
}

/// One turn of `inspect`.
pub fn handle_inspect(environment: &Environment, stage: Stage, event: Event) -> (turn: (
    Stage,
    Step,
))
    ensures
        turn_view(turn) == inspect_flow(environment@, stage, event@),
{
    let manifest = environment.manifest_filename.as_str();
    guard(manifest, run_inspect(manifest), stage, event)
}

/// One turn of `environment`, for the tool in the given version.
pub fn handle_environment(version: &str, stage: Stage, event: Event) -> (turn: (Stage, Step))
    ensures
        turn_view(turn) == environment_flow(version@, stage, event@),
{
    match (stage, event) {
        (Stage::Start, Event::Started) => (
            Stage::Listing,
            Step::saying(
                Stream::Output,
                String::from_str("hell ").concat(version),
                Action::Invoke(check_package_version()),
            ),
        ),
        (Stage::Listing, Event::Captured(captured)) => (
            Stage::AskingInterpreter,
            Step::reporting(
                package_version("hellbox", captured),
                Action::Invoke(check_version("python")),
            ),
        ),
        (Stage::AskingInterpreter, Event::Captured(captured)) => (
            Stage::AskingManager,
            Step::reporting(
                version_text("python", captured),
                Action::Invoke(check_version("uv")),
            ),
        ),
        (Stage::AskingManager, Event::Captured(captured)) => (
            Stage::Finished,
            Step::reporting(version_text("uv", captured), Action::Finish(Ok(0))),
        ),
        _ => ignore(stage),
    }
}

/// One turn of the check after installation.
pub fn handle_postinstall(stage: Stage, event: Event) -> (turn: (Stage, Step))
    ensures
        turn_view(turn) == postinstall_flow(stage, event@),
{
    match (stage, event) {
        (Stage::Start, Event::Started) => {
            let banner = paint_green("hell was installed!").concat(
                "\nChecking for expected tools...",
            );
            let arguments: Vec<&str> = vec!["--version"];
            assert(arguments.deep_view() =~= seq!["--version"@]);
            (
                Stage::Probing,
                Step::saying(Stream::Error, banner, Action::Invoke(check_command("uv", arguments))),
            )
        },
        (Stage::Probing, Event::Completed(completion)) => {
            let verdict = match completion {
                Completion::Unavailable => paint_bold_red("uv: not found").concat(
                    "\n\nThe uv tool creates and runs the Python virtual environment used by hell, and is a required dependency. It can be installed with pip.\n\n  pip install uv\n",
                ),
                _ => paint_green("OK!"),
            };
            (Stage::Finished, Step::saying(Stream::Error, verdict, Action::Finish(Ok(0))))
        },
        _ => ignore(stage),
    }
}

/// One turn of `command`: the router hands the stage and the event to the
/// handler of that command, with the configuration it needs.
pub fn dispatch(
    environment: &Environment,
    version: &str,
    command: &ParsedCommand,
    stage: Stage,
    event: Event,
) -> (turn: (Stage, Step))
    ensures
        turn_view(turn) == routed(environment@, version@, command@, stage, event@),
{
    match command {
        ParsedCommand::Init => handle_init(environment, stage, event),
        ParsedCommand::Install(name) => handle_add(borrowed(name), stage, event),
        ParsedCommand::Remove(name) => handle_remove(borrowed(name), stage, event),
        ParsedCommand::Run(task) => handle_run(environment, borrowed(task), stage, event),
        ParsedCommand::Inspect => handle_inspect(environment, stage, event),
        ParsedCommand::EnvironmentInfo => handle_environment(version, stage, event),
        ParsedCommand::PostInstallCheck => handle_postinstall(stage, event),
    }
}

} // verus!

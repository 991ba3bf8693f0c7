//! The inline Python programs through which the task runner is driven.

use vstd::prelude::*;
use vstd::string::StringExecFns;
use crate::invocation::{invocation_of, manager, run_command, Invocation, IoMode};
use crate::text::{join, joined};

verus! {

/// The program that executes the manifest at `filepath`, imports the task
/// runner, and then runs `commands` in order.
pub open spec fn program_text(filepath: Seq<char>, commands: Seq<Seq<char>>) -> Seq<char> {
    "exec(open(\""@ + filepath + "\").read()); import hellbox; "@ + joined(commands, "; "@)
}

/// The statement that lists the defined tasks.
pub open spec fn inspect_statement() -> Seq<char> {
    "hellbox.Hellbox.inspect()"@
}

/// The statement that runs the task called `name`.
pub open spec fn task_statement(name: Seq<char>) -> Seq<char> {
    "hellbox.Hellbox.run_task(\""@ + name + "\")"@
}

/// The task that `run` starts when none is named.
pub open spec fn default_task() -> Seq<char> {
    "default"@
}

/// The request that hands `program` to the interpreter inside the managed
/// environment.
pub open spec fn interpreter_request(program: Seq<char>) -> crate::invocation::InvocationView {
    invocation_of(manager(), seq!["run"@, "python"@, "-c"@, program], IoMode::Interactive)
}

/// The request that lists the tasks defined by the manifest at `filepath`.
pub open spec fn inspect_request(filepath: Seq<char>) -> crate::invocation::InvocationView {
    interpreter_request(program_text(filepath, seq![inspect_statement()]))
}

/// The request that runs the task `name` of the manifest at `filepath`.
pub open spec fn task_request(filepath: Seq<char>, name: Seq<char>)
    -> crate::invocation::InvocationView {
    interpreter_request(program_text(filepath, seq![task_statement(name)]))
}

/// The request that runs `commands` against the manifest at `filepath`.
///
/// The whole program is one argument. The path and the commands are put
/// into it as they come, with no quoting.
pub fn run_hellbox_commands(filepath: &str, commands: Vec<&str>) -> (invocation: Invocation)
    ensures
        invocation@ == interpreter_request(program_text(filepath@, commands.deep_view())),
{
    let mut program = String::from_str("exec(open(\"");
    program.append(filepath);
    program.append("\").read()); import hellbox; ");
    let statements = join(&commands, "; ");
    program.append(statements.as_str());
    let arguments: Vec<&str> = vec!["run", "python", "-c", program.as_str()];
    assert(arguments.deep_view() =~= seq!["run"@, "python"@, "-c"@, program@]);
    run_command("uv", arguments)
}

/// The request that lists the tasks defined by the manifest at `filepath`.
pub fn run_inspect(filepath: &str) -> (invocation: Invocation)
    ensures
        invocation@ == inspect_request(filepath@),
{
    let commands: Vec<&str> = vec!["hellbox.Hellbox.inspect()"];
    assert(commands.deep_view() =~= seq![inspect_statement()]);
    run_hellbox_commands(filepath, commands)
}

/// The request that runs the task `name` of the manifest at `filepath`.
pub fn run_task(filepath: &str, name: &str) -> (invocation: Invocation)
    ensures
        invocation@ == task_request(filepath@, name@),
{
    let mut statement = String::from_str("hellbox.Hellbox.run_task(\"");
    statement.append(name);
    statement.append("\")");
    let commands: Vec<&str> = vec![statement.as_str()];
    assert(commands.deep_view() =~= seq![task_statement(name@)]);
    run_hellbox_commands(filepath, commands)
}

} // verus!

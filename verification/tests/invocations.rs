use hell::error::CliError;
use hell::invocation::{
    capture_command, check_command, check_version, create_project, exit_status, install_dependencies,
    install_package, run_command, uninstall_package, Completion, Invocation, IoMode,
};
use hell::probe::check_package_version;
use hell::script::{run_hellbox_commands, run_inspect, run_task};
use hell::text::{join, owned_list, same_text};

fn expect(invocation: Invocation, program: &str, arguments: Vec<&str>, mode: IoMode) {
    assert_eq!(invocation.program, program);
    let given: Vec<&str> = invocation.arguments.iter().map(|a| a.as_str()).collect();
    assert_eq!(given, arguments);
    assert_eq!(invocation.mode, mode);
}

#[test]
fn create_project_runs_uv_init() {
    expect(create_project(), "uv", vec!["init"], IoMode::Interactive);
}

#[test]
fn install_dependencies_runs_uv_sync() {
    expect(install_dependencies(), "uv", vec!["sync"], IoMode::Interactive);
}

#[test]
fn install_package_adds_exactly_the_name() {
    expect(install_package("redis"), "uv", vec!["add", "redis"], IoMode::Interactive);
}

#[test]
fn install_package_does_not_quote_or_split() {
    expect(
        install_package("redis; rm -rf $HOME 'x' \"y\""),
        "uv",
        vec!["add", "redis; rm -rf $HOME 'x' \"y\""],
        IoMode::Interactive,
    );
    expect(install_package(""), "uv", vec!["add", ""], IoMode::Interactive);
}

#[test]
fn uninstall_package_removes_exactly_the_name() {
    expect(uninstall_package("redis"), "uv", vec!["remove", "redis"], IoMode::Interactive);
    expect(uninstall_package("a b"), "uv", vec!["remove", "a b"], IoMode::Interactive);
}

#[test]
fn run_command_is_interactive() {
    expect(run_command("tool", vec!["a", "b c", ""]), "tool", vec!["a", "b c", ""], IoMode::Interactive);
    expect(run_command("tool", vec![]), "tool", vec![], IoMode::Interactive);
}

#[test]
fn check_command_is_silent() {
    expect(check_command("uv", vec!["--version"]), "uv", vec!["--version"], IoMode::Silent);
}

#[test]
fn capture_command_captures() {
    expect(capture_command("tool", vec!["x", "y"]), "tool", vec!["x", "y"], IoMode::Capture);
}

#[test]
fn check_version_captures() {
    expect(check_version("python"), "python", vec!["--version"], IoMode::Capture);
    expect(check_version("uv"), "uv", vec!["--version"], IoMode::Capture);
}

#[test]
fn check_package_version_lists_packages() {
    expect(check_package_version(), "uv", vec!["run", "pip", "list"], IoMode::Capture);
}

#[test]
fn exit_status_forwards_the_code() {
    assert_eq!(exit_status("uv", Completion::Exited(0)), Ok(0));
    assert_eq!(exit_status("uv", Completion::Exited(2)), Ok(2));
    assert_eq!(exit_status("uv", Completion::Exited(-1)), Ok(-1));
    assert_eq!(exit_status("uv", Completion::Exited(i32::MAX)), Ok(i32::MAX));
    assert_eq!(exit_status("uv", Completion::Exited(i32::MIN)), Ok(i32::MIN));
}

#[test]
fn exit_status_names_the_tool_that_failed() {
    assert_eq!(
        exit_status("uv", Completion::Unavailable),
        Err(CliError::ToolNotFound("uv".to_string()))
    );
    assert_eq!(
        exit_status("python", Completion::Signalled),
        Err(CliError::ProcessTerminatedAbnormally("python".to_string()))
    );
}

#[test]
fn run_task_builds_the_inline_program() {
    expect(
        run_task("Hellfile.py", "build"),
        "uv",
        vec![
            "run",
            "python",
            "-c",
            "exec(open(\"Hellfile.py\").read()); import hellbox; hellbox.Hellbox.run_task(\"build\")",
        ],
        IoMode::Interactive,
    );
}

#[test]
fn run_inspect_builds_the_inline_program() {
    expect(
        run_inspect("Hellfile.py"),
        "uv",
        vec![
            "run",
            "python",
            "-c",
            "exec(open(\"Hellfile.py\").read()); import hellbox; hellbox.Hellbox.inspect()",
        ],
        IoMode::Interactive,
    );
}

#[test]
fn run_hellbox_commands_joins_with_semicolons() {
    expect(
        run_hellbox_commands("m.py", vec!["a()", "b()", "c()"]),
        "uv",
        vec!["run", "python", "-c", "exec(open(\"m.py\").read()); import hellbox; a(); b(); c()"],
        IoMode::Interactive,
    );
}

#[test]
fn run_hellbox_commands_without_commands() {
    expect(
        run_hellbox_commands("m.py", vec![]),
        "uv",
        vec!["run", "python", "-c", "exec(open(\"m.py\").read()); import hellbox; "],
        IoMode::Interactive,
    );
}

#[test]
fn run_task_puts_path_and_name_in_as_they_come() {
    expect(
        run_task("my dir/He\"ll.py", "a\"b"),
        "uv",
        vec![
            "run",
            "python",
            "-c",
            "exec(open(\"my dir/He\"ll.py\").read()); import hellbox; hellbox.Hellbox.run_task(\"a\"b\")",
        ],
        IoMode::Interactive,
    );
}

#[test]
fn join_edge_cases() {
    assert_eq!(join(&vec![], "; "), "");
    assert_eq!(join(&vec!["a"], "; "), "a");
    assert_eq!(join(&vec!["a", "b"], "; "), "a; b");
    assert_eq!(join(&vec!["", ""], ","), ",");
    assert_eq!(join(&vec!["a", "b", "c"], ""), "abc");
}

#[test]
fn owned_list_copies_in_order() {
    assert_eq!(owned_list(&vec!["x", "", "y z"]), vec!["x".to_string(), String::new(), "y z".to_string()]);
    assert_eq!(owned_list(&vec![]), Vec::<String>::new());
}

#[test]
fn same_text_compares_characters() {
    assert!(same_text("", ""));
    assert!(same_text("init", "init"));
    assert!(!same_text("init", "Init"));
    assert!(!same_text("init", "init "));
}

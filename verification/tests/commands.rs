use hell::application::{create_application, Subcommand};
use hell::command::ParsedCommand;
use hell::config::Environment;
use hell::error::{exit_report, CliError};

fn owned(text: &str) -> Option<String> {
    Some(text.to_string())
}

#[test]
fn select_init_ignores_argument() {
    assert_eq!(ParsedCommand::select("init", None), Ok(ParsedCommand::Init));
    assert_eq!(ParsedCommand::select("init", owned("x")), Ok(ParsedCommand::Init));
}

#[test]
fn select_install_and_add_are_one_command() {
    assert_eq!(ParsedCommand::select("install", None), Ok(ParsedCommand::Install(None)));
    assert_eq!(ParsedCommand::select("add", None), Ok(ParsedCommand::Install(None)));
    assert_eq!(
        ParsedCommand::select("install", owned("redis")),
        Ok(ParsedCommand::Install(owned("redis")))
    );
    assert_eq!(
        ParsedCommand::select("add", owned("redis")),
        Ok(ParsedCommand::Install(owned("redis")))
    );
}

#[test]
fn select_remove_keeps_the_name_or_its_absence() {
    assert_eq!(ParsedCommand::select("remove", None), Ok(ParsedCommand::Remove(None)));
    assert_eq!(
        ParsedCommand::select("remove", owned("redis")),
        Ok(ParsedCommand::Remove(owned("redis")))
    );
}

#[test]
fn select_run_keeps_the_task_or_its_absence() {
    assert_eq!(ParsedCommand::select("run", None), Ok(ParsedCommand::Run(None)));
    assert_eq!(
        ParsedCommand::select("run", owned("build")),
        Ok(ParsedCommand::Run(owned("build")))
    );
}

#[test]
fn select_the_commands_without_arguments() {
    assert_eq!(ParsedCommand::select("inspect", None), Ok(ParsedCommand::Inspect));
    assert_eq!(ParsedCommand::select("environment", None), Ok(ParsedCommand::EnvironmentInfo));
    assert_eq!(ParsedCommand::select("_postinstall", None), Ok(ParsedCommand::PostInstallCheck));
    assert_eq!(ParsedCommand::select("inspect", owned("x")), Ok(ParsedCommand::Inspect));
}

#[test]
fn select_rejects_unknown_names() {
    assert_eq!(ParsedCommand::select("", None), Err(CliError::SubcommandNotProvided));
    assert_eq!(ParsedCommand::select("build", None), Err(CliError::SubcommandNotProvided));
    assert_eq!(ParsedCommand::select("Init", None), Err(CliError::SubcommandNotProvided));
    assert_eq!(ParsedCommand::select("init ", None), Err(CliError::SubcommandNotProvided));
    assert_eq!(ParsedCommand::select("postinstall", owned("x")), Err(CliError::SubcommandNotProvided));
}

#[test]
fn application_lists_the_subcommands_in_order() {
    let application = create_application();
    assert_eq!(application.name, "hell");
    assert!(application.help_when_empty);
    assert!(application.versionless_subcommands);
    let names: Vec<&str> = application.subcommands.iter().map(|s| s.name.as_str()).collect();
    assert_eq!(
        names,
        vec!["init", "install", "add", "remove", "run", "inspect", "environment", "_postinstall"]
    );
}

#[test]
fn application_names_the_arguments() {
    let application = create_application();
    let arguments: Vec<Option<&str>> =
        application.subcommands.iter().map(|s| s.argument.as_deref()).collect();
    assert_eq!(
        arguments,
        vec![
            None,
            Some("package"),
            Some("package"),
            Some("package"),
            Some("task"),
            None,
            None,
            None
        ]
    );
}

#[test]
fn application_hides_only_the_postinstall_check() {
    let application = create_application();
    for subcommand in &application.subcommands {
        assert_eq!(subcommand.hidden, subcommand.name == "_postinstall");
        assert_eq!(subcommand.about.is_none(), subcommand.hidden);
    }
    assert_eq!(
        application.subcommands[4].about.as_deref(),
        Some("Runs a task defined in Hellbox.py.")
    );
    assert_eq!(
        application.subcommands[0].about.as_deref(),
        Some(
            "Creates an isolated environment in for installing plugins and dependencies and creates a blank Hellfile.py file within which to define tasks."
        )
    );
}

#[test]
fn every_listed_subcommand_is_selected() {
    let application = create_application();
    for subcommand in &application.subcommands {
        assert!(ParsedCommand::select(&subcommand.name, None).is_ok());
        if subcommand.argument.is_none() {
            assert_eq!(
                ParsedCommand::select(&subcommand.name, owned("x")),
                ParsedCommand::select(&subcommand.name, None)
            );
        }
    }
}

#[test]
fn subcommand_builders() {
    let shown = Subcommand::shown("run", "Runs.", Some("task"));
    assert_eq!(shown.name, "run");
    assert_eq!(shown.about.as_deref(), Some("Runs."));
    assert_eq!(shown.argument.as_deref(), Some("task"));
    assert!(!shown.hidden);
    let bare = Subcommand::shown("init", "Starts.", None);
    assert_eq!(bare.argument, None);
    let concealed = Subcommand::concealed("_x");
    assert_eq!(concealed.name, "_x");
    assert_eq!(concealed.about, None);
    assert_eq!(concealed.argument, None);
    assert!(concealed.hidden);
}

#[test]
fn environment_standard_values() {
    let environment = Environment::standard();
    assert_eq!(environment.manifest_filename, "Hellfile.py");
    assert_eq!(
        environment.hellbox_package,
        "git+git://github.com/hellboxpy/hellbox.git#egg=hellbox"
    );
}

#[test]
fn environment_new_keeps_what_it_is_given() {
    let environment = Environment::new("tasks.py", "hellbox==1.0");
    assert_eq!(environment.manifest_filename, "tasks.py");
    assert_eq!(environment.hellbox_package, "hellbox==1.0");
}

#[test]
fn error_messages() {
    assert_eq!(CliError::SubcommandNotProvided.message(), "Subcommand not provided");
    assert_eq!(CliError::PackageNameRequired.message(), "a package name is required");
    assert_eq!(CliError::ManifestMissing.message(), "No manifest file exists");
    assert_eq!(CliError::ToolNotFound("uv".to_string()).message(), "uv failed to run.");
    assert_eq!(
        CliError::ProcessTerminatedAbnormally("uv".to_string()).message(),
        "uv failed with no status code"
    );
    assert_eq!(CliError::OutputDecodeFailure.message(), "output was not valid UTF-8");
    assert_eq!(CliError::ManifestWriteFailure.message(), "Hellbox.py failed to write");
}

#[test]
fn positional_names_the_argument_of_a_subcommand() {
    let application = create_application();
    assert_eq!(application.positional("add"), Some("package"));
    assert_eq!(application.positional("install"), Some("package"));
    assert_eq!(application.positional("remove"), Some("package"));
    assert_eq!(application.positional("run"), Some("task"));
    assert_eq!(application.positional("init"), None);
    assert_eq!(application.positional("inspect"), None);
    assert_eq!(application.positional("_postinstall"), None);
    assert_eq!(application.positional("unknown"), None);
    assert_eq!(application.positional(""), None);
}

#[test]
fn exit_report_forwards_codes_and_words_failures() {
    assert_eq!(exit_report(&Ok(0)), (0, None));
    assert_eq!(exit_report(&Ok(3)), (3, None));
    assert_eq!(exit_report(&Ok(-1)), (-1, None));
    assert_eq!(
        exit_report(&Err(CliError::ManifestMissing)),
        (1, Some("No manifest file exists".to_string()))
    );
    assert_eq!(
        exit_report(&Err(CliError::ToolNotFound("uv".to_string()))),
        (1, Some("uv failed to run.".to_string()))
    );
}

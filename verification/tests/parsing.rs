use clap::{App, AppSettings, Arg, ErrorKind, SubCommand};
use hell::application::{create_application, Application};
use hell::command::ParsedCommand;
use hell::config::Environment;
use hell::error::CliError;
use hell::handlers::dispatch;
use hell::invocation::{Invocation, IoMode};
use hell::protocol::{Action, Event, Stage};

fn parser<'a>(application: &'a Application) -> App<'a, 'a> {
    let mut app = App::new(application.name.as_str()).version("1.2.3");
    for subcommand in &application.subcommands {
        let mut sub = SubCommand::with_name(subcommand.name.as_str());
        if let Some(about) = &subcommand.about {
            sub = sub.about(about.as_str());
        }
        if let Some(argument) = &subcommand.argument {
            sub = sub.arg(Arg::with_name(argument.as_str()));
        }
        if subcommand.hidden {
            sub = sub.setting(AppSettings::Hidden);
        }
        app = app.subcommand(sub);
    }
    if application.help_when_empty {
        app = app.setting(AppSettings::ArgRequiredElseHelp);
    }
    if application.versionless_subcommands {
        app = app.setting(AppSettings::VersionlessSubcommands);
    }
    app
}

fn parse(line: Vec<&str>) -> Result<ParsedCommand, CliError> {
    let application = create_application();
    let matches = parser(&application).get_matches_from_safe(line).expect("the line is accepted");
    let (name, found) = matches.subcommand();
    let argument = match (found, application.positional(name)) {
        (Some(found), Some(argument)) => found.value_of(argument).map(str::to_owned),
        _ => None,
    };
    ParsedCommand::select(name, argument)
}

fn refusal(line: Vec<&str>) -> ErrorKind {
    let application = create_application();
    let kind = parser(&application).get_matches_from_safe(line).expect_err("the line is refused").kind;
    kind
}

#[test]
fn command_line_add_redis() {
    let command = parse(vec!["hell", "add", "redis"]).unwrap();
    assert_eq!(command, ParsedCommand::Install(Some("redis".to_string())));
    let (stage, step) =
        dispatch(&Environment::standard(), "1.2.3", &command, Stage::Start, Event::Started);
    assert_eq!(stage, Stage::Delegating);
    assert_eq!(
        step.action,
        Action::Invoke(Invocation {
            program: "uv".to_string(),
            arguments: vec!["add".to_string(), "redis".to_string()],
            mode: IoMode::Interactive,
        })
    );
}

#[test]
fn command_line_of_every_subcommand() {
    assert_eq!(parse(vec!["hell", "init"]), Ok(ParsedCommand::Init));
    assert_eq!(parse(vec!["hell", "install"]), Ok(ParsedCommand::Install(None)));
    assert_eq!(
        parse(vec!["hell", "install", "redis"]),
        Ok(ParsedCommand::Install(Some("redis".to_string())))
    );
    assert_eq!(parse(vec!["hell", "add"]), Ok(ParsedCommand::Install(None)));
    assert_eq!(parse(vec!["hell", "remove"]), Ok(ParsedCommand::Remove(None)));
    assert_eq!(
        parse(vec!["hell", "remove", "redis"]),
        Ok(ParsedCommand::Remove(Some("redis".to_string())))
    );
    assert_eq!(parse(vec!["hell", "run"]), Ok(ParsedCommand::Run(None)));
    assert_eq!(parse(vec!["hell", "run", "build"]), Ok(ParsedCommand::Run(Some("build".to_string()))));
    assert_eq!(parse(vec!["hell", "inspect"]), Ok(ParsedCommand::Inspect));
    assert_eq!(parse(vec!["hell", "environment"]), Ok(ParsedCommand::EnvironmentInfo));
    assert_eq!(parse(vec!["hell", "_postinstall"]), Ok(ParsedCommand::PostInstallCheck));
}

#[test]
fn command_line_keeps_the_argument_as_one_value() {
    assert_eq!(
        parse(vec!["hell", "add", "a b;$(c) 'd'"]),
        Ok(ParsedCommand::Install(Some("a b;$(c) 'd'".to_string())))
    );
}

#[test]
fn command_line_without_subcommand_gets_the_help() {
    assert_eq!(refusal(vec!["hell"]), ErrorKind::MissingArgumentOrSubcommand);
}

#[test]
fn command_line_with_an_unknown_word_is_refused() {
    let kind = refusal(vec!["hell", "build"]);
    assert!(kind == ErrorKind::UnknownArgument || kind == ErrorKind::UnrecognizedSubcommand || kind == ErrorKind::InvalidSubcommand);
}

#[test]
fn command_line_with_too_many_arguments_is_refused() {
    assert_eq!(refusal(vec!["hell", "add", "a", "b"]), ErrorKind::UnknownArgument);
    assert_eq!(refusal(vec!["hell", "init", "a"]), ErrorKind::UnknownArgument);
}

#[test]
fn help_leaves_the_hidden_subcommand_out() {
    let application = create_application();
    let mut help = Vec::new();
    parser(&application).write_help(&mut help).unwrap();
    let help = String::from_utf8(help).unwrap();
    for subcommand in &application.subcommands {
        assert_eq!(help.contains(subcommand.name.as_str()), !subcommand.hidden);
    }
    assert!(help.contains("Runs a task defined in Hellbox.py."));
}

//! The commands the tool understands, and the grammar that names them.

use vstd::prelude::*;
use crate::error::{CliError, ErrorView};
use crate::text::{optional_text, same_text};

verus! {

/// What the user asked for.
#[derive(Debug, PartialEq, Eq)]
pub enum ParsedCommand {
    /// Set up a project: environment, task runner, manifest.
    Init,
    /// Install one package, or every declared dependency when none is named.
    Install(Option<String>),
    /// Remove one package.
    Remove(Option<String>),
    /// Run one task, the default task when none is named.
    Run(Option<String>),
    /// List the defined tasks.
    Inspect,
    /// Show the versions of the tool and of what it relies on.
    EnvironmentInfo,
    /// Look for the programs the tool needs, after it was installed.
    PostInstallCheck,
}

/// A [`ParsedCommand`] as plain text.
pub enum CommandView {
    Init,
    Install(Option<Seq<char>>),
    Remove(Option<Seq<char>>),
    Run(Option<Seq<char>>),
    Inspect,
    EnvironmentInfo,
    PostInstallCheck,
}

impl View for ParsedCommand {
    type V = CommandView;

    open spec fn view(&self) -> CommandView {
        match self {
            ParsedCommand::Init => CommandView::Init,
            ParsedCommand::Install(name) => CommandView::Install(optional_text(*name)),
            ParsedCommand::Remove(name) => CommandView::Remove(optional_text(*name)),
            ParsedCommand::Run(task) => CommandView::Run(optional_text(*task)),
            ParsedCommand::Inspect => CommandView::Inspect,
            ParsedCommand::EnvironmentInfo => CommandView::EnvironmentInfo,
            ParsedCommand::PostInstallCheck => CommandView::PostInstallCheck,
        }
    }
}

/// The command that the subcommand `name` stands for, given the one
/// positional argument that may follow it. A name that is no subcommand
/// gives `SubcommandNotProvided`; so does the empty name, which stands for
/// a command line without a subcommand.
pub open spec fn selected(name: Seq<char>, argument: Option<Seq<char>>) -> Result<
    CommandView,
    ErrorView,
> {
    if name == "init"@ {
        Ok(CommandView::Init)
    } else if name == "install"@ {
        Ok(CommandView::Install(argument))
    } else if name == "add"@ {
        Ok(CommandView::Install(argument))
    } else if name == "remove"@ {
        Ok(CommandView::Remove(argument))
    } else if name == "run"@ {
        Ok(CommandView::Run(argument))
    } else if name == "inspect"@ {
        Ok(CommandView::Inspect)
    } else if name == "environment"@ {
        Ok(CommandView::EnvironmentInfo)
    } else if name == "_postinstall"@ {
        Ok(CommandView::PostInstallCheck)
    } else {
        Err(ErrorView::SubcommandNotProvided)
    }
}

/// The view of a selection.
pub open spec fn selection_view(selection: Result<ParsedCommand, CliError>) -> Result<
    CommandView,
    ErrorView,
> {
    match selection {
        Ok(command) => Ok(command@),
        Err(error) => Err(error@),
    }
}

impl ParsedCommand {
    /// The command that the subcommand `name` stands for, with the
    /// positional argument that followed it, if one did.
    pub fn select(name: &str, argument: Option<String>) -> (selection: Result<
        ParsedCommand,
        CliError,
    >)
        ensures
            selection_view(selection) == selected(name@, optional_text(argument)),
    {
        if same_text(name, "init") {
            Ok(ParsedCommand::Init)
        } else if same_text(name, "install") {
            Ok(ParsedCommand::Install(argument))
        } else if same_text(name, "add") {
            Ok(ParsedCommand::Install(argument))
        } else if same_text(name, "remove") {
            Ok(ParsedCommand::Remove(argument))
        } else if same_text(name, "run") {
            Ok(ParsedCommand::Run(argument))
        } else if same_text(name, "inspect") {
            Ok(ParsedCommand::Inspect)
        } else if same_text(name, "environment") {
            Ok(ParsedCommand::EnvironmentInfo)
        } else if same_text(name, "_postinstall") {
            Ok(ParsedCommand::PostInstallCheck)
        } else {
            Err(CliError::SubcommandNotProvided)
        }
    }
}

/// What each subcommand selects: `install` and `add` are one command,
/// and only `install`, `add`, `remove` and `run` keep the argument.
pub proof fn lemma_subcommands_select(argument: Option<Seq<char>>)
    ensures
        selected("init"@, argument) == Ok::<CommandView, ErrorView>(CommandView::Init),
        selected("install"@, argument) == Ok::<CommandView, ErrorView>(
            CommandView::Install(argument),
        ),
        selected("add"@, argument) == Ok::<CommandView, ErrorView>(CommandView::Install(argument)),
        selected("remove"@, argument) == Ok::<CommandView, ErrorView>(
            CommandView::Remove(argument),
        ),
        selected("run"@, argument) == Ok::<CommandView, ErrorView>(CommandView::Run(argument)),
        selected("inspect"@, argument) == Ok::<CommandView, ErrorView>(CommandView::Inspect),
        selected("environment"@, argument) == Ok::<CommandView, ErrorView>(
            CommandView::EnvironmentInfo,
        ),
        selected("_postinstall"@, argument) == Ok::<CommandView, ErrorView>(
            CommandView::PostInstallCheck,
        ),
        selected(""@, argument) == Err::<CommandView, ErrorView>(ErrorView::SubcommandNotProvided),
{
    reveal_strlit("init");
    reveal_strlit("install");
    reveal_strlit("add");
    reveal_strlit("remove");
    reveal_strlit("run");
    reveal_strlit("inspect");
    reveal_strlit("environment");
    reveal_strlit("_postinstall");
    reveal_strlit("");
    assert("init"@.len() == 4 && "add"@.len() == 3 && "run"@.len() == 3 && ""@.len() == 0);
    assert("install"@.len() == 7 && "inspect"@.len() == 7 && "remove"@.len() == 6);
    assert("environment"@.len() == 11 && "_postinstall"@.len() == 12);
    assert("add"@[0] != "run"@[0]);
    assert("install"@[3] != "inspect"@[3]);
}

} // verus!

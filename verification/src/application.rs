//! The command-line grammar: which subcommands exist and what each takes.

use vstd::prelude::*;
use vstd::string::StringExecFns;
use crate::command::selected;
use crate::text::{optional_slice, optional_text, same_text};

verus! {

/// One subcommand of the command line.
#[derive(Debug, PartialEq, Eq)]
pub struct Subcommand {
    /// The word that selects it.
    pub name: String,
    /// The sentence shown for it in the help text.
    pub about: Option<String>,
    /// The name of the one optional positional argument, if it takes one.
    pub argument: Option<String>,
    /// Whether the help text leaves it out.
    pub hidden: bool,
}

/// A [`Subcommand`] as plain text.
pub struct SubcommandView {
    pub name: Seq<char>,
    pub about: Option<Seq<char>>,
    pub argument: Option<Seq<char>>,
    pub hidden: bool,
}

impl View for Subcommand {
    type V = SubcommandView;

    open spec fn view(&self) -> SubcommandView {
        SubcommandView {
            name: self.name@,
            about: optional_text(self.about),
            argument: optional_text(self.argument),
            hidden: self.hidden,
        }
    }
}

/// The whole command line of the tool.
#[derive(Debug, PartialEq, Eq)]
pub struct Application {
    /// The name of the program.
    pub name: String,
    /// Its subcommands, in the order the help text shows them.
    pub subcommands: Vec<Subcommand>,
    /// Whether a command line without arguments gets the help text.
    pub help_when_empty: bool,
    /// Whether subcommands do without a version flag of their own.
    pub versionless_subcommands: bool,
}

/// An [`Application`] as plain text.
pub struct ApplicationView {
    pub name: Seq<char>,
    pub subcommands: Seq<SubcommandView>,
    pub help_when_empty: bool,
    pub versionless_subcommands: bool,
}

impl View for Application {
    type V = ApplicationView;

    open spec fn view(&self) -> ApplicationView {
        ApplicationView {
            name: self.name@,
            subcommands: Seq::new(self.subcommands.len() as nat, |i: int| self.subcommands[i]@),
            help_when_empty: self.help_when_empty,
            versionless_subcommands: self.versionless_subcommands,
        }
    }
}

/// A subcommand that the help text shows, with its sentence.
pub open spec fn shown(name: Seq<char>, about: Seq<char>, argument: Option<Seq<char>>)
    -> SubcommandView {
    SubcommandView { name, about: Some(about), argument, hidden: false }
}

/// A subcommand that the help text leaves out.
pub open spec fn concealed(name: Seq<char>) -> SubcommandView {
    SubcommandView { name, about: None, argument: None, hidden: true }
}

/// The subcommands of the tool.
pub open spec fn subcommands() -> Seq<SubcommandView> {
    seq![
        shown(
            "init"@,
            "Creates an isolated environment in for installing plugins and dependencies and creates a blank Hellfile.py file within which to define tasks."@,
            None,
        ),
        shown(
            "install"@,
            "Installs all dependencies from the pyproject.toml file."@,
            Some("package"@),
        ),
        shown("add"@, "Installs a package and freezes dependencies."@, Some("package"@)),
        shown("remove"@, "Uninstalls a package and freezes dependencies."@, Some("package"@)),
        shown("run"@, "Runs a task defined in Hellbox.py."@, Some("task"@)),
        shown("inspect"@, "View the defined tasks and their processes."@, None),
        shown("environment"@, "Prints information about the local environment."@, None),
        concealed("_postinstall"@),
    ]
}

/// The command line of the tool: the program `hell` with its subcommands;
/// without arguments it shows its help.
pub open spec fn grammar() -> ApplicationView {
    ApplicationView {
        name: "hell"@,
        subcommands: subcommands(),
        help_when_empty: true,
        versionless_subcommands: true,
    }
}

/// The name of the positional argument that the first subcommand called
/// `name` takes, if `list` has such a subcommand and it takes one.
pub open spec fn positional_of(list: Seq<SubcommandView>, name: Seq<char>) -> Option<Seq<char>>
    decreases list.len(),
{
    if list.len() == 0 {
        None
    } else if list[0].name == name {
        list[0].argument
    } else {
        positional_of(list.skip(1), name)
    }
}

impl Application {
    /// The name of the positional argument that the subcommand `name`
    /// takes, if there is such a subcommand and it takes one.
    pub fn positional(&self, name: &str) -> (argument: Option<&str>)
        ensures
            optional_slice(argument) == positional_of(self@.subcommands, name@),
    {
        let mut at: usize = 0;
        assert(self@.subcommands.skip(0) =~= self@.subcommands);
        while at < self.subcommands.len()
            invariant
                at <= self.subcommands.len(),
                positional_of(self@.subcommands.skip(at as int), name@) == positional_of(
                    self@.subcommands,
                    name@,
                ),
            decreases self.subcommands.len() - at,
        {
            let subcommand = &self.subcommands[at];
            assert(self@.subcommands.skip(at as int)[0] == subcommand@);
            if same_text(subcommand.name.as_str(), name) {
                return crate::text::borrowed(&subcommand.argument);
            }
            assert(self@.subcommands.skip(at as int).skip(1) =~= self@.subcommands.skip(at + 1));
            at += 1;
        }
        None
    }
}

impl Subcommand {
    /// A subcommand that the help text shows with the sentence `about`.
    pub fn shown(name: &str, about: &str, argument: Option<&str>) -> (subcommand: Subcommand)
        ensures
            subcommand@ == shown(name@, about@, optional_slice(argument)),
    {
        let argument = match argument {
            Some(argument) => Some(String::from_str(argument)),
            None => None,
        };
        Subcommand {
            name: String::from_str(name),
            about: Some(String::from_str(about)),
            argument,
            hidden: false,
        }
    }

    /// A subcommand that the help text leaves out.
    pub fn concealed(name: &str) -> (subcommand: Subcommand)
        ensures
            subcommand@ == concealed(name@),
    {
        Subcommand { name: String::from_str(name), about: None, argument: None, hidden: true }
    }
}

/// The command line of the tool.
pub fn create_application() -> (application: Application)
    ensures
        application@ == grammar(),
{
    let init = Subcommand::shown(
        "init",
        "Creates an isolated environment in for installing plugins and dependencies and creates a blank Hellfile.py file within which to define tasks.",
        None,
    );
    let install = Subcommand::shown(
        "install",
        "Installs all dependencies from the pyproject.toml file.",
        Some("package"),
    );
    let add = Subcommand::shown(
        "add",
        "Installs a package and freezes dependencies.",
        Some("package"),
    );
    let remove = Subcommand::shown(
        "remove",
        "Uninstalls a package and freezes dependencies.",
        Some("package"),
    );
    let run = Subcommand::shown("run", "Runs a task defined in Hellbox.py.", Some("task"));
    let inspect = Subcommand::shown(
        "inspect",
        "View the defined tasks and their processes.",
        None,
    );
    let environment = Subcommand::shown(
        "environment",
        "Prints information about the local environment.",
        None,
    );
    let postinstall = Subcommand::concealed("_postinstall");
    let mut list: Vec<Subcommand> = Vec::new();
    list.push(init);
    list.push(install);
    list.push(add);
    list.push(remove);
    list.push(run);
    list.push(inspect);
    list.push(environment);
    list.push(postinstall);
    let application = Application {
        name: String::from_str("hell"),
        subcommands: list,
        help_when_empty: true,
        versionless_subcommands: true,
    };
    assert(application@.subcommands =~= subcommands());
    application
}

/// The grammar and the router know the same subcommands: a name selects a
/// command exactly when the grammar lists it.
pub proof fn lemma_grammar_lists_what_is_selected(name: Seq<char>, argument: Option<Seq<char>>)
    ensures
        selected(name, argument) is Ok <==> exists|i: int|
            0 <= i < subcommands().len() && (#[trigger] subcommands()[i]).name == name,
{
    let list = subcommands();
    if selected(name, argument) is Ok {
        let at: int = if name == "init"@ {
            0
        } else if name == "install"@ {
            1
        } else if name == "add"@ {
            2
        } else if name == "remove"@ {
            3
        } else if name == "run"@ {
            4
        } else if name == "inspect"@ {
            5
        } else if name == "environment"@ {
            6
        } else {
            7
        };
        assert(0 <= at < list.len() && list[at].name == name);
    }
}

/// A subcommand for which the grammar names no argument selects the same
/// command whatever argument comes with it.
pub proof fn lemma_unnamed_argument_is_ignored(index: int, argument: Option<Seq<char>>)
    requires
        0 <= index < subcommands().len(),
        subcommands()[index].argument is None,
    ensures
        selected(subcommands()[index].name, argument) == selected(
            subcommands()[index].name,
            None,
        ),
{
    crate::command::lemma_subcommands_select(argument);
    crate::command::lemma_subcommands_select(None);
}

} // verus!

//! Command routing for `hell`, a front-end that hands dependency and task
//! management to the `uv` environment manager and the `hellbox` task runner.
//!
//! The crate decides; it never touches a process or a file. A caller asks
//! [`dispatch`] what to do for a parsed command, performs the request it is
//! given, reports what happened as an [`Event`], and repeats until the
//! session finishes.

pub mod application;
pub mod command;
pub mod config;
pub mod error;
pub mod handlers;
pub mod invocation;
pub mod listing;
pub mod paint;
pub mod probe;
pub mod protocol;
pub mod runs;
pub mod script;
pub mod session;
pub mod text;

pub use application::{create_application, Application, Subcommand};
pub use command::ParsedCommand;
pub use config::Environment;
pub use error::{exit_report, CliError};
pub use handlers::{
    create_manifest, dispatch, handle_add, handle_environment, handle_init, handle_inspect,
    handle_install, handle_postinstall, handle_remove, handle_run,
};
pub use invocation::{
    capture_command, check_command, check_version, create_project, exit_status,
    install_dependencies, install_package, run_command, uninstall_package, Completion,
    Invocation, IoMode,
};
pub use probe::{
    captured_text, check_package_version, decode_output, package_version, version_text, Captured,
};
pub use protocol::{Action, Event, Line, Stage, Step, Stream};
pub use script::{run_hellbox_commands, run_inspect, run_task};
pub use session::replay;

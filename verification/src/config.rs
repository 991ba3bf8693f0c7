//! The fixed configuration every operation receives.

use vstd::prelude::*;
use vstd::string::StringExecFns;

verus! {

/// The two strings that stay fixed for a whole invocation.
#[derive(Debug, PartialEq, Eq)]
pub struct Environment {
    /// Path of the task-definition script.
    pub manifest_filename: String,
    /// Locator of the task-runner library installed by `init`.
    pub hellbox_package: String,
}

/// An [`Environment`] as plain text.
pub struct EnvironmentView {
    pub manifest_filename: Seq<char>,
    pub hellbox_package: Seq<char>,
}

impl View for Environment {
    type V = EnvironmentView;

    open spec fn view(&self) -> EnvironmentView {
        EnvironmentView {
            manifest_filename: self.manifest_filename@,
            hellbox_package: self.hellbox_package@,
        }
    }
}

/// The manifest path used when nothing else is configured.
pub open spec fn standard_manifest() -> Seq<char> {
    "Hellfile.py"@
}

/// The task-runner locator used when nothing else is configured.
pub open spec fn standard_package() -> Seq<char> {
    "git+git://github.com/hellboxpy/hellbox.git#egg=hellbox"@
}

impl Environment {
    /// A configuration with the given manifest path and package locator.
    pub fn new(manifest_filename: &str, hellbox_package: &str) -> (environment: Environment)
        ensures
            environment@.manifest_filename == manifest_filename@,
            environment@.hellbox_package == hellbox_package@,
    {
        Environment {
            manifest_filename: String::from_str(manifest_filename),
            hellbox_package: String::from_str(hellbox_package),
        }
    }

    /// The configuration the command-line tool starts with.
    pub fn standard() -> (environment: Environment)
        ensures
            environment@.manifest_filename == standard_manifest(),
            environment@.hellbox_package == standard_package(),
    {
        Environment::new(
            "Hellfile.py",
            "git+git://github.com/hellboxpy/hellbox.git#egg=hellbox",
        )
    }
}

} // verus!

//! The compiler driver.

use crate::program::Command;
use crate::program::Program;
use crate::program::texts;
use vstd::prelude::*;
use vstd::string::*;

verus! {

/// The compiler driver.
#[derive(Debug, Clone, Copy, PartialEq, Eq, Structural)]
pub struct Cargo;

impl Program for Cargo {
    open spec fn executable() -> Seq<char> {
        "cargo"@
    }

    open spec fn fallbacks() -> Seq<Seq<char>> {
        Seq::empty()
    }

    fn executable_name() -> (name: &'static str) {
        assert(Self::executable() == "cargo"@);
        "cargo"
    }

    fn executable_name_fallback() -> (names: Vec<&'static str>) {
        Vec::new()
    }

    open spec fn directory(&self) -> Option<Seq<char>> {
        None
    }

    fn current_directory(&self) -> (dir: Option<String>) {
        None
    }
}

impl Default for Cargo {
    fn default() -> (cargo: Self) {
        Cargo
    }
}

/// An option of a call of the compiler driver that selects what the call
/// is about.
#[derive(Debug)]
pub enum Options {
    /// All packages of the workspace.
    Workspace,
    /// The package of the given name.
    Package(String),
    /// All targets of the selected packages.
    AllTargets,
}

impl Options {
    /// The arguments that state the option.
    pub open spec fn arguments(self) -> Seq<Seq<char>> {
        match self {
            Options::Workspace => seq!["--workspace"@],
            Options::Package(name) => seq!["--package"@, name@],
            Options::AllTargets => seq!["--all-targets"@],
        }
    }

    /// Adds the arguments that state the option to a call.
    pub fn apply(&self, command: Command) -> (applied: Command)
        ensures
            applied.program == command.program,
            applied.current_dir == command.current_dir,
            texts(applied.args@) == texts(command.args@) + self.arguments(),
    {
        let applied = match self {
            Options::Workspace => command.arg("--workspace"),
            Options::Package(name) => command.arg("--package").arg(name.as_str()),
            Options::AllTargets => command.arg("--all-targets"),
        };
        assert(texts(applied.args@) =~= texts(command.args@) + self.arguments());
        applied
    }
}

} // verus!

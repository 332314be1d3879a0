//! The JavaScript runtime and its package manager.

use crate::program::Command;
use crate::program::Program;
use crate::program::ProgramExt;
use crate::program::texts;
use vstd::prelude::*;
use vstd::string::*;

verus! {

/// The JavaScript runtime.
#[derive(Debug, Clone, Copy, PartialEq, Eq, Structural)]
pub struct Node;

impl Program for Node {
    open spec fn executable() -> Seq<char> {
        "node"@
    }

    open spec fn fallbacks() -> Seq<Seq<char>> {
        Seq::empty()
    }

    fn executable_name() -> (name: &'static str) {
        assert(Self::executable() == "node"@);
        "node"
    }

    fn executable_name_fallback() -> (names: Vec<&'static str>) {
        Vec::new()
    }

    open spec fn directory(&self) -> Option<Seq<char>> {
        None
    }

    fn current_directory(&self) -> (dir: Option<String>) {
        None
    }
}

impl Default for Node {
    fn default() -> (node: Self) {
        Node
    }
}

/// A call of the package manager.
#[derive(Debug)]
pub struct NpmCommand(pub Command);

impl NpmCommand {
    /// Asks for the packages to be installed.
    pub fn install(&mut self)
        ensures
            texts(final(self).0.args@) == texts(old(self).0.args@).push("install"@),
            final(self).0.program == old(self).0.program,
            final(self).0.current_dir == old(self).0.current_dir,
    {
        self.0.args.push(String::from_str("install"));
        assert(texts(self.0.args@) =~= texts(old(self).0.args@).push("install"@));
    }

    /// Limits the call to one workspace.
    pub fn workspace(&mut self, workspace: &str)
        ensures
            texts(final(self).0.args@) == texts(old(self).0.args@).push("--workspace"@).push(
                workspace@,
            ),
            final(self).0.program == old(self).0.program,
            final(self).0.current_dir == old(self).0.current_dir,
    {
        self.0.args.push(String::from_str("--workspace"));
        self.0.args.push(String::from_str(workspace));
        assert(texts(self.0.args@) =~= texts(old(self).0.args@).push("--workspace"@).push(
            workspace@,
        ));
    }

    /// Asks for a script of the package to be run with the given
    /// arguments.
    pub fn run(&mut self, script_name: &str, args: Vec<String>)
        ensures
            texts(final(self).0.args@) == texts(old(self).0.args@).push("run"@).push(script_name@)
                + texts(args@),
            final(self).0.program == old(self).0.program,
            final(self).0.current_dir == old(self).0.current_dir,
    {
        self.0.args.push(String::from_str("run"));
        self.0.args.push(String::from_str(script_name));
        let ghost given = args@;
        let mut args = args;
        self.0.args.append(&mut args);
        assert(texts(self.0.args@) =~= texts(old(self).0.args@).push("run"@).push(script_name@)
            + texts(given));
    }
}

/// The package manager.
#[derive(Debug, Clone, Copy, PartialEq, Eq, Structural)]
pub struct Npm;

impl Program for Npm {
    open spec fn executable() -> Seq<char> {
        "npm"@
    }

    open spec fn fallbacks() -> Seq<Seq<char>> {
        Seq::empty()
    }

    fn executable_name() -> (name: &'static str) {
        assert(Self::executable() == "npm"@);
        "npm"
    }

    fn executable_name_fallback() -> (names: Vec<&'static str>) {
        Vec::new()
    }

    open spec fn directory(&self) -> Option<Seq<char>> {
        None
    }

    fn current_directory(&self) -> (dir: Option<String>) {
        None
    }
}

impl Default for Npm {
    fn default() -> (npm: Self) {
        Npm
    }
}

impl Npm {
    /// The call that installs the packages of the project at `path`, made
    /// of the package manager that was found at `program_path`.
    pub fn install(&self, program_path: &str, path: &str) -> (command: NpmCommand)
        ensures
            command.0.program@ == program_path@,
            texts(command.0.args@) == seq!["install"@],
            command.0.current_dir matches Some(dir) && dir@ == path@,
    {
        let command = self.cmd(program_path).arg("install").current_dir(path);
        assert(texts(command.args@) =~= seq!["install"@]);
        NpmCommand(command)
    }
}

} // verus!

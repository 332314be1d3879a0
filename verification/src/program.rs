//! External programs that the engine runs: how they are named, looked for
//! and called.

use crate::version::find_in_text;
use crate::version::found_in_text;
use crate::version::Version;
use crate::version::VersionError;
use vstd::prelude::*;
use vstd::string::*;

verus! {

/// A call of a program: the program, its arguments, and the directory it
/// runs in where that is not the current one.
#[derive(Debug)]
pub struct Command {
    pub program: String,
    pub args: Vec<String>,
    pub current_dir: Option<String>,
}

/// The arguments of a call, as plain texts.
pub open spec fn texts(args: Seq<String>) -> Seq<Seq<char>> {
    args.map_values(|arg: String| arg@)
}

impl Command {
    /// A call of the program at `program`, without arguments.
    pub fn new(program: &str) -> (command: Self)
        ensures
            command.program@ == program@,
            command.args@.len() == 0,
            command.current_dir is None,
    {
        Command { program: String::from_str(program), args: Vec::new(), current_dir: None }
    }

    /// The call with one more argument.
    pub fn arg(self, arg: &str) -> (command: Self)
        ensures
            command.program == self.program,
            command.current_dir == self.current_dir,
            texts(command.args@) == texts(self.args@).push(arg@),
    {
        let mut command = self;
        command.args.push(String::from_str(arg));
        assert(texts(command.args@) =~= texts(self.args@).push(arg@));
        command
    }

    /// The call with more arguments, which come behind those that are
    /// there.
    pub fn args(self, args: Vec<String>) -> (command: Self)
        ensures
            command.program == self.program,
            command.current_dir == self.current_dir,
            command.args@ == self.args@ + args@,
            texts(command.args@) == texts(self.args@) + texts(args@),
    {
        let mut command = self;
        let mut more = args;
        command.args.append(&mut more);
        assert(texts(command.args@) =~= texts(self.args@) + texts(args@));
        command
    }

    /// The call, made in the given directory.
    pub fn current_dir(self, dir: &str) -> (command: Self)
        ensures
            command.program == self.program,
            command.args == self.args,
            command.current_dir matches Some(d) && d@ == dir@,
    {
        let mut command = self;
        command.current_dir = Some(String::from_str(dir));
        command
    }
}

/// Why a program cannot be used.
#[derive(Debug)]
pub enum ProgramError {
    /// What the program printed of its version names no version.
    NoVersion,
    /// The program is there in another version than the required one.
    WrongVersion { required: Version, found: Version },
    /// The program ended with a failure; the code it ended with, if any.
    Failed(Option<i32>),
}

/// The arguments of a call without arguments.
pub const EMPTY_ARGS: [&'static str; 0] = [];

/// A set of utilities for using a known external program.
///
/// The trait covers the names under which a program is looked up and the
/// calls that are made of it.
pub trait Program: Sized {
    /// The name used to find and invoke the program.
    spec fn executable() -> Seq<char>;

    /// The other names under which the program may be found.
    spec fn fallbacks() -> Seq<Seq<char>>;

    /// The name used to find and invoke the program.
    ///
    /// This should just the stem name, not a full path. The os-specific
    /// executable extension should be skipped.
    fn executable_name() -> (name: &'static str)
        ensures
            name@ == Self::executable(),
    ;

    /// If program can be found under more than one name, additional names
    /// are provided.
    fn executable_name_fallback() -> (names: Vec<&'static str>)
        ensures
            names@.len() == Self::fallbacks().len(),
            forall|i: int| 0 <= i < names@.len() ==> (#[trigger] names@[i])@ == Self::fallbacks()[i],
    ;

    /// Directories in which the program is looked for besides those of the
    /// search path. A program that names none of its own is looked for in
    /// the search path alone.
    fn default_locations(&self) -> (locations: Vec<String>)
        default_ensures
            locations@ == Seq::<String>::empty(),
    {
        Vec::new()
    }

    /// The name of the program for the user. A program that names none of
    /// its own goes by the name of its executable.
    fn pretty_name() -> (name: &'static str)
        default_ensures
            name@ == Self::executable(),
    {
        Self::executable_name()
    }

    /// The directory in which the program is to run, if it matters.
    spec fn directory(&self) -> Option<Seq<char>>;

    /// The directory in which the program is to run, if it matters.
    fn current_directory(&self) -> (dir: Option<String>)
        ensures
            match dir {
                Some(dir) => self.directory() == Some(dir@),
                None => self.directory() is None,
            },
    ;

    /// Retrieve semver-compatible version from the text that the program
    /// prints of its version. A program that has no reading of its own has
    /// the first word of the text that reads as a version taken for it.
    fn parse_version(&self, version_text: &str) -> (version: Result<Version, VersionError>)
        default_ensures
            found_in_text(version_text@, version),
    {
        find_in_text(version_text)
    }
}

/// What every program has on top of what it says of itself.
pub trait ProgramExt: Program {
    /// All names under which the program is looked for: the primary name
    /// first, then the others.
    fn executable_names() -> (names: Vec<&'static str>)
        ensures
            names@.len() == 1 + Self::fallbacks().len(),
            names@[0]@ == Self::executable(),
            forall|i: int|
                0 <= i < Self::fallbacks().len() ==> (#[trigger] names@[i + 1])@
                    == Self::fallbacks()[i],
    {
        let mut names: Vec<&'static str> = Vec::new();
        names.push(Self::executable_name());
        let mut more = Self::executable_name_fallback();
        let ghost others = more@;
        names.append(&mut more);
        assert forall|i: int| 0 <= i < Self::fallbacks().len() implies (#[trigger] names@[i + 1])@
            == Self::fallbacks()[i] by {
            assert(names@[i + 1] == others[i]);
        }
        names
    }

    /// The call of the program that was found at `program_path`: in the
    /// program's directory, if it has one.
    fn cmd(&self, program_path: &str) -> (command: Command)
        ensures
            command.program@ == program_path@,
            command.args@.len() == 0,
            match command.current_dir {
                Some(dir) => self.directory() == Some(dir@),
                None => self.directory() is None,
            },
    {
        let command = Command::new(program_path);
        match self.current_directory() {
            Some(dir) => command.current_dir(dir.as_str()),
            None => command,
        }
    }

    /// The call of the program with the given arguments.
    fn args(&self, program_path: &str, args: Vec<String>) -> (command: Command)
        ensures
            command.program@ == program_path@,
            command.args@ == args@,
            match command.current_dir {
                Some(dir) => self.directory() == Some(dir@),
                None => self.directory() is None,
            },
    {
        let command = self.cmd(program_path).args(args);
        assert(command.args@ =~= args@);
        command
    }

    /// The call that makes the program print its version.
    fn version_command(&self, program_path: &str) -> (command: Command)
        ensures
            command.program@ == program_path@,
            texts(command.args@) == seq!["--version"@],
            match command.current_dir {
                Some(dir) => self.directory() == Some(dir@),
                None => self.directory() is None,
            },
    {
        let command = self.cmd(program_path).arg("--version");
        assert(texts(command.args@) =~= seq!["--version"@]);
        command
    }
}

impl<T: Program> ProgramExt for T {

}

/// Takes the end of a program in: it is well if the program ended with a
/// success.
pub fn handle_exit_status(success: bool, code: Option<i32>) -> (result: Result<(), ProgramError>)
    ensures
        success ==> result is Ok,
        !success ==> (result matches Err(ProgramError::Failed(c)) && c == code),
{
    if success {
        Ok(())
    } else {
        Err(ProgramError::Failed(code))
    }
}

/// Whether two versions are the same in all their parts.
pub fn same_version(a: &Version, b: &Version) -> (same: bool)
    ensures
        same == (a.parts() == b.parts()),
{
    a.major == b.major && a.minor == b.minor && a.patch == b.patch && crate::text::same_text(
        a.pre.as_str(),
        b.pre.as_str(),
    ) && crate::text::same_text(a.build.as_str(), b.build.as_str())
}

/// Checks what a program printed of its version against the version that
/// is required: the first version in the text has to be that version.
pub fn require_present_at(version_text: &str, required_version: &Version) -> (result: Result<
    (),
    ProgramError,
>)
    ensures
        exists|found: Result<Version, VersionError>| #[trigger]
            found_in_text(version_text@, found) && match found {
                Err(_) => result matches Err(ProgramError::NoVersion),
                Ok(found) => if found.parts() == required_version.parts() {
                    result is Ok
                } else {
                    (result matches Err(ProgramError::WrongVersion { required, found: other })
                        && required == *required_version && other == found)
                },
            },
{
    let found = find_in_text(version_text);
    let ghost seen = found;
    let result = match found {
        Err(_) => Err(ProgramError::NoVersion),
        Ok(found) => if same_version(&found, required_version) {
            Ok(())
        } else {
            Err(ProgramError::WrongVersion { required: required_version.clone(), found })
        },
    };
    assert(found_in_text(version_text@, seen));
    result
}

} // verus!

//! The configuration of a build: what is required of the tools and of the
//! result.

use crate::version::semver_matches;
use crate::version::semver_requirement;
use crate::version::Version;
use crate::version::VersionReq;
use vstd::prelude::*;
use vstd::string::*;

verus! {

/// A program that the configuration has requirements on.
#[derive(Debug)]
pub enum RecognizedProgram {
    /// A program that is known by its name only.
    Other(String),
}

impl Clone for RecognizedProgram {
    fn clone(&self) -> (copy: Self)
        ensures
            copy == *self,
    {
        match self {
            RecognizedProgram::Other(name) => RecognizedProgram::Other(name.clone()),
        }
    }
}

impl RecognizedProgram {
    /// The program of a given name.
    pub fn from_str(name: &str) -> (program: Self)
        ensures
            program matches RecognizedProgram::Other(n) && n@ == name@,
    {
        RecognizedProgram::Other(String::from_str(name))
    }

    /// The name under which the program is looked for.
    pub fn name(&self) -> (name: &str)
        ensures
            *self matches RecognizedProgram::Other(n) && name@ == n@,
    {
        match self {
            RecognizedProgram::Other(name) => name.as_str(),
        }
    }
}

/// The configuration as it is written.
#[derive(Debug)]
pub struct ConfigRaw {
    pub wasm_size_limit: Option<String>,
    /// For each program its requirement, in the order in which they are
    /// written.
    pub required_versions: Vec<(String, String)>,
}

impl Default for ConfigRaw {
    fn default() -> (raw: Self)
        ensures
            raw.wasm_size_limit is None,
            raw.required_versions@.len() == 0,
    {
        ConfigRaw { wasm_size_limit: None, required_versions: Vec::new() }
    }
}

/// The configuration as it is used.
#[derive(Debug)]
pub struct Config {
    /// The largest size, in bytes, that the web module may have.
    pub wasm_size_limit: Option<u64>,
    pub required_versions: Vec<(RecognizedProgram, VersionReq)>,
}

impl Default for Config {
    fn default() -> (config: Self)
        ensures
            config.wasm_size_limit is None,
            config.required_versions@.len() == 0,
    {
        Config { wasm_size_limit: None, required_versions: Vec::new() }
    }
}

/// Why a configuration is refused.
#[derive(Debug)]
pub enum ConfigError {
    /// The requirement on the program at this place is no requirement on
    /// versions.
    InvalidRequirement(usize),
    /// The size limit is no size.
    InvalidSize,
    /// A program was found in a version that does not fulfill its
    /// requirement.
    Unfulfilled { program: RecognizedProgram, found: Version, required: VersionReq },
    /// There is not one version for each requirement.
    VersionsMissing,
}

/// What `byte_unit::Byte::from_str` makes of a text: the number of bytes,
/// or `None` where it rejects the text.
pub uninterp spec fn byte_size(text: Seq<char>) -> Option<u64>;

/// Calls `byte_unit::Byte::from_str` and takes the number of bytes of what
/// it read.
#[verifier::external_body]
fn parse_byte_size(text: &str) -> (size: Option<u64>)
    ensures
        size == byte_size(text@),
{
    match <byte_unit::Byte as std::str::FromStr>::from_str(text) {
        Ok(size) => Some(size.as_u64()),
        Err(_) => None,
    }
}

/// What a written configuration is read as: the first requirement that is
/// no requirement on versions refuses it, then a size limit that is no
/// size; else each program has the requirement that was written for it,
/// in the same order, and the size limit is counted in bytes.
pub open spec fn read_as(raw: ConfigRaw, config: Result<Config, ConfigError>) -> bool {
    match config {
        Err(ConfigError::InvalidRequirement(at)) => {
            &&& at < raw.required_versions@.len()
            &&& !semver_requirement(raw.required_versions@[at as int].1@)
            &&& forall|j: int| 0 <= j < at ==> semver_requirement(#[trigger] raw.required_versions@[j].1@)
        },
        Err(ConfigError::InvalidSize) => {
            &&& forall|j: int|
                0 <= j < raw.required_versions@.len() ==> semver_requirement(
                    #[trigger] raw.required_versions@[j].1@,
                )
            &&& raw.wasm_size_limit matches Some(text)
            &&& byte_size(text@) is None
        },
        Err(_) => false,
        Ok(config) => {
            &&& config.required_versions@.len() == raw.required_versions@.len()
            &&& forall|j: int|
                0 <= j < raw.required_versions@.len() ==> {
                    &&& semver_requirement(#[trigger] raw.required_versions@[j].1@)
                    &&& config.required_versions@[j].1@ == raw.required_versions@[j].1@
                    &&& config.required_versions@[j].0 matches RecognizedProgram::Other(name)
                    &&& name@ == raw.required_versions@[j].0@
                }
            &&& match raw.wasm_size_limit {
                None => config.wasm_size_limit is None,
                Some(text) => byte_size(text@) is Some && config.wasm_size_limit == byte_size(text@),
            }
        },
    }
}

impl Config {
    /// Reads a written configuration.
    pub fn try_from(value: ConfigRaw) -> (config: Result<Self, ConfigError>)
        ensures
            read_as(value, config),
    {
        let mut required_versions: Vec<(RecognizedProgram, VersionReq)> = Vec::new();
        let mut i: usize = 0;
        while i < value.required_versions.len()
            invariant
                i <= value.required_versions@.len(),
                required_versions@.len() == i,
                forall|j: int|
                    0 <= j < i ==> {
                        &&& semver_requirement(#[trigger] value.required_versions@[j].1@)
                        &&& required_versions@[j].1@ == value.required_versions@[j].1@
                        &&& required_versions@[j].0 matches RecognizedProgram::Other(name)
                        &&& name@ == value.required_versions@[j].0@
                    },
            decreases value.required_versions.len() - i,
        {
            let program = RecognizedProgram::from_str(value.required_versions[i].0.as_str());
            match VersionReq::parse(value.required_versions[i].1.as_str()) {
                Ok(requirement) => {
                    required_versions.push((program, requirement));
                },
                Err(_) => {
                    return Err(ConfigError::InvalidRequirement(i));
                },
            }
            i += 1;
        }
        let wasm_size_limit = match &value.wasm_size_limit {
            None => None,
            Some(text) => match parse_byte_size(text.as_str()) {
                Some(size) => Some(size),
                None => {
                    return Err(ConfigError::InvalidSize);
                },
            },
        };
        Ok(Config { wasm_size_limit, required_versions })
    }

    /// Checks the version in which a program was found against the
    /// requirement on it.
    pub fn check_program(program: &RecognizedProgram, required: &VersionReq, found: &Version) -> (checked:
        Result<(), ConfigError>)
        ensures
            match checked {
                Ok(_) => semver_matches(required@, found.parts()) == Some(true),
                Err(ConfigError::Unfulfilled { program: p, found: f, required: r }) => {
                    &&& semver_matches(required@, found.parts()) != Some(true)
                    &&& p == *program
                    &&& f == *found
                    &&& r@ == required@
                },
                Err(_) => false,
            },
    {
        if required.matches(found) {
            Ok(())
        } else {
            Err(
                ConfigError::Unfulfilled {
                    program: program.clone(),
                    found: found.clone(),
                    required: required.clone(),
                },
            )
        }
    }

    /// The check of the programs fails at the program at `at`: that one is
    /// the first that does not fulfill its requirement.
    pub open spec fn fails_at(&self, found: Seq<Version>, at: int, error: ConfigError) -> bool {
        &&& 0 <= at < found.len()
        &&& at < self.required_versions@.len()
        &&& semver_matches(self.required_versions@[at].1@, found[at].parts()) != Some(true)
        &&& forall|j: int|
            0 <= j < at ==> semver_matches(
                self.required_versions@[j].1@,
                (#[trigger] found[j]).parts(),
            ) == Some(true)
        &&& error matches ConfigError::Unfulfilled { program, found: version, required }
        &&& program == self.required_versions@[at].0
        &&& version == found[at]
        &&& required@ == self.required_versions@[at].1@
    }

    /// Checks the versions in which the programs of the configuration were
    /// found, one for each requirement and in the order of the
    /// requirements: the first program that does not fulfill its
    /// requirement fails the check. With another number of versions than
    /// of requirements there is nothing to check against.
    pub fn check_programs(&self, found: &Vec<Version>) -> (checked: Result<(), ConfigError>)
        ensures
            found@.len() != self.required_versions@.len() ==> checked matches Err(
                ConfigError::VersionsMissing,
            ),
            found@.len() == self.required_versions@.len() ==> match checked {
                Ok(_) => forall|j: int|
                    0 <= j < found@.len() ==> semver_matches(
                        self.required_versions@[j].1@,
                        (#[trigger] found@[j]).parts(),
                    ) == Some(true),
                Err(error) => exists|at: int| #[trigger] self.fails_at(found@, at, error),
            },
    {
        if found.len() != self.required_versions.len() {
            return Err(ConfigError::VersionsMissing);
        }
        let mut i: usize = 0;
        while i < self.required_versions.len()
            invariant
                found@.len() == self.required_versions@.len(),
                i <= found@.len(),
                forall|j: int|
                    0 <= j < i ==> semver_matches(
                        self.required_versions@[j].1@,
                        (#[trigger] found@[j]).parts(),
                    ) == Some(true),
            decreases self.required_versions.len() - i,
        {
            let (program, required) = (&self.required_versions[i].0, &self.required_versions[i].1);
            match Self::check_program(program, required, &found[i]) {
                Ok(_) => {},
                Err(e) => {
                    assert(self.fails_at(found@, i as int, e));
                    return Err(e);
                },
            }
            i += 1;
        }
        Ok(())
    }
}

} // verus!

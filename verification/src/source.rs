//! Where the artifact of a target comes from: what a user asks for (a
//! descriptor) and what the engine makes of it (a source).

use crate::project::ide::OutputPath;
use crate::text::concat3;
use crate::text::split;
use crate::text::split_on;
use vstd::prelude::*;
use vstd::string::*;

verus! {

/// The ways to come by an artifact.
#[derive(Debug, Clone, Copy, PartialEq, Eq, Structural)]
pub enum SourceKind {
    /// Build it from the sources in the working copy.
    Build,
    /// Take it from a place on disk where it already is.
    Local,
    /// Download it from the artifacts of a CI run.
    CiRun,
    /// Download it from the assets of a release.
    Release,
}

/// What a user says of the source of a target. `A` holds the arguments of a
/// local build of the target.
#[derive(Debug)]
pub struct SourceDescriptor<A> {
    /// Which way to take.
    pub source: SourceKind,
    /// Arguments of a local build.
    pub build_args: A,
    /// Where the artifact is on disk, for a local source.
    pub path: Option<String>,
    /// The CI run to download from.
    pub run_id: Option<u64>,
    /// The release to download from: `latest`, `nightly`, or a tag or a
    /// part of one.
    pub release: Option<String>,
    /// The name under which the artifact is stored with a CI run.
    pub artifact_name: String,
    /// Where the artifact is to be placed.
    pub output_path: OutputPath,
}

/// A repository at the provider: its owner and its name.
#[derive(Debug)]
pub struct RepoContext {
    pub owner: String,
    pub name: String,
}

/// The text does not name a repository as owner, slash, name.
#[derive(Debug, Clone, Copy, PartialEq, Eq, Structural)]
pub struct MalformedRepository;

/// Whether a text names a repository: an owner and a name, neither of them
/// empty, with one slash between them.
pub open spec fn names_repository(text: Seq<char>) -> bool {
    let parts = split_on(text, '/');
    parts.len() == 2 && parts[0].len() > 0 && parts[1].len() > 0
}

impl RepoContext {
    /// Reads a repository from a text of the form `owner/name`.
    pub fn from_str(text: &str) -> (repository: Result<Self, MalformedRepository>)
        ensures
            match repository {
                Ok(repository) => {
                    &&& names_repository(text@)
                    &&& repository.owner@ == split_on(text@, '/')[0]
                    &&& repository.name@ == split_on(text@, '/')[1]
                },
                Err(_) => !names_repository(text@),
            },
    {
        let mut parts = split(text, '/');
        if parts.len() != 2 {
            return Err(MalformedRepository);
        }
        let name = parts.pop().unwrap();
        let owner = parts.pop().unwrap();
        if owner.as_str().unicode_len() == 0 || name.as_str().unicode_len() == 0 {
            return Err(MalformedRepository);
        }
        Ok(RepoContext { owner, name })
    }

    /// Writes the repository as `owner/name`.
    pub fn to_string(&self) -> (text: String)
        ensures
            text@ == self.owner@ + "/"@ + self.name@,
    {
        concat3(self.owner.as_str(), "/", self.name.as_str())
    }
}

impl Clone for RepoContext {
    fn clone(&self) -> (copy: Self)
        ensures
            copy == *self,
    {
        RepoContext { owner: self.owner.clone(), name: self.name.clone() }
    }
}

/// An artifact of a CI run.
#[derive(Debug)]
pub struct CiRunSource {
    pub run_id: u64,
    pub repository: RepoContext,
    pub artifact_name: String,
}

/// An asset of a release.
#[derive(Debug)]
pub struct ReleaseSource {
    pub repository: RepoContext,
    pub asset_id: u64,
}

/// An origin other than a local build.
#[derive(Debug)]
pub enum ExternalSource {
    /// A place on disk.
    LocalFile(String),
    /// An artifact of a CI run.
    CiRun(CiRunSource),
    /// An asset of a release.
    Release(ReleaseSource),
}

/// A resolved source: either the inputs `I` of a local build or an
/// external origin.
#[derive(Debug)]
pub enum Source<I> {
    BuildLocally(I),
    External(ExternalSource),
}

/// All that is needed to get a target: where from and where to.
#[derive(Debug)]
pub struct GetTargetJob<I> {
    pub source: Source<I>,
    pub destination: OutputPath,
}

/// Which release a designator asks for.
#[derive(Debug)]
pub enum ReleaseDesignator {
    /// The most recent published release.
    Latest,
    /// The most recent published nightly release.
    Nightly,
    /// The release with the given tag, or else the most recent one whose tag
    /// holds the given text.
    Text(String),
}

/// What a resolution comes to without asking the provider: a job, or the
/// need to look a release up first.
#[derive(Debug)]
pub enum Resolution<I> {
    /// The source is settled.
    Ready(GetTargetJob<I>),
    /// The source is an asset of the designated release, which the
    /// provider has to be asked for.
    NeedsRelease { designator: String, destination: OutputPath },
}

impl<I> Source<I> {
    /// Whether the artifact is built locally.
    pub fn is_build(&self) -> (build: bool)
        ensures
            build == (*self is BuildLocally),
    {
        match self {
            Source::BuildLocally(_) => true,
            Source::External(_) => false,
        }
    }
}

} // verus!

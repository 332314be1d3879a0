//! The failures that operations of the engine end with.

use vstd::prelude::*;
use vstd::string::*;

verus! {

/// The classes of failure.
#[derive(Debug, Clone, Copy, PartialEq, Eq, Structural)]
pub enum ErrorKind {
    /// A descriptor lacks a field that its kind of source needs.
    Configuration,
    /// No release or asset matches what was asked for.
    Resolution,
    /// The network or a provider failed.
    Transport,
    /// A builder process failed or could not be located.
    Tooling,
    /// The disk under the cache failed.
    Cache,
    /// A watched process failed to start or ended unexpectedly.
    ProcessSupervision,
}

/// The step of an operation in which a failure arose.
#[derive(Debug, Clone, Copy, PartialEq, Eq, Structural)]
pub enum Stage {
    Resolve,
    Build,
    Fetch,
    Upload,
    Watch,
}

/// The argument that a source descriptor lacks.
#[derive(Debug, Clone, Copy, PartialEq, Eq, Structural)]
pub enum Argument {
    /// Location of artifacts that are already on disk.
    Path,
    /// Identifier of a CI run.
    RunId,
    /// Designator of a release.
    Release,
}

/// Why a source descriptor could not be resolved.
#[derive(Debug, Clone, Copy, PartialEq, Eq, Structural)]
pub enum ResolveError {
    /// The inputs of a local build lack a field that the target needs.
    MissingBuildInput,
    /// The descriptor lacks the argument that its kind of source needs.
    MissingArgument(Argument),
    /// No release matches the designator.
    ReleaseNotFound,
    /// No asset of the release matches the target.
    AssetNotFound,
}

impl ResolveError {
    /// The class that the error falls in.
    pub open spec fn kind_of(self) -> ErrorKind {
        match self {
            ResolveError::MissingBuildInput => ErrorKind::Configuration,
            ResolveError::MissingArgument(_) => ErrorKind::Configuration,
            ResolveError::ReleaseNotFound => ErrorKind::Resolution,
            ResolveError::AssetNotFound => ErrorKind::Resolution,
        }
    }

    /// The class that the error falls in.
    pub fn kind(self) -> (kind: ErrorKind)
        ensures
            kind == self.kind_of(),
    {
        match self {
            ResolveError::MissingBuildInput => ErrorKind::Configuration,
            ResolveError::MissingArgument(_) => ErrorKind::Configuration,
            ResolveError::ReleaseNotFound => ErrorKind::Resolution,
            ResolveError::AssetNotFound => ErrorKind::Resolution,
        }
    }
}

/// The failure of an operation. Each variant belongs to a step and a
/// class, and holds what the failing collaborator reported.
#[derive(Debug)]
pub enum Failure {
    /// The source could not be resolved.
    Resolve(ResolveError),
    /// A builder failed or could not be located.
    Build(String),
    /// A builder put the artifact elsewhere than where it was required.
    Misplaced { required: String, actual: String },
    /// A download failed.
    Fetch(String),
    /// An upload failed.
    Upload(String),
    /// The disk under the cache failed.
    Cache(String),
    /// A watched process failed to start or ended unexpectedly.
    Watch(String),
}

impl Clone for Failure {
    fn clone(&self) -> (copy: Self)
        ensures
            copy == *self,
    {
        match self {
            Failure::Resolve(e) => Failure::Resolve(*e),
            Failure::Build(m) => Failure::Build(m.clone()),
            Failure::Misplaced { required, actual } => Failure::Misplaced {
                required: required.clone(),
                actual: actual.clone(),
            },
            Failure::Fetch(m) => Failure::Fetch(m.clone()),
            Failure::Upload(m) => Failure::Upload(m.clone()),
            Failure::Cache(m) => Failure::Cache(m.clone()),
            Failure::Watch(m) => Failure::Watch(m.clone()),
        }
    }
}

impl Failure {
    /// The step in which the failure arose.
    pub open spec fn stage_of(self) -> Stage {
        match self {
            Failure::Resolve(_) => Stage::Resolve,
            Failure::Build(_) => Stage::Build,
            Failure::Misplaced { .. } => Stage::Build,
            Failure::Fetch(_) => Stage::Fetch,
            Failure::Upload(_) => Stage::Upload,
            Failure::Cache(_) => Stage::Fetch,
            Failure::Watch(_) => Stage::Watch,
        }
    }

    /// The class that the failure falls in.
    pub open spec fn kind_of(self) -> ErrorKind {
        match self {
            Failure::Resolve(e) => e.kind_of(),
            Failure::Build(_) => ErrorKind::Tooling,
            Failure::Misplaced { .. } => ErrorKind::Tooling,
            Failure::Fetch(_) => ErrorKind::Transport,
            Failure::Upload(_) => ErrorKind::Transport,
            Failure::Cache(_) => ErrorKind::Cache,
            Failure::Watch(_) => ErrorKind::ProcessSupervision,
        }
    }

    /// The step in which the failure arose.
    pub fn stage(&self) -> (stage: Stage)
        ensures
            stage == self.stage_of(),
    {
        match self {
            Failure::Resolve(_) => Stage::Resolve,
            Failure::Build(_) => Stage::Build,
            Failure::Misplaced { .. } => Stage::Build,
            Failure::Fetch(_) => Stage::Fetch,
            Failure::Upload(_) => Stage::Upload,
            Failure::Cache(_) => Stage::Fetch,
            Failure::Watch(_) => Stage::Watch,
        }
    }

    /// The class that the failure falls in.
    pub fn kind(&self) -> (kind: ErrorKind)
        ensures
            kind == self.kind_of(),
    {
        match self {
            Failure::Resolve(e) => e.kind(),
            Failure::Build(_) => ErrorKind::Tooling,
            Failure::Misplaced { .. } => ErrorKind::Tooling,
            Failure::Fetch(_) => ErrorKind::Transport,
            Failure::Upload(_) => ErrorKind::Transport,
            Failure::Cache(_) => ErrorKind::Cache,
            Failure::Watch(_) => ErrorKind::ProcessSupervision,
        }
    }
}

impl ResolveError {
    /// What the error says, for the user.
    pub open spec fn message_of(self) -> Seq<char> {
        match self {
            ResolveError::MissingBuildInput => "Missing input of the local build."@,
            ResolveError::MissingArgument(Argument::Path) =>
                "Missing path to the local artifacts!"@,
            ResolveError::MissingArgument(Argument::RunId) => "Missing run ID."@,
            ResolveError::MissingArgument(Argument::Release) => "Missing release designator."@,
            ResolveError::ReleaseNotFound => "No release matches the designator."@,
            ResolveError::AssetNotFound => "No asset of the release matches the target."@,
        }
    }

    /// Writes what the error says.
    pub fn message(self) -> (message: String)
        ensures
            message@ == self.message_of(),
    {
        String::from_str(
            match self {
                ResolveError::MissingBuildInput => "Missing input of the local build.",
                ResolveError::MissingArgument(Argument::Path) =>
                    "Missing path to the local artifacts!",
                ResolveError::MissingArgument(Argument::RunId) => "Missing run ID.",
                ResolveError::MissingArgument(Argument::Release) => "Missing release designator.",
                ResolveError::ReleaseNotFound => "No release matches the designator.",
                ResolveError::AssetNotFound => "No asset of the release matches the target.",
            },
        )
    }
}

} // verus!

//! The bundle of the backend service.

use crate::error::Failure;
use crate::paths::join;
use crate::paths::joined;
use crate::platform::OS;
use crate::project::TargetKind;
use crate::version::Versions;
use vstd::prelude::*;
use vstd::string::*;

verus! {

/// What a user says of a local build of the bundle: nothing.
#[derive(Debug, Clone, Copy, PartialEq, Eq, Structural)]
pub struct BuildArgs;

/// The inputs of a local build of the bundle.
#[derive(Debug)]
pub struct BuildInput {
    pub versions: Versions,
    pub repo_root: String,
}

/// The directory that holds an unpacked bundle.
#[derive(Debug)]
pub struct Artifact {
    pub root: String,
}

impl Clone for Artifact {
    fn clone(&self) -> (copy: Self)
        ensures
            copy == *self,
    {
        Artifact { root: self.root.clone() }
    }
}

impl Artifact {
    /// The location of the service's executable in the bundle.
    pub open spec fn executable_of(root: Seq<char>, os: OS) -> Seq<char> {
        joined(
            joined(root, "bin"@),
            if os == OS::Windows {
                "project-manager.exe"@
            } else {
                "project-manager"@
            },
        )
    }

    /// Where the service's executable is in the bundle.
    pub fn executable(&self, os: OS) -> (path: String)
        ensures
            path@ == Self::executable_of(self.root@, os),
    {
        let bin = join(self.root.as_str(), "bin");
        let name = if os.is_windows() {
            "project-manager.exe"
        } else {
            "project-manager"
        };
        join(bin.as_str(), name)
    }
}

/// The switches of an engine build. Each names a step that the build takes
/// or leaves out.
#[derive(Debug, Clone, Copy, PartialEq, Eq, Structural)]
pub struct BuildConfigurationFlags {
    pub clean_repo: bool,
    pub build_engine_package: bool,
    pub build_launcher_bundle: bool,
    pub build_project_manager_package: bool,
    pub test_scala: bool,
    pub test_standard_library: bool,
    pub build_benchmarks: bool,
}

/// The switches of a nightly build: everything is built and tested, on a
/// clean working copy.
pub open spec fn nightly_flags() -> BuildConfigurationFlags {
    BuildConfigurationFlags {
        clean_repo: true,
        build_engine_package: true,
        build_launcher_bundle: true,
        build_project_manager_package: true,
        test_scala: true,
        test_standard_library: true,
        build_benchmarks: true,
    }
}

/// The switches of a nightly build.
pub fn nightly() -> (flags: BuildConfigurationFlags)
    ensures
        flags == nightly_flags(),
{
    BuildConfigurationFlags {
        clean_repo: true,
        build_engine_package: true,
        build_launcher_bundle: true,
        build_project_manager_package: true,
        test_scala: true,
        test_standard_library: true,
        build_benchmarks: true,
    }
}

/// The steps of a local build of the bundle, in order.
#[derive(Debug)]
pub struct BuildPlan {
    /// The switches that the engine build runs with.
    pub flags: BuildConfigurationFlags,
    /// The versions that the engine is built as.
    pub versions: Versions,
    /// The working copy to build in.
    pub repo_root: String,
    /// Where the built package is mirrored to.
    pub destination: String,
}

/// The target marker of the backend bundle.
#[derive(Debug, Clone, Copy, PartialEq, Eq, Structural)]
pub struct ProjectManager;

impl ProjectManager {
    /// The kind of target that the marker stands for.
    pub fn kind(&self) -> (kind: TargetKind)
        ensures
            kind == TargetKind::BackendBundle,
    {
        TargetKind::BackendBundle
    }

    /// The name under which the bundle is stored with a CI run.
    pub fn artifact_name(&self) -> (name: String)
        ensures
            name@ == "Enso Project Manager"@,
    {
        String::from_str("Enso Project Manager")
    }

    /// Takes a directory for a bundle.
    pub fn adapt_artifact(&self, path: &str) -> (artifact: Artifact)
        ensures
            artifact.root@ == path@,
    {
        Artifact { root: String::from_str(path) }
    }

    /// Plans a local build: an engine build with the nightly switches, but
    /// without cleaning the working copy, whose project manager package is
    /// then mirrored to the destination.
    pub fn build_locally(&self, input: BuildInput, output_path: &str) -> (plan: BuildPlan)
        ensures
            plan.flags == (BuildConfigurationFlags { clean_repo: false, ..nightly_flags() }),
            plan.flags.build_project_manager_package,
            plan.versions == input.versions,
            plan.repo_root == input.repo_root,
            plan.destination@ == output_path@,
    {
        let flags = BuildConfigurationFlags {
            clean_repo: false,
            build_project_manager_package: true,
            ..nightly()
        };
        BuildPlan {
            flags,
            versions: input.versions,
            repo_root: input.repo_root,
            destination: String::from_str(output_path),
        }
    }

    /// What a finished engine build comes to: without a project manager
    /// package among what it built, the build has failed; with one, the
    /// artifact is the destination that the package was mirrored to.
    pub fn built(&self, plan: &BuildPlan, package: Option<&str>) -> (artifact: Result<
        Artifact,
        Failure,
    >)
        ensures
            match artifact {
                Ok(artifact) => package is Some && artifact.root@ == plan.destination@,
                Err(failure) => package is None && (failure matches Failure::Build(message)
                    && message@ == "Missing Project Manager package!"@),
            },
    {
        match package {
            Some(_) => Ok(self.adapt_artifact(plan.destination.as_str())),
            None => Err(Failure::Build(String::from_str("Missing Project Manager package!"))),
        }
    }
}

} // verus!

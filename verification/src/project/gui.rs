//! The bundle of the graphical interface.

use crate::paths::joined;
use crate::paths::RepoRoot;
use crate::project::TargetKind;
use crate::project::wasm;
use crate::source::SourceDescriptor;
use crate::version::Version;
use vstd::prelude::*;
use vstd::string::*;

verus! {

/// What the bundle tells of itself once it runs.
#[derive(Debug)]
pub struct BuildInfo {
    pub commit: String,
    pub version: Version,
    pub engine_version: Version,
    pub name: String,
}

/// A `BuildInfo` that still lacks the commit, which has to be asked for.
#[derive(Debug)]
pub struct PendingBuildInfo {
    pub version: Version,
    pub engine_version: Version,
    pub name: String,
}

impl PendingBuildInfo {
    /// Completes the information with the commit that the sources are at.
    pub fn with_commit(self, commit: String) -> (info: BuildInfo)
        ensures
            info.commit == commit,
            info.version == self.version,
            info.engine_version == self.engine_version,
            info.name == self.name,
    {
        BuildInfo {
            commit,
            version: self.version,
            engine_version: self.engine_version,
            name: self.name,
        }
    }
}

/// The inputs of a local build of the bundle. The web module is not at
/// hand yet: the inputs hold what is needed to get it.
#[derive(Debug)]
pub struct GuiInputs {
    pub repo_root: RepoRoot,
    /// The web module that goes into the bundle, to be acquired.
    pub wasm: SourceDescriptor<wasm::BuildArgs>,
    pub build_info: PendingBuildInfo,
}

/// The directory that holds a built bundle.
#[derive(Debug)]
pub struct Artifact {
    pub path: String,
}

impl Clone for Artifact {
    fn clone(&self) -> (copy: Self)
        ensures
            copy == *self,
    {
        Artifact { path: self.path.clone() }
    }
}

impl Artifact {
    /// Takes a directory for a bundle.
    pub fn new(path: &str) -> (artifact: Self)
        ensures
            artifact.path@ == path@,
    {
        Artifact { path: String::from_str(path) }
    }
}

/// The target marker of the interface bundle.
#[derive(Debug, Clone, Copy, PartialEq, Eq, Structural)]
pub struct Gui;

impl Gui {
    /// The kind of target that the marker stands for.
    pub fn kind(&self) -> (kind: TargetKind)
        ensures
            kind == TargetKind::GuiBundle,
    {
        TargetKind::GuiBundle
    }

    /// The name under which the bundle is stored with a CI run.
    pub fn artifact_name(&self) -> (name: String)
        ensures
            name@ == "gui"@,
    {
        String::from_str("gui")
    }

    /// What a build of the bundle is made of, once the commit of the
    /// sources is known: the sources of the desktop client, the web module
    /// to get, what the bundle tells of itself, and the place of the
    /// result.
    pub fn build(&self, input: GuiInputs, commit: String, output_path: &str) -> (build: GuiBuild)
        ensures
            build.ide_desktop@ == joined(input.repo_root.path@, "app/ide-desktop"@),
            build.wasm == input.wasm,
            build.build_info.commit == commit,
            build.build_info.version == input.build_info.version,
            build.build_info.engine_version == input.build_info.engine_version,
            build.build_info.name == input.build_info.name,
            build.output_path@ == output_path@,
    {
        let GuiInputs { repo_root, wasm, build_info } = input;
        GuiBuild {
            ide_desktop: repo_root.ide_desktop(),
            wasm,
            build_info: build_info.with_commit(commit),
            output_path: String::from_str(output_path),
        }
    }

    /// What the watching of the bundle is made of: as a build, but for the
    /// place of the result, which a watch has none of.
    pub fn watch(&self, input: GuiInputs, commit: String) -> (watch: GuiBuild)
        ensures
            watch.ide_desktop@ == joined(input.repo_root.path@, "app/ide-desktop"@),
            watch.wasm == input.wasm,
            watch.build_info.commit == commit,
            watch.build_info.version == input.build_info.version,
            watch.build_info.engine_version == input.build_info.engine_version,
            watch.build_info.name == input.build_info.name,
            watch.output_path@.len() == 0,
    {
        let GuiInputs { repo_root, wasm, build_info } = input;
        GuiBuild {
            ide_desktop: repo_root.ide_desktop(),
            wasm,
            build_info: build_info.with_commit(commit),
            output_path: String::new(),
        }
    }

    /// The artifact that a finished build has left at `output_path`.
    pub fn built(&self, output_path: &str) -> (artifact: Artifact)
        ensures
            artifact.path@ == output_path@,
    {
        Artifact::new(output_path)
    }
}

/// What the builder of the desktop client is handed for a build or a
/// watch of the interface bundle.
#[derive(Debug)]
pub struct GuiBuild {
    /// Where the sources of the desktop client are.
    pub ide_desktop: String,
    /// The web module that goes into the bundle, to be acquired.
    pub wasm: SourceDescriptor<wasm::BuildArgs>,
    pub build_info: BuildInfo,
    /// Where the bundle is to be placed.
    pub output_path: String,
}

} // verus!

//! The context of a run of the engine and what it makes of the sources
//! that a user names.

use crate::error::Argument;
use crate::error::ResolveError;
use crate::executor::begun;
use crate::executor::FirstStep;
use crate::executor::GetState;
use crate::paths::RepoRoot;
use crate::paths::TargetTriple;
use crate::project::gui;
use crate::project::gui::Gui;
use crate::project::ide;
use crate::project::ide::OutputPath;
use crate::project::project_manager;
use crate::project::project_manager::ProjectManager;
use crate::project::TargetKind;
use crate::project::wasm;
use crate::project::wasm::Wasm;
use crate::release::Release;
use crate::source::CiRunSource;
use crate::source::ExternalSource;
use crate::source::GetTargetJob;
use crate::source::ReleaseDesignator;
use crate::source::ReleaseSource;
use crate::source::RepoContext;
use crate::source::Resolution;
use crate::source::Source;
use crate::source::SourceDescriptor;
use crate::source::SourceKind;
use crate::text::contains;
use crate::text::is_infix_of;
use crate::text::same_text;
use crate::version::is_nightly_release;
use crate::version::nightly_release;
use vstd::prelude::*;
use vstd::string::*;

verus! {

/// The basic, common information available to every operation of a run. It
/// is made once and only read afterwards.
#[derive(Debug)]
pub struct BuildContext {
    /// Version to be built, and the system it is built for.
    ///
    /// This affects only targets that are being built. If parts of the
    /// product are provided by other means, their version might be
    /// different.
    pub triple: TargetTriple,
    /// Directory being the repository's working copy. It need not be under
    /// version control: a source tarball will do.
    pub source_root: String,
    /// Remote repository, used for release-related operations.
    pub remote_repo: RepoContext,
}

/// A target whose local build takes inputs that are lifted from what the
/// user says (`Args`) and the context.
pub trait Resolvable {
    /// What a user says of a local build.
    type Args;

    /// The inputs of a local build.
    type Input;

    /// The kind of the target.
    spec fn target() -> TargetKind;

    /// Whether `to` is what lifting `from` in the context `ctx` gives.
    spec fn lifts(
        ctx: &BuildContext,
        from: Self::Args,
        to: Result<Self::Input, ResolveError>,
    ) -> bool;

    /// The kind of the target.
    fn kind(&self) -> (kind: TargetKind)
        ensures
            kind == Self::target(),
    ;

    /// Lifts the arguments of a local build to its inputs, using the
    /// context alone.
    fn resolve(ctx: &BuildContext, from: Self::Args) -> (to: Result<Self::Input, ResolveError>)
        ensures
            Self::lifts(ctx, from, to),
    ;
}

impl Resolvable for Wasm {
    type Args = wasm::BuildArgs;

    type Input = wasm::BuildInput;

    open spec fn target() -> TargetKind {
        TargetKind::WasmModule
    }

    /// Without a crate to compile there is nothing to build; else the
    /// arguments are taken over and the layout of the working copy is
    /// added.
    open spec fn lifts(
        ctx: &BuildContext,
        from: wasm::BuildArgs,
        to: Result<wasm::BuildInput, ResolveError>,
    ) -> bool {
        match from.crate_path {
            None => to == Err::<wasm::BuildInput, ResolveError>(ResolveError::MissingBuildInput),
            Some(crate_path) => {
                &&& to is Ok
                &&& ctx.is_repo_root(to->Ok_0.repo_root)
                &&& to->Ok_0.crate_path == crate_path
                &&& to->Ok_0.extra_cargo_options == from.cargo_options
                &&& to->Ok_0.profile == from.wasm_profile
                &&& to->Ok_0.profiling_level == from.profiling_level
            },
        }
    }

    fn kind(&self) -> (kind: TargetKind) {
        TargetKind::WasmModule
    }

    fn resolve(ctx: &BuildContext, from: wasm::BuildArgs) -> (to: Result<
        wasm::BuildInput,
        ResolveError,
    >) {
        let wasm::BuildArgs { crate_path, wasm_profile, cargo_options, profiling_level } = from;
        match crate_path {
            None => Err(ResolveError::MissingBuildInput),
            Some(crate_path) => Ok(
                wasm::BuildInput {
                    repo_root: ctx.repo_root(),
                    crate_path,
                    extra_cargo_options: cargo_options,
                    profile: wasm_profile,
                    profiling_level,
                },
            ),
        }
    }
}

impl Resolvable for Gui {
    type Args = crate::arg::gui::BuildInput;

    type Input = gui::GuiInputs;

    open spec fn target() -> TargetKind {
        TargetKind::GuiBundle
    }

    /// The inputs hold the source of the web module as the user named it,
    /// the layout of the working copy, and the build information of the
    /// context.
    open spec fn lifts(
        ctx: &BuildContext,
        from: crate::arg::gui::BuildInput,
        to: Result<gui::GuiInputs, ResolveError>,
    ) -> bool {
        &&& to is Ok
        &&& to->Ok_0.wasm == from.wasm
        &&& ctx.is_repo_root(to->Ok_0.repo_root)
        &&& ctx.is_build_info(to->Ok_0.build_info)
    }

    fn kind(&self) -> (kind: TargetKind) {
        TargetKind::GuiBundle
    }

    fn resolve(ctx: &BuildContext, from: crate::arg::gui::BuildInput) -> (to: Result<
        gui::GuiInputs,
        ResolveError,
    >) {
        Ok(
            gui::GuiInputs {
                wasm: from.wasm,
                repo_root: ctx.repo_root(),
                build_info: ctx.js_build_info(),
            },
        )
    }
}

impl Resolvable for ProjectManager {
    type Args = project_manager::BuildArgs;

    type Input = project_manager::BuildInput;

    open spec fn target() -> TargetKind {
        TargetKind::BackendBundle
    }

    /// The inputs are those of the context.
    open spec fn lifts(
        ctx: &BuildContext,
        from: project_manager::BuildArgs,
        to: Result<project_manager::BuildInput, ResolveError>,
    ) -> bool {
        &&& to is Ok
        &&& to->Ok_0.repo_root == ctx.source_root
        &&& to->Ok_0.versions == ctx.triple.versions
    }

    fn kind(&self) -> (kind: TargetKind) {
        TargetKind::BackendBundle
    }

    fn resolve(ctx: &BuildContext, from: project_manager::BuildArgs) -> (to: Result<
        project_manager::BuildInput,
        ResolveError,
    >) {
        Ok(ctx.pm_info())
    }
}

impl BuildContext {
    /// The context of a run that builds `versions` for `os` from the
    /// working copy at `repo_path`, with `repo_remote` as the remote
    /// repository; and the variables through which later steps of a
    /// workflow learn of the versions.
    pub fn new(
        versions: crate::version::Versions,
        os: crate::platform::OS,
        repo_path: &str,
        repo_remote: RepoContext,
    ) -> (made: (Self, Vec<(String, String)>))
        ensures
            made.0.triple.versions == versions,
            made.0.triple.os == os,
            made.0.source_root@ == repo_path@,
            made.0.remote_repo == repo_remote,
            made.1@.len() == 3,
            made.1@[0].0@ == "ENSO_VERSION"@,
            made.1@[0].1@ == versions.version.text(),
            made.1@[1].0@ == "ENSO_EDITION"@,
            made.1@[1].1@ == versions.version.text(),
            made.1@[2].0@ == "ENSO_RELEASE_MODE"@,
            made.1@[2].1@ == if versions.release_mode {
                "true"@
            } else {
                "false"@
            },
    {
        let variables = versions.publish();
        let triple = TargetTriple::new(os, versions);
        (
            BuildContext {
                triple,
                source_root: String::from_str(repo_path),
                remote_repo: repo_remote,
            },
            variables,
        )
    }

    /// Whether `root` is the layout of the context's working copy for the
    /// context's triple.
    pub open spec fn is_repo_root(&self, root: RepoRoot) -> bool {
        root.path@ == self.source_root@ && root.triple@ == self.triple.text()
    }

    /// Whether `info` is the build information of the context: the product
    /// name and the context's version, for the interface and the engine
    /// alike.
    pub open spec fn is_build_info(&self, info: gui::PendingBuildInfo) -> bool {
        &&& info.name@ == "Enso IDE"@
        &&& info.version == self.triple.versions.version
        &&& info.engine_version == self.triple.versions.version
    }

    /// The layout of the working copy.
    pub fn repo_root(&self) -> (root: RepoRoot)
        ensures
            self.is_repo_root(root),
    {
        RepoRoot::new(self.source_root.as_str(), self.triple.to_string().as_str())
    }

    /// What the interface bundle tells of itself, but for the commit.
    pub fn js_build_info(&self) -> (info: gui::PendingBuildInfo)
        ensures
            self.is_build_info(info),
    {
        gui::PendingBuildInfo {
            name: String::from_str("Enso IDE"),
            version: self.triple.versions.version.clone(),
            engine_version: self.triple.versions.version.clone(),
        }
    }

    /// The inputs of a local build of the backend bundle.
    pub fn pm_info(&self) -> (input: project_manager::BuildInput)
        ensures
            input.versions == self.triple.versions,
            input.repo_root == self.source_root,
    {
        project_manager::BuildInput {
            versions: self.triple.versions.clone(),
            repo_root: self.source_root.clone(),
        }
    }

    /// Lifts the arguments of a local build of a target to its inputs.
    pub fn resolve_inputs<T: Resolvable>(&self, inputs: T::Args) -> (lifted: Result<
        T::Input,
        ResolveError,
    >)
        ensures
            T::lifts(self, inputs, lifted),
    {
        T::resolve(self, inputs)
    }

    /// What `resolve` makes of a descriptor.
    ///
    /// A local build has its inputs lifted, which may fail. A local source
    /// needs a path and a CI run a run identifier; a release needs a
    /// designator and is then still to be looked up. The destination is
    /// that of the descriptor.
    pub open spec fn resolved<T: Resolvable>(
        &self,
        descriptor: SourceDescriptor<T::Args>,
        found: Result<Resolution<T::Input>, ResolveError>,
    ) -> bool {
        match descriptor.source {
            SourceKind::Build => match found {
                Ok(Resolution::Ready(job)) => {
                    &&& job.source matches Source::BuildLocally(input)
                    &&& T::lifts(self, descriptor.build_args, Ok(input))
                    &&& job.destination == descriptor.output_path
                },
                Ok(Resolution::NeedsRelease { .. }) => false,
                Err(e) => T::lifts(self, descriptor.build_args, Err(e)),
            },
            SourceKind::Local => match descriptor.path {
                Some(path) => found == Ok::<Resolution<T::Input>, ResolveError>(
                    Resolution::Ready(
                        GetTargetJob {
                            source: Source::External(ExternalSource::LocalFile(path)),
                            destination: descriptor.output_path,
                        },
                    ),
                ),
                None => found == Err::<Resolution<T::Input>, ResolveError>(
                    ResolveError::MissingArgument(Argument::Path),
                ),
            },
            SourceKind::CiRun => match descriptor.run_id {
                Some(run_id) => found == Ok::<Resolution<T::Input>, ResolveError>(
                    Resolution::Ready(
                        GetTargetJob {
                            source: Source::External(
                                ExternalSource::CiRun(
                                    CiRunSource {
                                        run_id,
                                        repository: self.remote_repo,
                                        artifact_name: descriptor.artifact_name,
                                    },
                                ),
                            ),
                            destination: descriptor.output_path,
                        },
                    ),
                ),
                None => found == Err::<Resolution<T::Input>, ResolveError>(
                    ResolveError::MissingArgument(Argument::RunId),
                ),
            },
            SourceKind::Release => match descriptor.release {
                Some(designator) => found == Ok::<Resolution<T::Input>, ResolveError>(
                    Resolution::NeedsRelease { designator, destination: descriptor.output_path },
                ),
                None => found == Err::<Resolution<T::Input>, ResolveError>(
                    ResolveError::MissingArgument(Argument::Release),
                ),
            },
        }
    }

    /// Turns what a user says of the source of a target into a job, as far
    /// as that can be done without asking the provider. Only a release has
    /// to be looked up: every other kind of source, a local build among
    /// them, is settled here.
    pub fn resolve<T: Resolvable>(&self, target: T, source: SourceDescriptor<T::Args>) -> (found:
        Result<Resolution<T::Input>, ResolveError>)
        ensures
            self.resolved::<T>(source, found),
            found matches Ok(Resolution::NeedsRelease { .. }) ==> source.source
                == SourceKind::Release,
    {
        let SourceDescriptor {
            source: kind,
            build_args,
            path,
            run_id,
            release,
            artifact_name,
            output_path: destination,
        } = source;
        match kind {
            SourceKind::Build => match T::resolve(self, build_args) {
                Ok(input) => Ok(
                    Resolution::Ready(GetTargetJob { source: Source::BuildLocally(input), destination }),
                ),
                Err(e) => Err(e),
            },
            SourceKind::Local => match path {
                Some(path) => Ok(
                    Resolution::Ready(
                        GetTargetJob {
                            source: Source::External(ExternalSource::LocalFile(path)),
                            destination,
                        },
                    ),
                ),
                None => Err(ResolveError::MissingArgument(Argument::Path)),
            },
            SourceKind::CiRun => match run_id {
                Some(run_id) => Ok(
                    Resolution::Ready(
                        GetTargetJob {
                            source: Source::External(
                                ExternalSource::CiRun(
                                    CiRunSource {
                                        run_id,
                                        repository: self.remote_repo.clone(),
                                        artifact_name,
                                    },
                                ),
                            ),
                            destination,
                        },
                    ),
                ),
                None => Err(ResolveError::MissingArgument(Argument::RunId)),
            },
            SourceKind::Release => match release {
                Some(designator) => Ok(Resolution::NeedsRelease { designator, destination }),
                None => Err(ResolveError::MissingArgument(Argument::Release)),
            },
        }
    }

    /// What `resolve_release_designator` returns: the asset for the target
    /// in the designated release.
    pub open spec fn release_resolved(
        &self,
        target: TargetKind,
        designator: Seq<char>,
        releases: Seq<Release>,
        found: Result<ReleaseSource, ResolveError>,
    ) -> bool {
        match found {
            Ok(source) => exists|at: usize, asset: usize|
                {
                    &&& #[trigger] designated(designator, releases, Ok(at))
                    &&& #[trigger] target.asset_found(self.triple.os, releases[at as int].assets@, Ok(asset))
                    &&& source.asset_id == releases[at as int].assets@[asset as int].id
                    &&& source.repository == self.remote_repo
                },
            Err(e) => designated(designator, releases, Err(e)) || exists|at: usize|
                {
                    &&& #[trigger] designated(designator, releases, Ok(at))
                    &&& target.asset_found(self.triple.os, releases[at as int].assets@, Err(e))
                },
        }
    }

    /// Finds the asset that holds the artifact of `target` in the release
    /// that `designator` names, among the releases of the remote
    /// repository, most recent first.
    pub fn resolve_release_designator(
        &self,
        target: TargetKind,
        designator: &str,
        releases: &Vec<Release>,
    ) -> (found: Result<ReleaseSource, ResolveError>)
        ensures
            self.release_resolved(target, designator@, releases@, found),
    {
        let at = match find_release(designator, releases) {
            Ok(at) => at,
            Err(e) => {
                return Err(e);
            },
        };
        let release = &releases[at];
        match target.find_asset(self.triple.os, &release.assets) {
            Ok(asset) => {
                assert(target.asset_found(self.triple.os, releases@[at as int].assets@, Ok(asset)));
                Ok(
                    ReleaseSource {
                        repository: self.remote_repo.clone(),
                        asset_id: release.assets[asset].id,
                    },
                )
            },
            Err(e) => {
                assert(target.asset_found(self.triple.os, releases@[at as int].assets@, Err(e)));
                Err(e)
            },
        }
    }

    /// Starts getting a target from what a user says of its source. The
    /// source is resolved first; the artifact is uploaded afterwards
    /// exactly if it is built here and `in_ci` says that the engine runs
    /// inside the CI provider's environment.
    pub fn get<T: Resolvable>(
        &self,
        target: T,
        source: SourceDescriptor<T::Args>,
        in_ci: bool,
    ) -> (start: GetStart<T::Input>)
        ensures
            exists|found: Result<Resolution<T::Input>, ResolveError>| #[trigger]
                self.resolved::<T>(source, found) && start == started(found, in_ci),
    {
        let found = self.resolve(target, source);
        let start = start(found, in_ci);
        assert(self.resolved::<T>(source, found) && start == started(found, in_ci));
        start
    }

    /// Goes on getting a target from a release once the releases of the
    /// remote repository, most recent first, are known. An artifact from a
    /// release is fetched, and so never uploaded.
    pub fn get_release<I>(
        &self,
        target: TargetKind,
        designator: &str,
        destination: OutputPath,
        releases: &Vec<Release>,
    ) -> (start: (GetState, FirstStep<I>))
        ensures
            exists|found: Result<ReleaseSource, ResolveError>| #[trigger]
                self.release_resolved(target, designator@, releases@, found) && start == begun(
                    release_job::<I>(found, destination),
                    false,
                ),
    {
        let found = self.resolve_release_designator(target, designator, releases);
        let ghost seen = found;
        let job = match found {
            Ok(source) => Ok(
                GetTargetJob { source: Source::External(ExternalSource::Release(source)), destination },
            ),
            Err(e) => Err(e),
        };
        let start = GetState::begin(job, false);
        assert(self.release_resolved(target, designator@, releases@, seen));
        start
    }

    /// What `handle_wasm` plans for a command.
    pub open spec fn wasm_planned(
        &self,
        wasm: crate::arg::wasm::Target,
        plan: Result<WasmOperation, ResolveError>,
    ) -> bool {
        match wasm.command {
            crate::arg::wasm::Command::Watch { params, output_path } => match plan {
                Ok(WasmOperation::Watch { input, destination }) => Wasm::lifts(
                    self,
                    params,
                    Ok(input),
                ) && destination == output_path,
                Ok(_) => false,
                Err(e) => Wasm::lifts(self, params, Err(e)),
            },
            crate::arg::wasm::Command::Build { params, output_path } => match plan {
                Ok(WasmOperation::Build { input, destination }) => Wasm::lifts(
                    self,
                    params,
                    Ok(input),
                ) && destination == output_path,
                Ok(_) => false,
                Err(e) => Wasm::lifts(self, params, Err(e)),
            },
            crate::arg::wasm::Command::Check => plan matches Ok(WasmOperation::Check),
            crate::arg::wasm::Command::Test { no_wasm, no_native } => {
                &&& plan matches Ok(WasmOperation::Test { repo_root, wasm, native })
                &&& repo_root == self.source_root
                &&& wasm == !no_wasm
                &&& native == !no_native
            },
            crate::arg::wasm::Command::Get { source } => exists|
                found: Result<Resolution<wasm::BuildInput>, ResolveError>,
            | #[trigger]
                self.resolved::<Wasm>(source, found) && (plan matches Ok(
                    WasmOperation::Get(start),
                ) && start == started(found, false)),
        }
    }

    /// Plans a command about the web module.
    ///
    /// Watching and building lift the arguments to the inputs of a local
    /// build. Getting the module resolves its source; the module is not
    /// uploaded by this command.
    pub fn handle_wasm(&self, wasm: crate::arg::wasm::Target) -> (plan: Result<
        WasmOperation,
        ResolveError,
    >)
        ensures
            self.wasm_planned(wasm, plan),
    {
        match wasm.command {
            crate::arg::wasm::Command::Watch { params, output_path } => {
                match self.resolve_inputs::<Wasm>(params) {
                    Ok(input) => Ok(WasmOperation::Watch { input, destination: output_path }),
                    Err(e) => Err(e),
                }
            },
            crate::arg::wasm::Command::Build { params, output_path } => {
                match self.resolve_inputs::<Wasm>(params) {
                    Ok(input) => Ok(WasmOperation::Build { input, destination: output_path }),
                    Err(e) => Err(e),
                }
            },
            crate::arg::wasm::Command::Check => Ok(WasmOperation::Check),
            crate::arg::wasm::Command::Test { no_wasm, no_native } => Ok(
                WasmOperation::Test {
                    repo_root: self.source_root.clone(),
                    wasm: !no_wasm,
                    native: !no_native,
                },
            ),
            crate::arg::wasm::Command::Get { source } => {
                let found = self.resolve(Wasm, source);
                let started = start(found, false);
                assert(self.resolved::<Wasm>(source, found));
                Ok(WasmOperation::Get(started))
            },
        }
    }

    /// What `watch_gui` plans for an input.
    pub open spec fn gui_watched(
        &self,
        input: crate::arg::gui::WatchInput,
        watch: GuiWatch,
    ) -> bool {
        &&& exists|found: Result<Resolution<wasm::BuildInput>, ResolveError>| #[trigger]
            self.resolved::<Wasm>(input.wasm, found) && watch.wasm == started(found, false)
        &&& self.is_repo_root(watch.repo_root)
        &&& self.is_build_info(watch.build_info)
        &&& watch.output_path == input.output_path
    }

    /// Plans the watching of the interface bundle: the web module is got
    /// or watched first, as its source says, and the bundle is watched
    /// once the module is there.
    pub fn watch_gui(&self, input: crate::arg::gui::WatchInput) -> (watch: GuiWatch)
        ensures
            self.gui_watched(input, watch),
    {
        let crate::arg::gui::WatchInput { wasm, output_path } = input;
        let found = self.resolve(Wasm, wasm);
        let started = start(found, false);
        assert(self.resolved::<Wasm>(input.wasm, found));
        GuiWatch {
            wasm: started,
            repo_root: self.repo_root(),
            build_info: self.js_build_info(),
            output_path,
        }
    }

    /// What `handle_gui` plans for a command.
    pub open spec fn gui_planned(
        &self,
        gui: crate::arg::gui::Target,
        in_ci: bool,
        plan: GuiOperation,
    ) -> bool {
        match gui.command {
            crate::arg::gui::Command::Get { source } => exists|
                found: Result<Resolution<gui::GuiInputs>, ResolveError>,
            | #[trigger]
                self.resolved::<Gui>(source, found) && (plan matches GuiOperation::Get(start)
                    && start == started(found, in_ci)),
            crate::arg::gui::Command::Watch { input } => plan matches GuiOperation::Watch(
                watch,
            ) && self.gui_watched(input, watch),
        }
    }

    /// Plans a command about the interface bundle.
    pub fn handle_gui(&self, gui: crate::arg::gui::Target, in_ci: bool) -> (plan: GuiOperation)
        ensures
            self.gui_planned(gui, in_ci, plan),
    {
        match gui.command {
            crate::arg::gui::Command::Get { source } => {
                let found = self.resolve(Gui, source);
                let started = start(found, in_ci);
                assert(self.resolved::<Gui>(source, found));
                GuiOperation::Get(started)
            },
            crate::arg::gui::Command::Watch { input } => GuiOperation::Watch(self.watch_gui(input)),
        }
    }

    /// What `handle_project_manager` plans for a command.
    pub open spec fn project_manager_planned(
        &self,
        project_manager: crate::arg::project_manager::Target,
        in_ci: bool,
        start: GetStart<project_manager::BuildInput>,
    ) -> bool {
        exists|found: Result<Resolution<project_manager::BuildInput>, ResolveError>| #[trigger]
            self.resolved::<ProjectManager>(project_manager.source, found) && start == started(
                found,
                in_ci,
            )
    }

    /// Plans the command about the backend bundle, which is to get it.
    pub fn handle_project_manager(
        &self,
        project_manager: crate::arg::project_manager::Target,
        in_ci: bool,
    ) -> (start: GetStart<project_manager::BuildInput>)
        ensures
            self.project_manager_planned(project_manager, in_ci, start),
    {
        self.get(ProjectManager, project_manager.source, in_ci)
    }

    /// Plans the start of a backend: the bundle is got, and its executable
    /// is then run.
    pub fn spawn_project_manager(
        &self,
        source: SourceDescriptor<project_manager::BuildArgs>,
        in_ci: bool,
    ) -> (start: GetStart<project_manager::BuildInput>)
        ensures
            exists|found: Result<Resolution<project_manager::BuildInput>, ResolveError>| #[trigger]
                self.resolved::<ProjectManager>(source, found) && start == started(found, in_ci),
    {
        self.get(ProjectManager, source, in_ci)
    }

    /// What `build_ide` makes of the parameters of a build.
    pub open spec fn ide_planned(
        &self,
        params: crate::arg::ide::BuildInput,
        planned: (ide::BuildInput, String),
    ) -> bool {
        &&& planned.0.gui == params.gui
        &&& planned.0.project_manager == params.project_manager
        &&& self.is_repo_root(planned.0.repo_root)
        &&& planned.0.version == self.triple.versions.version
        &&& planned.1 == params.output_path
    }

    /// Lifts the parameters of a build of the desktop application to its
    /// inputs, which name the sources of the interface bundle and of the
    /// backend bundle, and to the place of the result.
    pub fn build_ide(&self, params: crate::arg::ide::BuildInput) -> (planned: (
        ide::BuildInput,
        String,
    ))
        ensures
            self.ide_planned(params, planned),
    {
        let crate::arg::ide::BuildInput { gui, project_manager, output_path } = params;
        let input = ide::BuildInput {
            gui,
            project_manager,
            repo_root: self.repo_root(),
            version: self.triple.versions.version.clone(),
        };
        (input, output_path)
    }

    /// What `handle_ide` plans for a command.
    pub open spec fn ide_operation_planned(
        &self,
        ide: crate::arg::ide::Target,
        in_ci: bool,
        plan: IdeOperation,
    ) -> bool {
        match ide.command {
            crate::arg::ide::Command::Build { params } => {
                &&& plan matches IdeOperation::Build { input, output_path, upload }
                &&& self.ide_planned(params, (input, output_path))
                &&& upload == in_ci
            },
            crate::arg::ide::Command::Start { params } => {
                &&& plan matches IdeOperation::Start { input, output_path }
                &&& self.ide_planned(params, (input, output_path))
            },
            crate::arg::ide::Command::Watch { project_manager, gui } => {
                &&& plan matches IdeOperation::Watch { gui: watch, project_manager: backend }
                &&& self.gui_watched(gui, watch)
                &&& exists|found: Result<Resolution<project_manager::BuildInput>, ResolveError>| #[trigger]
                    self.resolved::<ProjectManager>(project_manager, found) && backend
                        == started(found, in_ci)
            },
            crate::arg::ide::Command::IntegrationTest { external_backend, project_manager } => {
                &&& plan matches IdeOperation::IntegrationTest { source_root, backend }
                &&& source_root == self.source_root
                &&& external_backend ==> backend is None
                &&& !external_backend ==> backend is Some && exists|
                    found: Result<Resolution<project_manager::BuildInput>, ResolveError>,
                | #[trigger]
                    self.resolved::<ProjectManager>(project_manager, found) && backend->Some_0
                        == started(found, in_ci)
            },
        }
    }

    /// Plans a command about the desktop application.
    ///
    /// A build is uploaded afterwards exactly when in CI. Watching plans
    /// the watching of the interface bundle and the start of a backend,
    /// which are then joined. The integration tests get a backend of their
    /// own unless an external one is there.
    pub fn handle_ide(&self, ide: crate::arg::ide::Target, in_ci: bool) -> (plan: IdeOperation)
        ensures
            self.ide_operation_planned(ide, in_ci, plan),
    {
        match ide.command {
            crate::arg::ide::Command::Build { params } => {
                let (input, output_path) = self.build_ide(params);
                IdeOperation::Build { input, output_path, upload: in_ci }
            },
            crate::arg::ide::Command::Start { params } => {
                let (input, output_path) = self.build_ide(params);
                IdeOperation::Start { input, output_path }
            },
            crate::arg::ide::Command::Watch { project_manager, gui } => {
                let watch = self.watch_gui(gui);
                let backend = self.spawn_project_manager(project_manager, in_ci);
                IdeOperation::Watch { gui: watch, project_manager: backend }
            },
            crate::arg::ide::Command::IntegrationTest { external_backend, project_manager } => {
                let backend = if !external_backend {
                    Some(self.spawn_project_manager(project_manager, in_ci))
                } else {
                    None
                };
                IdeOperation::IntegrationTest { source_root: self.source_root.clone(), backend }
            },
        }
    }

    /// The commit that the sources are at, where the environment tells it;
    /// else the version control system has to be asked.
    pub fn commit(&self, from_env: Option<String>) -> (commit: CommitSource)
        ensures
            commit == match from_env {
                Some(commit) => CommitSource::Known(commit),
                None => CommitSource::HeadOf(self.source_root),
            },
    {
        match from_env {
            Some(commit) => CommitSource::Known(commit),
            None => CommitSource::HeadOf(self.source_root.clone()),
        }
    }
}

/// Resolving a local build needs no provider: whatever a descriptor with a
/// local build as its source is resolved to, it is a job or an error, and
/// never the need to look a release up. The same holds of every source but
/// a release.
pub proof fn lemma_local_build_needs_no_provider<T: Resolvable>(
    ctx: BuildContext,
    descriptor: SourceDescriptor<T::Args>,
    found: Result<Resolution<T::Input>, ResolveError>,
)
    requires
        ctx.resolved::<T>(descriptor, found),
        descriptor.source != SourceKind::Release,
    ensures
        !(found matches Ok(Resolution::NeedsRelease { .. })),
        descriptor.source == SourceKind::Build ==> found is Err || (found matches Ok(
            Resolution::Ready(job),
        ) && job.source is BuildLocally),
{
}

/// The job that a looked-up release comes to, or the error of the lookup.
pub open spec fn release_job<I>(
    found: Result<ReleaseSource, ResolveError>,
    destination: OutputPath,
) -> Result<GetTargetJob<I>, ResolveError> {
    match found {
        Ok(source) => Ok(
            GetTargetJob { source: Source::External(ExternalSource::Release(source)), destination },
        ),
        Err(e) => Err(e),
    }
}

/// How the getting of a target starts.
#[derive(Debug)]
pub enum GetStart<I> {
    /// The source is settled: the state of the operation and its first
    /// step.
    Started { state: GetState, step: FirstStep<I> },
    /// The source is an asset of the designated release, which the
    /// provider has to be asked for first.
    NeedsRelease { designator: String, destination: OutputPath },
}

/// How the getting of a target starts after its source was resolved to
/// `found`.
pub open spec fn started<I>(
    found: Result<Resolution<I>, ResolveError>,
    in_ci: bool,
) -> GetStart<I> {
    match found {
        Ok(Resolution::NeedsRelease { designator, destination }) => GetStart::NeedsRelease {
            designator,
            destination,
        },
        Ok(Resolution::Ready(job)) => GetStart::Started {
            state: begun(Ok(job), in_ci).0,
            step: begun(Ok(job), in_ci).1,
        },
        Err(e) => GetStart::Started {
            state: begun(Err::<GetTargetJob<I>, ResolveError>(e), in_ci).0,
            step: begun(Err::<GetTargetJob<I>, ResolveError>(e), in_ci).1,
        },
    }
}

/// Starts getting a target whose source was resolved to `found`.
pub fn start<I>(found: Result<Resolution<I>, ResolveError>, in_ci: bool) -> (start: GetStart<I>)
    ensures
        start == started(found, in_ci),
{
    match found {
        Ok(Resolution::NeedsRelease { designator, destination }) => GetStart::NeedsRelease {
            designator,
            destination,
        },
        Ok(Resolution::Ready(job)) => {
            let (state, step) = GetState::begin(Ok(job), in_ci);
            GetStart::Started { state, step }
        },
        Err(e) => {
            let (state, step) = GetState::begin(Err(e), in_ci);
            GetStart::Started { state, step }
        },
    }
}

/// What a command about the web module comes to.
#[derive(Debug)]
pub enum WasmOperation {
    Watch { input: wasm::BuildInput, destination: OutputPath },
    Build { input: wasm::BuildInput, destination: OutputPath },
    Check,
    Test { repo_root: String, wasm: bool, native: bool },
    Get(GetStart<wasm::BuildInput>),
}

/// The watching of the interface bundle: how the web module is come by,
/// and what the watching of the bundle itself needs besides.
#[derive(Debug)]
pub struct GuiWatch {
    pub wasm: GetStart<wasm::BuildInput>,
    pub repo_root: RepoRoot,
    pub build_info: gui::PendingBuildInfo,
    pub output_path: OutputPath,
}

/// What a command about the interface bundle comes to.
#[derive(Debug)]
pub enum GuiOperation {
    Get(GetStart<gui::GuiInputs>),
    Watch(GuiWatch),
}

/// What a command about the desktop application comes to.
#[derive(Debug)]
pub enum IdeOperation {
    Build { input: ide::BuildInput, output_path: String, upload: bool },
    Start { input: ide::BuildInput, output_path: String },
    Watch { gui: GuiWatch, project_manager: GetStart<project_manager::BuildInput> },
    IntegrationTest {
        source_root: String,
        backend: Option<GetStart<project_manager::BuildInput>>,
    },
}

/// Where the commit of the sources is to be had from.
#[derive(Debug)]
pub enum CommitSource {
    /// The environment has told it.
    Known(String),
    /// It is the head of the working copy at the given place.
    HeadOf(String),
}

/// What is looked for in a release.
#[derive(Debug, Clone, Copy, PartialEq, Eq, Structural)]
pub enum Wanted {
    /// That it is published.
    Published,
    /// That it is a published nightly release.
    Nightly,
    /// That it has a given tag.
    Tag,
    /// That its tag holds a given text.
    TagPart,
}

/// Whether a release is what is looked for; `text` is the tag, or the part
/// of a tag, where one is looked for.
pub open spec fn is_wanted(release: Release, wanted: Wanted, text: Seq<char>) -> bool {
    match wanted {
        Wanted::Published => !release.draft,
        Wanted::Nightly => nightly_release(release),
        Wanted::Tag => release.tag_name@ == text,
        Wanted::TagPart => is_infix_of(text, release.tag_name@),
    }
}

/// The release at `at` is the first of the list that is what is looked for.
pub open spec fn first_wanted(
    releases: Seq<Release>,
    wanted: Wanted,
    text: Seq<char>,
    at: int,
) -> bool {
    &&& 0 <= at < releases.len()
    &&& is_wanted(releases[at], wanted, text)
    &&& forall|j: int| 0 <= j < at ==> !is_wanted(#[trigger] releases[j], wanted, text)
}

/// No release of the list is what is looked for.
pub open spec fn none_wanted(releases: Seq<Release>, wanted: Wanted, text: Seq<char>) -> bool {
    forall|j: int| 0 <= j < releases.len() ==> !is_wanted(#[trigger] releases[j], wanted, text)
}

/// Finds the first release of a list that is what is looked for.
pub fn find_wanted(releases: &Vec<Release>, wanted: Wanted, text: &str) -> (found: Option<usize>)
    ensures
        match found {
            Some(at) => first_wanted(releases@, wanted, text@, at as int),
            None => none_wanted(releases@, wanted, text@),
        },
{
    let mut i: usize = 0;
    while i < releases.len()
        invariant
            i <= releases.len(),
            forall|j: int| 0 <= j < i ==> !is_wanted(#[trigger] releases@[j], wanted, text@),
        decreases releases.len() - i,
    {
        let release = &releases[i];
        let hit = match wanted {
            Wanted::Published => !release.draft,
            Wanted::Nightly => is_nightly_release(release),
            Wanted::Tag => same_text(release.tag_name.as_str(), text),
            Wanted::TagPart => contains(release.tag_name.as_str(), text),
        };
        if hit {
            return Some(i);
        }
        i += 1;
    }
    None
}

/// Which release of a list, ordered most recent first, a designator names.
///
/// `latest` is the most recent published release and `nightly` the most
/// recent published nightly release. Any other text names the release with
/// exactly that tag or, where there is none, the most recent release whose
/// tag holds the text.
pub open spec fn designated(
    designator: Seq<char>,
    releases: Seq<Release>,
    found: Result<usize, ResolveError>,
) -> bool {
    let wanted = if designator == "latest"@ {
        Wanted::Published
    } else if designator == "nightly"@ {
        Wanted::Nightly
    } else if none_wanted(releases, Wanted::Tag, designator) {
        Wanted::TagPart
    } else {
        Wanted::Tag
    };
    match found {
        Ok(at) => first_wanted(releases, wanted, designator, at as int),
        Err(e) => e == ResolveError::ReleaseNotFound && none_wanted(releases, wanted, designator),
    }
}

/// Reads a release designator.
pub fn release_designator(text: &str) -> (designator: ReleaseDesignator)
    ensures
        text@ == "latest"@ ==> designator is Latest,
        text@ != "latest"@ && text@ == "nightly"@ ==> designator is Nightly,
        text@ != "latest"@ && text@ != "nightly"@ ==> (designator matches ReleaseDesignator::Text(
            tag,
        ) && tag@ == text@),
{
    if same_text(text, "latest") {
        ReleaseDesignator::Latest
    } else if same_text(text, "nightly") {
        ReleaseDesignator::Nightly
    } else {
        ReleaseDesignator::Text(String::from_str(text))
    }
}

/// Finds the release that a designator names in a list of releases that is
/// ordered most recent first.
pub fn find_release(designator: &str, releases: &Vec<Release>) -> (found: Result<
    usize,
    ResolveError,
>)
    ensures
        designated(designator@, releases@, found),
{
    let found = if same_text(designator, "latest") {
        find_wanted(releases, Wanted::Published, designator)
    } else if same_text(designator, "nightly") {
        find_wanted(releases, Wanted::Nightly, designator)
    } else {
        match find_wanted(releases, Wanted::Tag, designator) {
            Some(at) => Some(at),
            None => find_wanted(releases, Wanted::TagPart, designator),
        }
    };
    match found {
        Some(at) => Ok(at),
        None => Err(ResolveError::ReleaseNotFound),
    }
}

} // verus!

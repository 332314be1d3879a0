//! The packaged desktop application.

use crate::join::Join;
use crate::paths::extension_replaced;
use crate::paths::join;
use crate::paths::joined;
use crate::paths::RepoRoot;
use crate::paths::with_extension;
use crate::platform::OS;
use crate::platform::os_name;
use crate::project::gui;
use crate::project::project_manager;
use crate::project::TargetKind;
use crate::source::SourceDescriptor;
use crate::text::concat2;
use crate::text::concat3;
use crate::text::same_text;
use crate::version::Version;
use vstd::prelude::*;
use vstd::string::*;

verus! {

/// Where a job is to place the artifact.
#[derive(Debug)]
pub enum OutputPath {
    /// The job must place the artifact under given path.
    Required(String),
    /// The job may place the artifact anywhere, though it should use the
    /// suggested path if it has no better place of its own (such as an
    /// existing cache entry).
    Suggested(String),
    /// The job is responsible for finding a place for the artifact.
    Whatever,
}

impl Clone for OutputPath {
    fn clone(&self) -> (copy: Self)
        ensures
            copy == *self,
    {
        match self {
            OutputPath::Required(path) => OutputPath::Required(path.clone()),
            OutputPath::Suggested(path) => OutputPath::Suggested(path.clone()),
            OutputPath::Whatever => OutputPath::Whatever,
        }
    }
}

impl OutputPath {
    /// The place that the policy leads to, given the place that the job
    /// would choose by itself, if it has one, and a place to fall back on.
    pub open spec fn placed(self, own: Option<Seq<char>>, fallback: Seq<char>) -> Seq<char> {
        match self {
            OutputPath::Required(path) => path@,
            OutputPath::Suggested(path) => match own {
                Some(own) => own,
                None => path@,
            },
            OutputPath::Whatever => match own {
                Some(own) => own,
                None => fallback,
            },
        }
    }

    /// Chooses the place for an artifact. A required path is taken as it
    /// is.
    pub fn place(&self, own: Option<&str>, fallback: &str) -> (path: String)
        ensures
            path@ == self.placed(
                match own {
                    Some(own) => Some(own@),
                    None => None,
                },
                fallback@,
            ),
            *self matches OutputPath::Required(required) ==> path@ == required@,
    {
        match self {
            OutputPath::Required(path) => path.clone(),
            OutputPath::Suggested(path) => match own {
                Some(own) => String::from_str(own),
                None => path.clone(),
            },
            OutputPath::Whatever => match own {
                Some(own) => String::from_str(own),
                None => String::from_str(fallback),
            },
        }
    }

    /// Whether an artifact at `actual` honours the policy: under a required
    /// path it must be exactly there.
    pub open spec fn honoured_by(self, actual: Seq<char>) -> bool {
        match self {
            OutputPath::Required(path) => path@ == actual,
            _ => true,
        }
    }

    /// Tests the place where a job put the artifact against the policy.
    pub fn is_honoured_by(&self, actual: &str) -> (honoured: bool)
        ensures
            honoured == self.honoured_by(actual@),
    {
        match self {
            OutputPath::Required(path) => same_text(path.as_str(), actual),
            _ => true,
        }
    }
}

/// What a build of the desktop application leaves behind.
#[derive(Debug)]
pub struct Artifact {
    /// Directory with unpacked client distribution.
    pub unpacked: String,
    /// File with the compressed client image (like installer or AppImage).
    pub image: String,
    /// File with the checksum of the image.
    pub image_checksum: String,
}

/// The name of the directory that holds the unpacked client for a system.
pub open spec fn unpacked_name(os: OS) -> Seq<char> {
    match os {
        OS::Linux => "linux-unpacked"@,
        OS::MacOS => "mac"@,
        OS::Windows => "win-unpacked"@,
    }
}

/// The file name of the client image of a version for a system.
pub open spec fn image_name(os: OS, version: Seq<char>) -> Seq<char> {
    match os {
        OS::Linux => "enso-linux-"@ + version + ".AppImage"@,
        OS::MacOS => "enso-mac-"@ + version + ".dmg"@,
        OS::Windows => "enso-win-"@ + version + ".exe"@,
    }
}

/// One upload of what a build of the desktop application left behind.
#[derive(Debug)]
pub enum Upload {
    /// Compress the directory and upload it under the name.
    CompressedDirectory { path: String, name: String },
    /// Upload the file under the name.
    SingleFile { path: String, name: String },
}

impl Artifact {
    /// The places of what a build for `target_os` of `version` leaves
    /// under `dist_dir`: the unpacked client, its image, and the checksum
    /// beside the image.
    pub fn new(target_os: OS, version: &Version, dist_dir: &str) -> (artifact: Self)
        ensures
            artifact.unpacked@ == joined(dist_dir@, unpacked_name(target_os)),
            artifact.image@ == joined(dist_dir@, image_name(target_os, version.text())),
            artifact.image_checksum@ == extension_replaced(artifact.image@, "sha256"@),
    {
        let unpacked = join(
            dist_dir,
            match target_os {
                OS::Linux => "linux-unpacked",
                OS::MacOS => "mac",
                OS::Windows => "win-unpacked",
            },
        );
        let version = version.to_string();
        let name = match target_os {
            OS::Linux => concat3("enso-linux-", version.as_str(), ".AppImage"),
            OS::MacOS => concat3("enso-mac-", version.as_str(), ".dmg"),
            OS::Windows => concat3("enso-win-", version.as_str(), ".exe"),
        };
        let image = join(dist_dir, name.as_str());
        let image_checksum = with_extension(image.as_str(), "sha256");
        Artifact { image_checksum, image, unpacked }
    }

    /// The uploads that are due for the artifact: inside the CI provider's
    /// environment the unpacked client as a compressed directory, then the
    /// image and its checksum, each under a name that tells the system;
    /// outside of it, none.
    pub fn upload(&self, in_ci: bool, target_os: OS) -> (uploads: Vec<Upload>)
        ensures
            !in_ci ==> uploads@.len() == 0,
            in_ci ==> {
                &&& uploads@.len() == 3
                &&& uploads@[0] matches Upload::CompressedDirectory { path, name }
                &&& path == self.unpacked
                &&& name@ == "ide-unpacked-"@ + os_name(target_os)
                &&& uploads@[1] matches Upload::SingleFile { path, name }
                &&& path == self.image
                &&& name@ == "ide-"@ + os_name(target_os)
                &&& uploads@[2] matches Upload::SingleFile { path, name }
                &&& path == self.image_checksum
                &&& name@ == "ide-"@ + os_name(target_os)
            },
    {
        let mut uploads: Vec<Upload> = Vec::new();
        if in_ci {
            let os = target_os.name();
            uploads.push(
                Upload::CompressedDirectory {
                    path: self.unpacked.clone(),
                    name: concat2("ide-unpacked-", os.as_str()),
                },
            );
            uploads.push(
                Upload::SingleFile { path: self.image.clone(), name: concat2("ide-", os.as_str()) },
            );
            uploads.push(
                Upload::SingleFile {
                    path: self.image_checksum.clone(),
                    name: concat2("ide-", os.as_str()),
                },
            );
        }
        uploads
    }
}

/// The inputs of a build of the desktop application. The interface bundle
/// and the backend bundle are not at hand yet: the inputs hold what is
/// needed to get them.
#[derive(Debug)]
pub struct BuildInput {
    pub repo_root: RepoRoot,
    pub version: Version,
    /// The backend bundle that goes into the application, to be acquired.
    pub project_manager: SourceDescriptor<project_manager::BuildArgs>,
    /// The interface bundle that goes into the application, to be
    /// acquired.
    pub gui: SourceDescriptor<crate::arg::gui::BuildInput>,
}

/// What packaging needs: both parts and where the result goes.
#[derive(Debug)]
pub struct Packaging {
    pub gui: gui::Artifact,
    pub project_manager: project_manager::Artifact,
    pub output_path: String,
    pub target_os: OS,
}

/// The target marker of the desktop application, for one system.
#[derive(Debug, Clone, Copy)]
pub struct Ide {
    pub target_os: OS,
}

impl Ide {
    /// The kind of target that the marker stands for.
    pub fn kind(&self) -> (kind: TargetKind)
        ensures
            kind == TargetKind::DesktopInstaller,
    {
        TargetKind::DesktopInstaller
    }

    /// The step that follows the getting of the two parts, which run side
    /// by side and are joined: nothing while the join is pending; the
    /// packaging of both parts once both are there; the failure of the
    /// first part that failed.
    pub fn build(
        &self,
        parts: Join<gui::Artifact, project_manager::Artifact>,
        output_path: &str,
    ) -> (step: Option<Result<Packaging, crate::error::Failure>>)
        ensures
            match parts {
                Join::Pending { .. } => step is None,
                Join::Failed(failure) => step == Some(
                    Err::<Packaging, crate::error::Failure>(failure),
                ),
                Join::Done(gui, project_manager) => {
                    &&& step matches Some(Ok(packaging))
                    &&& packaging.gui == gui
                    &&& packaging.project_manager == project_manager
                    &&& packaging.output_path@ == output_path@
                    &&& packaging.target_os == self.target_os
                },
            },
    {
        match parts.into_result() {
            None => None,
            Some(Err(failure)) => Some(Err(failure)),
            Some(Ok((gui, project_manager))) => Some(
                Ok(
                    Packaging {
                        gui,
                        project_manager,
                        output_path: String::from_str(output_path),
                        target_os: self.target_os,
                    },
                ),
            ),
        }
    }

    /// What a finished packaging has left under `output_path`.
    pub fn packaged(&self, version: &Version, output_path: &str) -> (artifact: Artifact)
        ensures
            artifact.unpacked@ == joined(output_path@, unpacked_name(self.target_os)),
            artifact.image@ == joined(output_path@, image_name(self.target_os, version.text())),
            artifact.image_checksum@ == extension_replaced(artifact.image@, "sha256"@),
    {
        Artifact::new(self.target_os, version, output_path)
    }
}

} // verus!

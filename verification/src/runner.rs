//! Self-hosted runners: how one is named, registered, and laid out in its
//! image.

use crate::paths::extension_replaced;
use crate::paths::join;
use crate::paths::joined;
use crate::paths::with_extension;
use crate::platform::OS;
use crate::platform::os_name;
use crate::source::RepoContext;
use crate::text::concat2;
use crate::text::concat3;
use vstd::prelude::*;
use vstd::string::*;

verus! {

/// Name of the directory with a runner that is placed in runner's
/// container image build context.
pub const DIRECTORY_WITH_RUNNER_PACKAGE: &'static str = "runner";

/// Name of the directory with the CI crate in the image.
pub const DIRECTORY_WITH_CI_CRATE: &'static str = "ci";

/// An organization at the provider.
#[derive(Debug)]
pub struct OrganizationContext {
    pub name: String,
}

/// Where a runner is registered.
#[derive(Debug)]
pub enum RunnerLocation {
    Organization(OrganizationContext),
    Repository(RepoContext),
}

/// A runner, by its name.
#[derive(Debug)]
pub struct Runner {
    pub name: String,
}

/// Full runner configuration.
#[derive(Debug)]
pub struct Config {
    /// Repository where this runner is registered.
    pub location: RunnerLocation,
    /// Runner's name.
    pub runner: Runner,
    /// Operating system of the runner's image. It is possible to have Linux
    /// on Windows or macOS, so this need not be the system of the host.
    pub os: OS,
}

/// What is needed to register runners.
#[derive(Debug, Clone, Copy, PartialEq, Eq, Structural)]
pub struct RegistrationContext {}

/// The extension of scripts on a system.
pub open spec fn extension_of(os: OS) -> Seq<char> {
    if os == OS::Windows {
        "cmd"@
    } else {
        "sh"@
    }
}

/// The extension of scripts on a system.
pub fn script_extension(os: OS) -> (extension: &'static str)
    ensures
        extension@ == extension_of(os),
{
    if os.is_windows() {
        "cmd"
    } else {
        "sh"
    }
}

impl RunnerLocation {
    /// The address of the location at the provider.
    pub open spec fn url_of(self) -> Seq<char> {
        match self {
            RunnerLocation::Organization(org) => "https://github.com/"@ + org.name@,
            RunnerLocation::Repository(repo) => "https://github.com/"@ + repo.owner@ + "/"@
                + repo.name@,
        }
    }

    /// Writes the address of the location at the provider.
    pub fn url(&self) -> (url: String)
        ensures
            url@ == self.url_of(),
    {
        match self {
            RunnerLocation::Organization(org) => concat2("https://github.com/", org.name.as_str()),
            RunnerLocation::Repository(repo) => {
                let mut url = concat3("https://github.com/", repo.owner.as_str(), "/");
                url.append(repo.name.as_str());
                url
            },
        }
    }
}

impl Config {
    /// The text that names the runner with the place it is registered at.
    pub open spec fn qualified(self) -> Seq<char> {
        match self.location {
            RunnerLocation::Organization(org) => org.name@ + "-"@ + self.runner.name@,
            RunnerLocation::Repository(repo) => repo.owner@ + "-"@ + repo.name@ + "-"@
                + self.runner.name@,
        }
    }

    /// Pretty printed triple with repository owner, repository name and
    /// runner name.
    pub fn qualified_name(&self) -> (name: String)
        ensures
            name@ == self.qualified(),
    {
        match &self.location {
            RunnerLocation::Organization(org) => concat3(
                org.name.as_str(),
                "-",
                self.runner.name.as_str(),
            ),
            RunnerLocation::Repository(repo) => {
                let mut name = concat3(repo.owner.as_str(), "-", repo.name.as_str());
                name.append("-");
                name.append(self.runner.name.as_str());
                name
            },
        }
    }

    /// The custom labels that the runner will be registered with.
    ///
    /// Apart from them, the provider's own labels are always used.
    pub fn custom_labels(&self) -> (labels: Vec<String>)
        ensures
            labels@.len() == 1,
            labels@[0] == self.runner.name,
    {
        let mut labels: Vec<String> = Vec::new();
        labels.push(self.runner.name.clone());
        labels
    }

    /// The list of custom labels pretty printed in the format expected by
    /// the `--labels` argument of the runner's configure script.
    pub fn registered_labels_arg(&self) -> (arg: String)
        ensures
            arg@ == self.runner.name@,
    {
        let labels = self.custom_labels();
        let mut arg = String::new();
        let mut i: usize = 0;
        while i < labels.len()
            invariant
                labels@.len() == 1,
                labels@[0] == self.runner.name,
                i <= 1,
                i == 0 ==> arg@.len() == 0,
                i == 1 ==> arg@ == self.runner.name@,
            decreases labels.len() - i,
        {
            if i > 0 {
                arg.append(",");
            }
            arg.append(labels[i].as_str());
            assert(arg@ =~= self.runner.name@);
            i += 1;
        }
        arg
    }

    /// The name under which the runner is registered: its name, a hyphen
    /// and the name of its system.
    pub fn registered_name(&self) -> (name: String)
        ensures
            name@ == self.runner.name@ + "-"@ + os_name(self.os),
    {
        concat3(self.runner.name.as_str(), "-", self.os.name().as_str())
    }

    /// The arguments of the call of the script that registers the runner.
    pub fn register_script_call_args(&self, token: &str) -> (args: Vec<String>)
        ensures
            args@.len() == 10,
            args@[0]@ == "--unattended"@,
            args@[1]@ == "--replace"@,
            args@[2]@ == "--name"@,
            args@[3]@ == self.runner.name@ + "-"@ + os_name(self.os),
            args@[4]@ == "--url"@,
            args@[5]@ == self.location.url_of(),
            args@[6]@ == "--token"@,
            args@[7]@ == token@,
            args@[8]@ == "--labels"@,
            args@[9]@ == self.runner.name@,
    {
        let mut args: Vec<String> = Vec::new();
        args.push(String::from_str("--unattended"));
        args.push(String::from_str("--replace"));
        args.push(String::from_str("--name"));
        args.push(self.registered_name());
        args.push(String::from_str("--url"));
        args.push(self.location.url());
        args.push(String::from_str("--token"));
        args.push(String::from_str(token));
        args.push(String::from_str("--labels"));
        args.push(self.runner.name.clone());
        args
    }

    /// The root of the file system in the image.
    pub open spec fn guest_root(self) -> Seq<char> {
        if self.os == OS::Windows {
            "C:\\"@
        } else {
            "/"@
        }
    }

    /// The root of the file system in the image.
    pub fn guest_root_path(&self) -> (path: String)
        ensures
            path@ == self.guest_root(),
    {
        String::from_str(
            if self.os.is_windows() {
                "C:\\"
            } else {
                "/"
            },
        )
    }

    /// Where the runner is in the image.
    pub fn guest_runner_dir(&self) -> (path: String)
        ensures
            path@ == joined(self.guest_root(), "runner"@),
    {
        join(self.guest_root_path().as_str(), DIRECTORY_WITH_RUNNER_PACKAGE)
    }

    /// Where the CI crate is in the image.
    pub fn guest_ci_dir(&self) -> (path: String)
        ensures
            path@ == joined(self.guest_root(), "ci"@),
    {
        join(self.guest_root_path().as_str(), DIRECTORY_WITH_CI_CRATE)
    }

    /// The file name of the script that configures the runner.
    pub fn config_script_filename(&self) -> (name: String)
        ensures
            name@ == extension_replaced("config"@, extension_of(self.os)),
    {
        with_extension("config", script_extension(self.os))
    }

    /// Where the script that configures the runner is in the image.
    pub fn guest_config_script_path(&self) -> (path: String)
        ensures
            path@ == joined(
                joined(self.guest_root(), "runner"@),
                extension_replaced("config"@, extension_of(self.os)),
            ),
    {
        join(self.guest_runner_dir().as_str(), self.config_script_filename().as_str())
    }

    /// Where the script that runs the runner is in the image.
    pub fn guest_run_script_path(&self) -> (path: String)
        ensures
            path@ == extension_replaced(
                joined(joined(self.guest_root(), "runner"@), "run"@),
                extension_of(self.os),
            ),
    {
        let path = join(self.guest_runner_dir().as_str(), "run");
        with_extension(path.as_str(), script_extension(self.os))
    }
}

} // verus!

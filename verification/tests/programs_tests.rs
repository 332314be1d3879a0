use enso_build::arg::Target;
use enso_build::cli::lint_commands;
use enso_build::cli::main_internal;
use enso_build::cli::Operation;
use enso_build::config::Config;
use enso_build::config::ConfigError;
use enso_build::config::ConfigRaw;
use enso_build::config::RecognizedProgram;
use enso_build::context::BuildContext;
use enso_build::platform::OS;
use enso_build::preflight_check::check_proceed;
use enso_build::preflight_check::explain_proceed;
use enso_build::preflight_check::is_nightly;
use enso_build::preflight_check::nightly_releases;
use enso_build::preflight_check::preflight_check;
use enso_build::preflight_check::prepare_version;
use enso_build::program::Command;
use enso_build::program::EMPTY_ARGS;
use enso_build::program::handle_exit_status;
use enso_build::program::Program;
use enso_build::program::ProgramError;
use enso_build::program::ProgramExt;
use enso_build::program::require_present_at;
use enso_build::program::same_version;
use enso_build::programs::cargo::Cargo;
use enso_build::programs::cargo::Options;
use enso_build::programs::node::Node;
use enso_build::programs::node::Npm;
use enso_build::programs::node::NpmCommand;
use enso_build::programs::vswhere::Catalog;
use enso_build::programs::vswhere::Component;
use enso_build::programs::vswhere::Format;
use enso_build::programs::vswhere::InstanceInfo;
use enso_build::programs::vswhere::NoMsvcInstallation;
use enso_build::programs::vswhere::VsWhere;
use enso_build::release::Release;
use enso_build::source::RepoContext;
use enso_build::version::Version;
use enso_build::version::VersionError;
use enso_build::version::VersionReq;
use enso_build::version::Versions;

#[test]
fn program_names() {
    assert_eq!(Cargo::executable_name(), "cargo");
    assert_eq!(Node::executable_name(), "node");
    assert_eq!(Npm::executable_name(), "npm");
    assert_eq!(VsWhere::executable_name(), "vswhere");
    assert_eq!(Cargo::executable_names(), vec!["cargo"]);
    assert_eq!(Npm::pretty_name(), "npm");
    assert!(Cargo::executable_name_fallback().is_empty());
    assert!(Cargo.default_locations().is_empty());
    assert!(Cargo.current_directory().is_none());
    assert!(EMPTY_ARGS.is_empty());
    assert_eq!(Cargo.parse_version("cargo 1.62.0 (a748cf5a3 2022-06-08)").unwrap().to_string(), "1.62.0");
}

#[test]
fn commands() {
    let command = Command::new("/usr/bin/cargo").arg("build").current_dir("repo");
    assert_eq!(command.program, "/usr/bin/cargo");
    assert_eq!(command.args, vec!["build".to_string()]);
    assert_eq!(command.current_dir.as_deref(), Some("repo"));
    let command = command.args(vec!["--release".to_string(), "-v".to_string()]);
    assert_eq!(command.args, vec!["build", "--release", "-v"]);
    let version = Node.version_command("node");
    assert_eq!(version.program, "node");
    assert_eq!(version.args, vec!["--version"]);
    let args = Cargo.args("cargo", vec!["fmt".to_string()]);
    assert_eq!(args.args, vec!["fmt"]);
    assert!(Cargo.cmd("cargo").args.is_empty());
}

#[test]
fn cargo_options() {
    let command = Options::Workspace.apply(Command::new("cargo").arg("clippy"));
    let command = Options::Package("p".to_string()).apply(command);
    let command = Options::AllTargets.apply(command);
    assert_eq!(command.args, vec!["clippy", "--workspace", "--package", "p", "--all-targets"]);
}

#[test]
fn lint_is_two_calls_of_cargo() {
    let commands = lint_commands("repo", "/bin/cargo");
    assert_eq!(commands.len(), 2);
    assert_eq!(
        commands[0].args,
        vec![
            "clippy",
            "--workspace",
            "--package",
            "enso-integration-test",
            "--all-targets",
            "--",
            "-D",
            "warnings"
        ]
    );
    assert_eq!(commands[1].args, vec!["fmt", "--", "--check"]);
    for command in &commands {
        assert_eq!(command.program, "/bin/cargo");
        assert_eq!(command.current_dir.as_deref(), Some("repo"));
    }
}

#[test]
fn cleaning_and_linting_are_about_the_working_copy() {
    let repo = RepoContext { owner: "enso-org".to_string(), name: "enso".to_string() };
    let (ctx, _) =
        BuildContext::new(Versions::new(Version::new(2022, 1, 1)), OS::Linux, "repo", repo);
    assert!(matches!(
        main_internal(&ctx, Target::Clean, false, "cargo"),
        Operation::Clean { repo_root } if repo_root == "repo"
    ));
    match main_internal(&ctx, Target::Lint, false, "cargo") {
        Operation::Lint { commands } => {
            assert_eq!(commands.len(), 2);
            assert_eq!(commands[0].current_dir.as_deref(), Some("repo"));
        }
        other => panic!("not a lint: {:?}", other),
    }
}

#[test]
fn npm_commands() {
    let mut command = NpmCommand(Command::new("npm"));
    command.install();
    command.workspace("enso-gui");
    command.run("build", vec!["--".to_string(), "--watch".to_string()]);
    assert_eq!(
        command.0.args,
        vec!["install", "--workspace", "enso-gui", "run", "build", "--", "--watch"]
    );
    let install = Npm.install("/bin/npm", "app/ide-desktop");
    assert_eq!(install.0.program, "/bin/npm");
    assert_eq!(install.0.args, vec!["install"]);
    assert_eq!(install.0.current_dir.as_deref(), Some("app/ide-desktop"));
}

#[test]
fn exit_statuses() {
    assert!(handle_exit_status(true, Some(0)).is_ok());
    assert!(matches!(handle_exit_status(false, Some(3)), Err(ProgramError::Failed(Some(3)))));
    assert!(matches!(handle_exit_status(false, None), Err(ProgramError::Failed(None))));
}

#[test]
fn required_versions_of_programs() {
    assert!(require_present_at("v 16.15.0", &Version::new(16, 15, 0)).is_ok());
    match require_present_at("node 16.15.1 (x)", &Version::new(16, 15, 0)) {
        Err(ProgramError::WrongVersion { required, found }) => {
            assert_eq!(required.to_string(), "16.15.0");
            assert_eq!(found.to_string(), "16.15.1");
        }
        other => panic!("not refused: {:?}", other),
    }
    assert!(matches!(
        require_present_at("no version here", &Version::new(1, 0, 0)),
        Err(ProgramError::NoVersion)
    ));
    let mut pre = Version::new(1, 0, 0);
    pre.pre = "rc.1".to_string();
    assert!(!same_version(&pre, &Version::new(1, 0, 0)));
    assert!(same_version(&pre, &pre.clone()));
}

#[test]
fn vswhere_arguments() {
    assert_eq!(
        enso_build::programs::vswhere::Option::Format(Format::Json).format_arguments(),
        vec!["-format", "json"]
    );
    assert_eq!(
        enso_build::programs::vswhere::Option::Required(vec![
            Component::CppBuildTools,
            Component::MsBuild
        ])
        .format_arguments(),
        vec![
            "-requires",
            "Microsoft.VisualStudio.Component.VC.Tools.x86.x64",
            "Microsoft.Component.MSBuild"
        ]
    );
    assert_eq!(
        enso_build::programs::vswhere::Option::ForceUTF8.format_arguments(),
        vec!["-utf8"]
    );
    assert_eq!(Format::Text.name(), "text");
    assert_eq!(Format::Value.name(), "value");
    assert_eq!(Format::Xml.name(), "xml");
    assert_eq!(
        VsWhere::find_all_with(Component::MsBuild),
        vec!["-format", "json", "-requires", "Microsoft.Component.MSBuild", "-utf8"]
    );
    assert_eq!(
        VsWhere::msvc(),
        vec![
            "-format",
            "json",
            "-requires",
            "Microsoft.VisualStudio.Component.VC.Tools.x86.x64",
            "-utf8",
            "-products",
            "*"
        ]
    );
    assert_eq!(VsWhere::with_msbuild()[3], "Microsoft.Component.MSBuild");
    assert_eq!(VsWhere::find_with(Component::MsBuild).len(), 7);
    assert_eq!(
        VsWhere::installer_dir("C:/Program Files (x86)"),
        "C:/Program Files (x86)/Microsoft Visual Studio/Installer"
    );
}

fn instance(name: &str) -> InstanceInfo {
    InstanceInfo {
        install_date: "2019-04-02T19:34:05Z".to_string(),
        installation_path: "C:\\Program Files (x86)\\Microsoft Visual Studio\\2019\\Community"
            .to_string(),
        installation_version: "16.8.30711.63".to_string(),
        is_prerelease: false,
        display_name: name.to_string(),
        catalog: Catalog { product_line_version: "2019".to_string() },
    }
}

#[test]
fn vswhere_takes_the_first_installation() {
    let found = VsWhere::first_found(vec![
        instance("Visual Studio Community 2019"),
        instance("Visual Studio Community 2017"),
    ])
    .unwrap();
    assert_eq!(found.display_name, "Visual Studio Community 2019");
    let error = VsWhere::first_found(Vec::new()).unwrap_err();
    assert_eq!(error, NoMsvcInstallation);
    assert_eq!(error.to_string(), "failed to find a MSVC installation");
}

fn raw(limit: Option<&str>, required: &[(&str, &str)]) -> ConfigRaw {
    ConfigRaw {
        wasm_size_limit: limit.map(str::to_string),
        required_versions: required.iter().map(|(p, r)| (p.to_string(), r.to_string())).collect(),
    }
}

#[test]
fn configuration_is_read() {
    let config = Config::try_from(raw(
        Some("4.37MB"),
        &[("node", "=16.15.0"), ("wasm-pack", "^0.10.2"), ("flatc", "=1.12.0")],
    ))
    .unwrap();
    assert_eq!(config.wasm_size_limit, Some(4_370_000));
    let read: Vec<(&str, String)> = config
        .required_versions
        .iter()
        .map(|(program, requirement)| (program.name(), requirement.to_string()))
        .collect();
    assert_eq!(
        read,
        vec![
            ("node", "=16.15.0".to_string()),
            ("wasm-pack", "^0.10.2".to_string()),
            ("flatc", "=1.12.0".to_string()),
        ]
    );
    let empty = Config::try_from(ConfigRaw::default()).unwrap();
    assert!(empty.wasm_size_limit.is_none() && empty.required_versions.is_empty());
    assert!(Config::default().required_versions.is_empty());
}

#[test]
fn configuration_is_refused() {
    assert!(matches!(
        Config::try_from(raw(Some("huge"), &[("node", "=16.15.0")])),
        Err(ConfigError::InvalidSize)
    ));
    assert!(matches!(
        Config::try_from(raw(Some("huge"), &[("node", "=16.15.0"), ("npm", "latest!")])),
        Err(ConfigError::InvalidRequirement(1))
    ));
}

#[test]
fn programs_are_checked_against_the_configuration() {
    let config =
        Config::try_from(raw(None, &[("node", "=16.15.0"), ("wasm-pack", "^0.10.2")])).unwrap();
    assert!(config.check_programs(&vec![Version::new(16, 15, 0), Version::new(0, 10, 9)]).is_ok());
    match config.check_programs(&vec![Version::new(16, 15, 0), Version::new(0, 11, 0)]) {
        Err(ConfigError::Unfulfilled { program, found, required }) => {
            assert_eq!(program.name(), "wasm-pack");
            assert_eq!(found.to_string(), "0.11.0");
            assert_eq!(required.to_string(), "^0.10.2");
        }
        other => panic!("not refused: {:?}", other),
    }
    match config.check_programs(&vec![Version::new(17, 0, 0), Version::new(0, 11, 0)]) {
        Err(ConfigError::Unfulfilled { program, .. }) => assert_eq!(program.name(), "node"),
        other => panic!("not refused: {:?}", other),
    }
    let program = RecognizedProgram::from_str("flatc");
    let requirement = VersionReq::parse("=1.12.0").unwrap();
    assert!(Config::check_program(&program, &requirement, &Version::new(1, 12, 0)).is_ok());
    assert!(Config::check_program(&program, &requirement, &Version::new(1, 12, 1)).is_err());
    assert!(matches!(
        config.check_programs(&vec![Version::new(16, 15, 0)]),
        Err(ConfigError::VersionsMissing)
    ));
}

fn nightly(tag: &str, commit: &str) -> Release {
    Release {
        tag_name: tag.to_string(),
        name: Some(format!("Enso Nightly {}", tag)),
        draft: false,
        target_commitish: commit.to_string(),
        assets: Vec::new(),
    }
}

#[test]
fn nightlies_are_told_by_their_title() {
    assert!(is_nightly(&nightly("t", "c")));
    let mut draft = nightly("t", "c");
    draft.draft = true;
    assert!(!is_nightly(&draft));
    let mut untitled = nightly("t", "c");
    untitled.name = None;
    assert!(!is_nightly(&untitled));
    let mut release = nightly("t", "c");
    release.name = Some("Enso 1.0".to_string());
    assert!(!is_nightly(&release));
    let kept: Vec<String> = nightly_releases(vec![nightly("a", "1"), release, nightly("b", "2")])
        .into_iter()
        .map(|r| r.tag_name)
        .collect();
    assert_eq!(kept, vec!["a".to_string(), "b".to_string()]);
}

#[test]
fn nightly_build_proceeds_on_new_commits() {
    let nightlies = vec![nightly("new", "abc"), nightly("old", "def")];
    assert!(!check_proceed("abc", &nightlies));
    assert!(check_proceed("def", &nightlies));
    assert!(check_proceed("abc", &Vec::new()));
    assert_eq!(
        explain_proceed("abc", &nightlies),
        "Current commit (abc) is the same as for the most recent nightly build. A new build is not needed."
    );
    assert_eq!(
        explain_proceed("def", &nightlies),
        "Current commit (def) is different from the most recent nightly build (abc). Proceeding with a new nightly build."
    );
    assert_eq!(
        explain_proceed("abc", &Vec::new()),
        "No prior nightly releases found. Proceeding with the first release."
    );
}

#[test]
fn nightly_versions_are_prepared() {
    let found = || {
        let mut found = Version::new(0, 2, 32);
        found.pre = "SNAPSHOT".to_string();
        found
    };
    let versions = prepare_version("2022-05-06", found(), &Vec::new()).unwrap();
    assert_eq!(versions.engine.to_string(), "0.2.32-SNAPSHOT.2022-05-06");
    assert_eq!(versions.edition, "nightly-2022-05-06");
    let nightlies = vec![
        nightly("enso-0.2.32-SNAPSHOT.2022-05-06.1", "b"),
        nightly("enso-0.2.32-SNAPSHOT.2022-05-06", "a"),
        nightly("enso-0.2.32-SNAPSHOT.2022-05-05", "z"),
    ];
    let versions = prepare_version("2022-05-06", found(), &nightlies).unwrap();
    assert_eq!(versions.engine.to_string(), "0.2.32-SNAPSHOT.2022-05-06.2");
    assert_eq!(versions.edition, "nightly-2022-05-06.2");
    let versions = prepare_version("2022-05-05", found(), &nightlies).unwrap();
    assert_eq!(versions.engine.to_string(), "0.2.32-SNAPSHOT.2022-05-05.1");
    assert_eq!(versions.edition, "nightly-2022-05-05.1");
    // Tags without the prefix count as well.
    let plain = vec![nightly("0.2.32-SNAPSHOT.2022-05-06", "a")];
    let versions = prepare_version("2022-05-06", found(), &plain).unwrap();
    assert_eq!(versions.edition, "nightly-2022-05-06.1");
    assert_eq!(
        prepare_version("06.05.22!", found(), &plain).unwrap_err(),
        VersionError::InvalidPrerelease
    );
}

#[test]
fn preflight_check_answers() {
    let nightlies = vec![nightly("enso-0.2.32-SNAPSHOT.2022-05-06", "abc")];
    let found = Version::new(0, 2, 32);
    assert!(preflight_check("abc", "2022-05-06", found.clone(), &nightlies).unwrap().is_none());
    let versions = preflight_check("def", "2022-05-06", found, &nightlies).unwrap().unwrap();
    assert_eq!(versions.engine.to_string(), "0.2.32-SNAPSHOT.2022-05-06.1");
}

/// Reads the installations out of what the locator printed.
fn instances(text: &str) -> Result<Vec<InstanceInfo>, String> {
    let value = serde_json::from_str::<serde_json::Value>(text).map_err(|e| e.to_string())?;
    let list = value.as_array().ok_or("not a list")?;
    let text_of = |value: &serde_json::Value, name: &str| {
        value.get(name).and_then(|v| v.as_str()).map(str::to_string).ok_or(format!("no {name}"))
    };
    list.iter()
        .map(|entry| -> Result<InstanceInfo, String> {
            let catalog = entry.get("catalog").ok_or("no catalog")?;
            Ok(InstanceInfo {
                install_date: text_of(entry, "installDate")?,
                installation_path: text_of(entry, "installationPath")?,
                installation_version: text_of(entry, "installationVersion")?,
                is_prerelease: entry
                    .get("isPrerelease")
                    .and_then(|v| v.as_bool())
                    .ok_or("no isPrerelease")?,
                display_name: text_of(entry, "displayName")?,
                catalog: Catalog { product_line_version: text_of(catalog, "productLineVersion")? },
            })
        })
        .collect()
}

#[test]
fn parse() {
    let sample_out = r#"
[
  {
    "instanceId": "a7578c88",
    "installDate": "2019-04-02T19:34:05Z",
    "installationName": "VisualStudio/16.8.1+30711.63",
    "installationPath": "C:\\Program Files (x86)\\Microsoft Visual Studio\\2019\\Community",
    "installationVersion": "16.8.30711.63",
    "productId": "Microsoft.VisualStudio.Product.Community",
    "productPath": "C:\\Program Files (x86)\\Microsoft Visual Studio\\2019\\Community\\Common7\\IDE\\devenv.exe",
    "state": 4294967295,
    "isComplete": true,
    "isLaunchable": true,
    "isPrerelease": false,
    "isRebootRequired": false,
    "displayName": "Visual Studio Community 2019",
    "description": "Zaawansowane środowisko IDE — bezpłatne dla uczniów i studentów, współautorów oprogramowania open source oraz indywidualnych osób",
    "channelId": "VisualStudio.16.Release",
    "channelUri": "https://aka.ms/vs/16/release/channel",
    "enginePath": "C:\\Program Files (x86)\\Microsoft Visual Studio\\Installer\\resources\\app\\ServiceHub\\Services\\Microsoft.VisualStudio.Setup.Service",
    "releaseNotes": "https://go.microsoft.com/fwlink/?LinkId=660893#16.8.1",
    "thirdPartyNotices": "https://go.microsoft.com/fwlink/?LinkId=660909",
    "updateDate": "2020-11-12T21:48:39.0758481Z",
    "catalog": {
      "buildBranch": "d16.8",
      "buildVersion": "16.8.30711.63",
      "id": "VisualStudio/16.8.1+30711.63",
      "localBuild": "build-lab",
      "manifestName": "VisualStudio",
      "manifestType": "installer",
      "productDisplayVersion": "16.8.1",
      "productLine": "Dev16",
      "productLineVersion": "2019",
      "productMilestone": "RTW",
      "productMilestoneIsPreRelease": "False",
      "productName": "Visual Studio",
      "productPatchVersion": "1",
      "productPreReleaseMilestoneSuffix": "1.0",
      "productSemanticVersion": "16.8.1+30711.63",
      "requiredEngineVersion": "2.8.3267.30329"
    },
    "properties": {
      "campaignId": "535420412.1544277453",
      "channelManifestId": "VisualStudio.16.Release/16.8.1+30711.63",
      "nickname": "",
      "setupEngineFilePath": "C:\\Program Files (x86)\\Microsoft Visual Studio\\Installer\\vs_installershell.exe"
    }
  },
  {
    "instanceId": "aa771714",
    "installDate": "2018-12-08T14:06:40Z",
    "installationName": "VisualStudio/15.9.15+28307.812",
    "installationPath": "C:\\Program Files (x86)\\Microsoft Visual Studio\\2017\\Community",
    "installationVersion": "15.9.28307.812",
    "productId": "Microsoft.VisualStudio.Product.Community",
    "productPath": "C:\\Program Files (x86)\\Microsoft Visual Studio\\2017\\Community\\Common7\\IDE\\devenv.exe",
    "state": 4294967295,
    "isComplete": true,
    "isLaunchable": true,
    "isPrerelease": false,
    "isRebootRequired": false,
    "displayName": "Visual Studio Community 2017",
    "description": "Bezpłatne, w pełni funkcjonalne środowisko IDE dla studentów oraz programistów indywidualnych i tworzących rozwiązania open source",
    "channelId": "VisualStudio.15.Release",
    "channelUri": "https://aka.ms/vs/15/release/channel",
    "enginePath": "C:\\Program Files (x86)\\Microsoft Visual Studio\\Installer\\resources\\app\\ServiceHub\\Services\\Microsoft.VisualStudio.Setup.Service",
    "releaseNotes": "https://go.microsoft.com/fwlink/?LinkId=660692#15.9.15",
    "thirdPartyNotices": "https://go.microsoft.com/fwlink/?LinkId=660708",
    "updateDate": "2019-08-15T16:21:01.6235246Z",
    "catalog": {
      "buildBranch": "d15.9",
      "buildVersion": "15.9.28307.812",
      "id": "VisualStudio/15.9.15+28307.812",
      "localBuild": "build-lab",
      "manifestName": "VisualStudio",
      "manifestType": "installer",
      "productDisplayVersion": "15.9.15",
      "productLine": "Dev15",
      "productLineVersion": "2017",
      "productMilestone": "RTW",
      "productMilestoneIsPreRelease": "False",
      "productName": "Visual Studio",
      "productPatchVersion": "15",
      "productPreReleaseMilestoneSuffix": "1.0",
      "productRelease": "RTW",
      "productSemanticVersion": "15.9.15+28307.812",
      "requiredEngineVersion": "1.18.1049.33485"
    },
    "properties": {
      "campaignId": "535420412.1544277453",
      "channelManifestId": "VisualStudio.15.Release/15.9.15+28307.812",
      "nickname": "",
      "setupEngineFilePath": "C:\\Program Files (x86)\\Microsoft Visual Studio\\Installer\\vs_installershell.exe"
    }
  }
]"#;
    let ret = instances(sample_out);
    assert!(ret.is_ok());
    let found = VsWhere::first_found(ret.unwrap()).unwrap();
    assert_eq!(found.display_name, "Visual Studio Community 2019");
    assert_eq!(found.catalog.product_line_version, "2019");
    assert_eq!(found.installation_version, "16.8.30711.63");
    assert!(!found.is_prerelease);
}

/// Reads a written configuration out of its YAML text.
fn raw_from_yaml(text: &str) -> Result<ConfigRaw, String> {
    let value = serde_yaml::from_str::<serde_yaml::Value>(text).map_err(|e| e.to_string())?;
    let wasm_size_limit = match value.get("wasm-size-limit") {
        Some(limit) => Some(limit.as_str().ok_or("the size limit is no text")?.to_string()),
        None => None,
    };
    let required = value
        .get("required-versions")
        .and_then(|versions| versions.as_mapping())
        .ok_or("no required versions")?;
    let mut required_versions = Vec::new();
    for (program, requirement) in required {
        let program = program.as_str().ok_or("a program is no text")?;
        let requirement = requirement.as_str().ok_or("a requirement is no text")?;
        required_versions.push((program.to_string(), requirement.to_string()));
    }
    Ok(ConfigRaw { wasm_size_limit, required_versions })
}

#[test]
fn deserialize() {
    let config = r#"
# Options intended to be common for all developers.
wasm-size-limit: "4.37MB"
required-versions:
  node: =16.15.0
  wasm-pack: ^0.10.2
  flatc: =1.12.0
"#;
    let config = raw_from_yaml(config).unwrap();
    assert_eq!(config.wasm_size_limit.as_deref(), Some("4.37MB"));
    assert_eq!(config.required_versions.len(), 3);
    let config = Config::try_from(config).unwrap();
    assert_eq!(config.wasm_size_limit, Some(4_370_000));
    let found = vec![Version::new(16, 15, 0), Version::new(0, 10, 2), Version::new(1, 12, 0)];
    assert!(config.check_programs(&found).is_ok());
}

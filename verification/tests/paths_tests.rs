use enso_build::paths::find_last;
use enso_build::paths::join;
use enso_build::paths::RepoRoot;
use enso_build::paths::TargetTriple;
use enso_build::paths::with_extension;
use enso_build::platform::OS;
use enso_build::runner::Config;
use enso_build::runner::DIRECTORY_WITH_CI_CRATE;
use enso_build::runner::DIRECTORY_WITH_RUNNER_PACKAGE;
use enso_build::runner::OrganizationContext;
use enso_build::runner::Runner;
use enso_build::runner::RunnerLocation;
use enso_build::runner::script_extension;
use enso_build::source::RepoContext;
use enso_build::text::decimal_text;
use enso_build::text::list_contains;
use enso_build::version::Version;
use enso_build::version::Versions;

#[test]
fn joining_paths() {
    assert_eq!(join("a/b", "c"), "a/b/c");
    assert_eq!(join("a/b/", "c"), "a/b/c");
    assert_eq!(join("", "c"), "c");
    assert_eq!(join("a", "/c"), "/c");
    assert_eq!(join("/", "c"), "/c");
    assert_eq!(join("a", ""), "a/");
}

#[test]
fn replacing_extensions() {
    assert_eq!(with_extension("a/b.txt", "md"), "a/b.md");
    assert_eq!(with_extension("a/b", "md"), "a/b.md");
    assert_eq!(with_extension("a.d/b", "md"), "a.d/b.md");
    assert_eq!(with_extension("a/.hidden", "md"), "a/.hidden.md");
    assert_eq!(with_extension(".hidden", "md"), ".hidden.md");
    assert_eq!(with_extension("a/b.tar.gz", "zip"), "a/b.tar.zip");
    assert_eq!(with_extension("config", "cmd"), "config.cmd");
}

#[test]
fn finding_the_last_occurrence() {
    assert_eq!(find_last("a/b/c", '/'), Some(3));
    assert_eq!(find_last("abc", '/'), None);
    assert_eq!(find_last("", '/'), None);
    assert_eq!(find_last("/", '/'), Some(0));
}

#[test]
fn decimal_texts() {
    assert_eq!(decimal_text(0), "0");
    assert_eq!(decimal_text(7), "7");
    assert_eq!(decimal_text(10), "10");
    assert_eq!(decimal_text(2022), "2022");
    assert_eq!(decimal_text(u64::MAX), "18446744073709551615");
}

#[test]
fn looking_texts_up() {
    let texts = vec!["a".to_string(), "bc".to_string()];
    assert!(list_contains(&texts, "bc"));
    assert!(!list_contains(&texts, "b"));
    assert!(!list_contains(&Vec::new(), ""));
}

#[test]
fn operating_system_names() {
    assert_eq!(OS::Linux.name(), "linux");
    assert_eq!(OS::MacOS.name(), "macos");
    assert_eq!(OS::Windows.name(), "windows");
    assert!(OS::Windows.is_windows());
    assert!(!OS::Linux.is_windows());
}

#[test]
fn triples_and_repository_layout() {
    let mut version = Version::new(2022, 1, 1);
    version.pre = "dev".to_string();
    let triple = TargetTriple::new(OS::MacOS, Versions::new(version));
    assert_eq!(triple.to_string(), "2022.1.1-dev-macos");
    let root = RepoRoot::new("/repo", &triple.to_string());
    assert_eq!(root.ide_desktop(), "/repo/app/ide-desktop");
    assert_eq!(root.built_distribution(), "/repo/built-distribution/2022.1.1-dev-macos");
}

fn runner(os: OS) -> Config {
    Config {
        location: RunnerLocation::Repository(RepoContext {
            owner: "enso-org".to_string(),
            name: "enso".to_string(),
        }),
        runner: Runner { name: "metarunner".to_string() },
        os,
    }
}

#[test]
fn runner_names() {
    let config = runner(OS::Linux);
    assert_eq!(config.qualified_name(), "enso-org-enso-metarunner");
    assert_eq!(config.custom_labels(), vec!["metarunner".to_string()]);
    assert_eq!(config.registered_labels_arg(), "metarunner");
    assert_eq!(config.registered_name(), "metarunner-linux");
    assert_eq!(config.location.url(), "https://github.com/enso-org/enso");
    let organization = Config {
        location: RunnerLocation::Organization(OrganizationContext { name: "enso-org".to_string() }),
        runner: Runner { name: "r1".to_string() },
        os: OS::Windows,
    };
    assert_eq!(organization.qualified_name(), "enso-org-r1");
    assert_eq!(organization.location.url(), "https://github.com/enso-org");
    assert_eq!(organization.registered_name(), "r1-windows");
}

#[test]
fn runner_registration_arguments() {
    let args = runner(OS::MacOS).register_script_call_args("SECRET");
    assert_eq!(
        args,
        vec![
            "--unattended",
            "--replace",
            "--name",
            "metarunner-macos",
            "--url",
            "https://github.com/enso-org/enso",
            "--token",
            "SECRET",
            "--labels",
            "metarunner",
        ]
    );
}

#[test]
fn runner_guest_paths() {
    assert_eq!(DIRECTORY_WITH_RUNNER_PACKAGE, "runner");
    assert_eq!(DIRECTORY_WITH_CI_CRATE, "ci");
    assert_eq!(script_extension(OS::Windows), "cmd");
    assert_eq!(script_extension(OS::Linux), "sh");
    assert_eq!(script_extension(OS::MacOS), "sh");
    let linux = runner(OS::Linux);
    assert_eq!(linux.guest_root_path(), "/");
    assert_eq!(linux.guest_runner_dir(), "/runner");
    assert_eq!(linux.guest_ci_dir(), "/ci");
    assert_eq!(linux.config_script_filename(), "config.sh");
    assert_eq!(linux.guest_config_script_path(), "/runner/config.sh");
    assert_eq!(linux.guest_run_script_path(), "/runner/run.sh");
    let windows = runner(OS::Windows);
    assert_eq!(windows.guest_root_path(), "C:\\");
    assert_eq!(windows.guest_runner_dir(), "C:\\/runner");
    assert_eq!(windows.config_script_filename(), "config.cmd");
    assert_eq!(windows.guest_config_script_path(), "C:\\/runner/config.cmd");
    assert_eq!(windows.guest_run_script_path(), "C:\\/runner/run.cmd");
}

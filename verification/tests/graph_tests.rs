use enso_build::error::Failure;
use enso_build::join::Join;
use enso_build::platform::OS;
use enso_build::project::gui;
use enso_build::project::ide::Artifact;
use enso_build::project::ide::Ide;
use enso_build::project::ide::Upload;
use enso_build::project::project_manager;
use enso_build::project::project_manager::ProjectManager;
use enso_build::project::TargetKind;
use enso_build::release::Asset;
use enso_build::version::Version;
use enso_build::version::Versions;

const KINDS: [TargetKind; 4] = [
    TargetKind::WasmModule,
    TargetKind::GuiBundle,
    TargetKind::BackendBundle,
    TargetKind::DesktopInstaller,
];

#[test]
fn dependencies_of_each_kind() {
    assert!(TargetKind::WasmModule.dependencies().is_empty());
    assert!(TargetKind::BackendBundle.dependencies().is_empty());
    assert_eq!(TargetKind::GuiBundle.dependencies(), vec![TargetKind::WasmModule]);
    assert_eq!(
        TargetKind::DesktopInstaller.dependencies(),
        vec![TargetKind::GuiBundle, TargetKind::BackendBundle]
    );
}

#[test]
fn no_kind_reaches_itself() {
    for kind in KINDS {
        let mut frontier = kind.dependencies();
        let mut steps = 0;
        while !frontier.is_empty() {
            assert!(!frontier.contains(&kind));
            frontier = frontier.iter().flat_map(|k| k.dependencies()).collect();
            steps += 1;
            assert!(steps <= 2);
        }
    }
}

#[test]
fn watchable_kinds_and_artifact_names() {
    assert!(TargetKind::WasmModule.supports_watch());
    assert!(TargetKind::GuiBundle.supports_watch());
    assert!(!TargetKind::BackendBundle.supports_watch());
    assert!(!TargetKind::DesktopInstaller.supports_watch());
    assert_eq!(TargetKind::GuiBundle.artifact_name(), "gui");
    assert_eq!(TargetKind::BackendBundle.artifact_name(), "Enso Project Manager");
    assert_eq!(ProjectManager.artifact_name(), "Enso Project Manager");
    assert_eq!(gui::Gui.artifact_name(), "gui");
}

fn failure(report: &str) -> Failure {
    Failure::Build(report.to_string())
}

#[test]
fn join_fails_fast() {
    // The right side never reports.
    let join: Join<u8, u8> = Join::new().on_left(Err(failure("left")));
    assert!(join.settled());
    assert!(matches!(join.into_result(), Some(Err(Failure::Build(report))) if report == "left"));

    let join: Join<u8, u8> = Join::new().on_right(Err(failure("right")));
    assert!(join.settled());
    // What the other side reports afterwards changes nothing.
    let join = join.on_left(Ok(1)).on_left(Err(failure("late")));
    assert!(matches!(join.into_result(), Some(Err(Failure::Build(report))) if report == "right"));
}

#[test]
fn join_waits_for_both() {
    let join: Join<u8, &str> = Join::new();
    assert!(!join.settled());
    let join = join.on_right(Ok("b"));
    assert!(!join.settled());
    let join = join.on_left(Ok(7));
    assert!(join.settled());
    assert!(matches!(join.into_result(), Some(Ok((7, "b")))));

    let join: Join<u8, &str> = Join::new().on_left(Ok(7)).on_right(Err(failure("b")));
    assert!(matches!(join.into_result(), Some(Err(_))));
    let pending: Join<u8, &str> = Join::new().on_left(Ok(7));
    assert!(pending.into_result().is_none());
}

#[test]
fn installer_is_packaged_once_both_parts_are_there() {
    let ide = Ide { target_os: OS::Linux };
    assert_eq!(ide.kind(), TargetKind::DesktopInstaller);
    let parts: Join<gui::Artifact, project_manager::Artifact> = Join::new();
    assert!(ide.build(parts, "dist/ide").is_none());
    let parts: Join<gui::Artifact, project_manager::Artifact> =
        Join::new().on_left(Ok(gui::Gui.built("dist/gui")));
    assert!(ide.build(parts, "dist/ide").is_none());
    let parts = Join::new()
        .on_left(Ok(gui::Artifact::new("dist/gui")))
        .on_right(Ok(ProjectManager.adapt_artifact("dist/pm")));
    let packaging = ide.build(parts, "dist/ide").unwrap().unwrap();
    assert_eq!(packaging.gui.path, "dist/gui");
    assert_eq!(packaging.project_manager.root, "dist/pm");
    assert_eq!(packaging.output_path, "dist/ide");
    assert_eq!(packaging.target_os, OS::Linux);
    let parts: Join<gui::Artifact, project_manager::Artifact> =
        Join::new().on_right(Err(failure("backend")));
    assert!(matches!(ide.build(parts, "dist/ide"), Some(Err(Failure::Build(r))) if r == "backend"));
}

#[test]
fn installer_artifacts() {
    let mut version = Version::new(2022, 1, 1);
    version.pre = "nightly.2022-01-02".to_string();
    let linux = Artifact::new(OS::Linux, &version, "dist/ide");
    assert_eq!(linux.unpacked, "dist/ide/linux-unpacked");
    assert_eq!(linux.image, "dist/ide/enso-linux-2022.1.1-nightly.2022-01-02.AppImage");
    assert_eq!(linux.image_checksum, "dist/ide/enso-linux-2022.1.1-nightly.2022-01-02.sha256");
    let mac = Artifact::new(OS::MacOS, &version, "dist/ide/");
    assert_eq!(mac.unpacked, "dist/ide/mac");
    assert_eq!(mac.image, "dist/ide/enso-mac-2022.1.1-nightly.2022-01-02.dmg");
    let windows = Ide { target_os: OS::Windows }.packaged(&Version::new(1, 2, 3), "out");
    assert_eq!(windows.unpacked, "out/win-unpacked");
    assert_eq!(windows.image, "out/enso-win-1.2.3.exe");
    assert_eq!(windows.image_checksum, "out/enso-win-1.2.3.sha256");
}

#[test]
fn installer_uploads_only_in_ci() {
    let artifact = Artifact::new(OS::MacOS, &Version::new(1, 2, 3), "out");
    assert!(artifact.upload(false, OS::MacOS).is_empty());
    let uploads = artifact.upload(true, OS::MacOS);
    assert_eq!(uploads.len(), 3);
    assert!(matches!(&uploads[0], Upload::CompressedDirectory { path, name }
        if path == "out/mac" && name == "ide-unpacked-macos"));
    assert!(matches!(&uploads[1], Upload::SingleFile { path, name }
        if path == "out/enso-mac-1.2.3.dmg" && name == "ide-macos"));
    assert!(matches!(&uploads[2], Upload::SingleFile { path, name }
        if path == "out/enso-mac-1.2.3.sha256" && name == "ide-macos"));
}

#[test]
fn backend_build_plan() {
    let input = project_manager::BuildInput {
        versions: Versions::new(Version::new(2022, 1, 1)),
        repo_root: "repo".to_string(),
    };
    let plan = ProjectManager.build_locally(input, "dist/pm");
    assert!(!plan.flags.clean_repo);
    assert!(plan.flags.build_project_manager_package);
    assert!(plan.flags.build_engine_package);
    assert_eq!(plan.flags.test_scala, project_manager::nightly().test_scala);
    assert!(project_manager::nightly().clean_repo);
    assert_eq!(plan.repo_root, "repo");
    assert_eq!(plan.destination, "dist/pm");
    let artifact = ProjectManager.built(&plan, Some("built/pm")).unwrap();
    assert_eq!(artifact.root, "dist/pm");
    assert_eq!(artifact.executable(OS::Linux), "dist/pm/bin/project-manager");
    assert_eq!(artifact.executable(OS::Windows), "dist/pm/bin/project-manager.exe");
    match ProjectManager.built(&plan, None) {
        Err(Failure::Build(report)) => assert_eq!(report, "Missing Project Manager package!"),
        other => panic!("not failed: {:?}", other),
    }
}

#[test]
fn acquisition_order_puts_dependencies_first() {
    assert_eq!(TargetKind::WasmModule.acquisition_order(), vec![TargetKind::WasmModule]);
    assert_eq!(
        TargetKind::GuiBundle.acquisition_order(),
        vec![TargetKind::WasmModule, TargetKind::GuiBundle]
    );
    assert_eq!(
        TargetKind::DesktopInstaller.acquisition_order(),
        vec![
            TargetKind::WasmModule,
            TargetKind::GuiBundle,
            TargetKind::BackendBundle,
            TargetKind::DesktopInstaller
        ]
    );
    for kind in KINDS {
        let order = kind.acquisition_order();
        assert_eq!(order.last(), Some(&kind));
        for (i, acquired) in order.iter().enumerate() {
            for needed in acquired.dependencies() {
                assert!(order[..i].contains(&needed));
            }
        }
    }
}

#[test]
fn matching_assets_are_counted() {
    let assets: Vec<Asset> = ["gui.zip", "gui-assets.tar.gz", "wasm.zip"]
        .iter()
        .enumerate()
        .map(|(i, name)| Asset { id: i as u64, name: name.to_string() })
        .collect();
    assert_eq!(TargetKind::GuiBundle.count_assets(OS::Linux, &assets), 2);
    assert_eq!(TargetKind::GuiBundle.find_asset(OS::Linux, &assets), Ok(0));
    assert_eq!(TargetKind::WasmModule.count_assets(OS::Linux, &assets), 1);
    assert_eq!(TargetKind::BackendBundle.count_assets(OS::Linux, &assets), 0);
    assert_eq!(TargetKind::GuiBundle.count_assets(OS::Linux, &Vec::new()), 0);
}

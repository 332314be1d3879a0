//! The entry of the engine: which operation a command comes to.

use crate::arg::Target;
use crate::context::BuildContext;
use crate::context::GetStart;
use crate::context::GuiOperation;
use crate::context::IdeOperation;
use crate::context::WasmOperation;
use crate::error::ResolveError;
use crate::program::Command;
use crate::program::ProgramExt;
use crate::program::texts;
use crate::programs::cargo::Cargo;
use crate::programs::cargo::Options;
use crate::project::project_manager;
use vstd::prelude::*;
use vstd::string::*;

verus! {

/// What a command comes to.
#[derive(Debug)]
pub enum Operation {
    Wasm(Result<WasmOperation, ResolveError>),
    Gui(GuiOperation),
    ProjectManager(GetStart<project_manager::BuildInput>),
    Ide(IdeOperation),
    /// Remove what builds have left in the working copy at the given
    /// place.
    Clean { repo_root: String },
    /// Make the given calls one after the other.
    Lint { commands: Vec<Command> },
}

/// The arguments of the call that checks the sources for common
/// mistakes: all targets of the workspace and of the integration tests
/// are checked, and every warning counts as an error.
pub open spec fn clippy_arguments() -> Seq<Seq<char>> {
    seq![
        "clippy"@,
        "--workspace"@,
        "--package"@,
        "enso-integration-test"@,
        "--all-targets"@,
        "--"@,
        "-D"@,
        "warnings"@,
    ]
}

/// The arguments of the call that checks the style of the sources
/// without changing them.
pub open spec fn fmt_arguments() -> Seq<Seq<char>> {
    seq!["fmt"@, "--"@, "--check"@]
}

/// The calls of the compiler driver, found at `cargo_path`, that check the
/// sources in the working copy at `repo_root`: first for common mistakes,
/// then for style.
pub fn lint_commands(repo_root: &str, cargo_path: &str) -> (commands: Vec<Command>)
    ensures
        commands@.len() == 2,
        commands@[0].program@ == cargo_path@,
        commands@[0].current_dir matches Some(dir) && dir@ == repo_root@,
        texts(commands@[0].args@) == clippy_arguments(),
        commands@[1].program@ == cargo_path@,
        commands@[1].current_dir matches Some(dir) && dir@ == repo_root@,
        texts(commands@[1].args@) == fmt_arguments(),
{
    let clippy = Cargo.cmd(cargo_path).current_dir(repo_root).arg("clippy");
    let clippy = Options::Workspace.apply(clippy);
    let clippy = Options::Package(String::from_str("enso-integration-test")).apply(clippy);
    let clippy = Options::AllTargets.apply(clippy);
    let clippy = clippy.arg("--").arg("-D").arg("warnings");
    assert(texts(clippy.args@) =~= clippy_arguments());
    let fmt = Cargo.cmd(cargo_path).current_dir(repo_root).arg("fmt").arg("--").arg("--check");
    assert(texts(fmt.args@) =~= fmt_arguments());
    let mut commands: Vec<Command> = Vec::new();
    commands.push(clippy);
    commands.push(fmt);
    commands
}

/// Plans the command that the user gave: each target has its own
/// planning; cleaning and linting are about the working copy of the
/// context.
pub fn main_internal(
    ctx: &BuildContext,
    target: Target,
    in_ci: bool,
    cargo_path: &str,
) -> (operation: Operation)
    ensures
        match target {
            Target::Wasm(wasm) => operation matches Operation::Wasm(plan) && ctx.wasm_planned(
                wasm,
                plan,
            ),
            Target::Gui(gui) => operation matches Operation::Gui(plan) && ctx.gui_planned(
                gui,
                in_ci,
                plan,
            ),
            Target::ProjectManager(project_manager) => operation matches Operation::ProjectManager(
                start,
            ) && ctx.project_manager_planned(project_manager, in_ci, start),
            Target::Ide(ide) => operation matches Operation::Ide(plan) && ctx.ide_operation_planned(
                ide,
                in_ci,
                plan,
            ),
            Target::Clean => operation matches Operation::Clean { repo_root } && repo_root
                == ctx.source_root,
            Target::Lint => {
                &&& operation matches Operation::Lint { commands }
                &&& commands@.len() == 2
                &&& commands@[0].program@ == cargo_path@
                &&& commands@[0].current_dir matches Some(dir)
                &&& dir@ == ctx.source_root@
                &&& texts(commands@[0].args@) == clippy_arguments()
                &&& commands@[1].program@ == cargo_path@
                &&& commands@[1].current_dir matches Some(dir)
                &&& dir@ == ctx.source_root@
                &&& texts(commands@[1].args@) == fmt_arguments()
            },
        },
{
    match target {
        Target::Wasm(wasm) => Operation::Wasm(ctx.handle_wasm(wasm)),
        Target::Gui(gui) => Operation::Gui(ctx.handle_gui(gui, in_ci)),
        Target::ProjectManager(project_manager) => Operation::ProjectManager(
            ctx.handle_project_manager(project_manager, in_ci),
        ),
        Target::Ide(ide) => Operation::Ide(ctx.handle_ide(ide, in_ci)),
        Target::Clean => Operation::Clean { repo_root: ctx.source_root.clone() },
        Target::Lint => Operation::Lint {
            commands: lint_commands(ctx.source_root.as_str(), cargo_path),
        },
    }
}

} // verus!

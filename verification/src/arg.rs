//! What a user asks of the engine, one command per target.

pub mod gui;
pub mod ide;
pub mod project_manager;
pub mod wasm;

use vstd::prelude::*;

verus! {

/// The target that a command is about, with the command.
#[derive(Debug)]
pub enum Target {
    /// Build, fetch or watch the web module.
    Wasm(wasm::Target),
    /// Build, fetch or watch the interface bundle.
    Gui(gui::Target),
    /// Build or fetch the backend bundle.
    ProjectManager(project_manager::Target),
    /// Build, start or watch the desktop application.
    Ide(ide::Target),
    /// Remove what builds have left in the working copy.
    Clean,
    /// Check the sources for style and for common mistakes.
    Lint,
}

} // verus!

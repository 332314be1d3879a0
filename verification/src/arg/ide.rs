//! Commands about the desktop application.

use crate::arg::gui;
use crate::project::project_manager;
use crate::source::SourceDescriptor;
use vstd::prelude::*;

verus! {

/// What a user says of a build of the application: where its two parts
/// come from and where the result goes.
#[derive(Debug)]
pub struct BuildInput {
    pub gui: SourceDescriptor<gui::BuildInput>,
    pub project_manager: SourceDescriptor<project_manager::BuildArgs>,
    pub output_path: String,
}

/// A command about the desktop application.
#[derive(Debug)]
pub enum Command {
    /// Build the application, and upload it when in CI.
    Build { params: BuildInput },
    /// Build the application and run it.
    Start { params: BuildInput },
    /// Watch the interface bundle and run the backend beside it.
    Watch { project_manager: SourceDescriptor<project_manager::BuildArgs>, gui: gui::WatchInput },
    /// Run the integration tests, against a backend of one's own unless an
    /// external one is there.
    IntegrationTest {
        external_backend: bool,
        project_manager: SourceDescriptor<project_manager::BuildArgs>,
    },
}

/// The desktop application as the target of a command.
#[derive(Debug)]
pub struct Target {
    pub command: Command,
}

} // verus!

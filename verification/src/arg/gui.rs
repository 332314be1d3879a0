//! Commands about the interface bundle.

use crate::project::ide::OutputPath;
use crate::project::wasm;
use crate::source::SourceDescriptor;
use vstd::prelude::*;

verus! {

/// What a user says of a local build of the bundle.
#[derive(Debug)]
pub struct BuildInput {
    pub wasm: SourceDescriptor<wasm::BuildArgs>,
}

/// What a user says of watching the bundle.
#[derive(Debug)]
pub struct WatchInput {
    pub wasm: SourceDescriptor<wasm::BuildArgs>,
    pub output_path: OutputPath,
}

/// A command about the interface bundle.
#[derive(Debug)]
pub enum Command {
    /// Get the bundle from the given source.
    Get { source: SourceDescriptor<BuildInput> },
    /// Rebuild the bundle whenever its sources or the web module change.
    Watch { input: WatchInput },
}

/// The interface bundle as the target of a command.
#[derive(Debug)]
pub struct Target {
    /// Command for GUI package.
    pub command: Command,
}

} // verus!

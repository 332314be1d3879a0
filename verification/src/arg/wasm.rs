//! Commands about the web module.

use crate::project::ide::OutputPath;
use crate::project::wasm::BuildArgs;
use crate::source::SourceDescriptor;
use vstd::prelude::*;

verus! {

/// A command about the web module.
#[derive(Debug)]
pub enum Command {
    /// Rebuild the module whenever its sources change.
    Watch { params: BuildArgs, output_path: OutputPath },
    /// Build the module.
    Build { params: BuildArgs, output_path: OutputPath },
    /// Check the sources without building.
    Check,
    /// Run the tests; either half can be left out.
    Test { no_wasm: bool, no_native: bool },
    /// Get the module from the given source.
    Get { source: SourceDescriptor<BuildArgs> },
}

/// The web module as the target of a command.
#[derive(Debug)]
pub struct Target {
    pub command: Command,
}

} // verus!

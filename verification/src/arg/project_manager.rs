//! Commands about the backend bundle.

use crate::project::project_manager::BuildArgs;
use crate::source::SourceDescriptor;
use vstd::prelude::*;

verus! {

/// The backend bundle as the target of a command: it is got from the given
/// source.
#[derive(Debug)]
pub struct Target {
    pub source: SourceDescriptor<BuildArgs>,
}

} // verus!

//! The compiled web module.

use crate::paths::RepoRoot;
use vstd::prelude::*;

verus! {

/// How far the compiler optimises.
#[derive(Debug, Clone, Copy, PartialEq, Eq, Structural)]
pub enum Profile {
    Dev,
    Profile,
    Release,
}

/// How much of the profiling instrumentation stays in the module.
#[derive(Debug, Clone, Copy, PartialEq, Eq, Structural)]
pub enum ProfilingLevel {
    Objective,
    Task,
    Detail,
    Debug,
}

/// What a user says of a local build of the module.
#[derive(Debug)]
pub struct BuildArgs {
    /// The crate to compile, relative to the working copy. A build cannot
    /// do without it.
    pub crate_path: Option<String>,
    pub wasm_profile: Profile,
    /// Further options, handed on to the compiler driver as they are.
    pub cargo_options: Vec<String>,
    pub profiling_level: Option<ProfilingLevel>,
}

/// The inputs of a local build of the module.
#[derive(Debug)]
pub struct BuildInput {
    pub repo_root: RepoRoot,
    pub crate_path: String,
    pub extra_cargo_options: Vec<String>,
    pub profile: Profile,
    pub profiling_level: Option<ProfilingLevel>,
}

/// The target marker of the web module.
#[derive(Debug, Clone, Copy, PartialEq, Eq, Structural)]
pub struct Wasm;

/// The directory that holds a built module.
#[derive(Debug)]
pub struct Artifacts {
    pub dir: String,
}

impl Clone for Artifacts {
    fn clone(&self) -> (copy: Self)
        ensures
            copy == *self,
    {
        Artifacts { dir: self.dir.clone() }
    }
}

} // verus!

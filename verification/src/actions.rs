//! What the engine has to do with the CI provider: the definition of
//! workflows and the store of artifacts.

pub mod artifacts;
pub mod workflow;
